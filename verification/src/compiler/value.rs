//! The values that the generator handles.

use vstd::prelude::*;
use super::ir::{IrType, IrValue};

verus! {

/// A value as the generator knows it: the handle of the backend value,
/// its resolved type, whether it may be assigned to, whether other
/// modules see it, and, for a value that holds a struct, the name of the
/// struct type.
#[derive(Debug, PartialEq)]
pub struct IGValue {
    pub value: IrValue,
    pub _type: IrType,
    pub mutable: bool,
    pub public: bool,
    pub parent: Option<String>,
}

/// The mathematical value of an [`IGValue`].
pub struct IGValueV {
    pub value: IrValue,
    pub _type: IrType,
    pub mutable: bool,
    pub public: bool,
    pub parent: Option<Seq<char>>,
}

impl View for IGValue {
    type V = IGValueV;

    open spec fn view(&self) -> IGValueV {
        IGValueV {
            value: self.value,
            _type: self._type,
            mutable: self.mutable,
            public: self.public,
            parent: match self.parent {
                Some(p) => Some(p@),
                None => None,
            },
        }
    }
}

impl Clone for IGValue {
    fn clone(&self) -> (r: IGValue)
        ensures
            r@ == self@,
    {
        IGValue {
            value: self.value,
            _type: self._type,
            mutable: self.mutable,
            public: self.public,
            parent: match &self.parent {
                Some(p) => Some(p.clone()),
                None => None,
            },
        }
    }
}

impl IGValue {
    /// A scalar value: mutable, public, of no struct.
    pub fn new(value: IrValue, _type: IrType) -> (r: Self)
        ensures
            r@ == (IGValueV { value, _type, mutable: true, public: true, parent: None }),
    {
        Self { value, _type, mutable: true, public: true, parent: None }
    }

    /// A value that holds a struct of the type named `parent`.
    pub fn new_struct(value: IrValue, _type: IrType, parent: String) -> (r: Self)
        ensures
            r@ == (IGValueV { value, _type, mutable: true, public: true, parent: Some(parent@) }),
    {
        Self { value, _type, mutable: true, public: true, parent: Some(parent) }
    }

    /// Whether the type of this value is of the kind of `_type`.
    pub fn is_type(&self, _type: IrType) -> (b: bool)
        ensures
            b == (_type.kind() == self@._type.kind()),
    {
        _type.kind() == self._type.kind()
    }

    /// Whether the types of the two values are of one kind.
    pub fn same_type(&self, rhs: &Self) -> (b: bool)
        ensures
            b == (rhs@._type.kind() == self@._type.kind()),
    {
        self.is_type(rhs._type)
    }

    /// Whether the types of the two values are both of the kind of `_type`.
    pub fn are_both(&self, rhs: &Self, _type: IrType) -> (b: bool)
        ensures
            b == (rhs@._type.kind() == self@._type.kind() && _type.kind() == self@._type.kind()),
    {
        self.same_type(rhs) && self.is_type(_type)
    }
}

} // verus!
