//! The backend as the generator sees it: types, handles of values, and the
//! instructions that a compilation hands to the backend, in order.
//!
//! Every instruction is a plain value. Text is kept in a table beside the
//! instructions and referred to by index; a list of operands is given by
//! `TypeItem` or `Argument` instructions in front of the instruction that
//! takes them. The handle of what an instruction yields is the index of the
//! instruction.

use vstd::prelude::*;

verus! {

/// The kind of a backend type.
#[derive(Clone, Copy, PartialEq, Eq, Structural, Debug)]
pub enum TypeKind {
    Void,
    Half,
    Float,
    Double,
    Integer,
    Function,
    Struct,
    Pointer,
}

/// A backend type. A struct or function type is named by the index of the
/// instruction that made it.
#[derive(Clone, Copy, PartialEq, Eq, Structural, Debug)]
pub enum IrType {
    Void,
    Half,
    Float,
    Double,
    /// An integer of the given width in bits.
    Int(usize),
    Pointer,
    Struct(usize),
    Function(usize),
}

impl IrType {
    pub open spec fn spec_kind(self) -> TypeKind {
        match self {
            IrType::Void => TypeKind::Void,
            IrType::Half => TypeKind::Half,
            IrType::Float => TypeKind::Float,
            IrType::Double => TypeKind::Double,
            IrType::Int(_) => TypeKind::Integer,
            IrType::Pointer => TypeKind::Pointer,
            IrType::Struct(_) => TypeKind::Struct,
            IrType::Function(_) => TypeKind::Function,
        }
    }

    /// The kind of this type.
    #[verifier::when_used_as_spec(spec_kind)]
    pub fn kind(self) -> (k: TypeKind)
        ensures
            k == self.spec_kind(),
    {
        match self {
            IrType::Void => TypeKind::Void,
            IrType::Half => TypeKind::Half,
            IrType::Float => TypeKind::Float,
            IrType::Double => TypeKind::Double,
            IrType::Int(_) => TypeKind::Integer,
            IrType::Pointer => TypeKind::Pointer,
            IrType::Struct(_) => TypeKind::Struct,
            IrType::Function(_) => TypeKind::Function,
        }
    }
}

impl View for IrType {
    type V = IrType;

    open spec fn view(&self) -> IrType {
        *self
    }
}

/// The handle of a backend value: what the instruction `id` yields, with
/// the kind of its backend type; or the placeholder that stands in the
/// scope for a name that is a type only.
#[derive(Clone, Copy, PartialEq, Eq, Structural, Debug)]
pub enum IrValue {
    Inst { id: usize, kind: TypeKind },
    Sentinel,
}

impl IrValue {
    pub open spec fn spec_kind(self) -> TypeKind {
        match self {
            IrValue::Inst { id, kind } => kind,
            IrValue::Sentinel => TypeKind::Integer,
        }
    }

    /// The kind of the backend type of this value. The placeholder is a
    /// one-bit integer constant.
    #[verifier::when_used_as_spec(spec_kind)]
    pub fn kind(self) -> (k: TypeKind)
        ensures
            k == self.spec_kind(),
    {
        match self {
            IrValue::Inst { id, kind } => kind,
            IrValue::Sentinel => TypeKind::Integer,
        }
    }
}

/// How the backend names what an instruction yields. A fresh name holds a
/// unique identifier that is drawn when the instruction is carried out;
/// text is given by its index in the table of texts.
#[derive(Clone, Copy, PartialEq, Eq, Structural, Debug)]
pub enum Name {
    /// The empty name.
    Empty,
    /// A unique identifier.
    Fresh,
    /// The text, an underscore and a unique identifier.
    Prefixed(usize),
    /// The first text, an underscore, a unique identifier, an underscore
    /// and the second text.
    Wrapped(usize, usize),
    /// The text itself.
    Exact(usize),
    /// The name that the backend knows the value by.
    OfValue(IrValue),
}

/// An arithmetic or bitwise instruction of two operands.
#[derive(Clone, Copy, PartialEq, Eq, Structural, Debug)]
pub enum ArithOp {
    Add,
    Sub,
    Mul,
    SDiv,
    FAdd,
    FSub,
    FMul,
    FDiv,
    Or,
    And,
}

/// A comparison of integers, unsigned where the order matters.
#[derive(Clone, Copy, PartialEq, Eq, Structural, Debug)]
pub enum IntPredicate {
    EQ,
    NE,
    UGT,
    UGE,
    ULT,
    ULE,
}

/// A comparison of floating-point numbers that also holds of unordered
/// operands.
#[derive(Clone, Copy, PartialEq, Eq, Structural, Debug)]
pub enum RealPredicate {
    UEQ,
    UNE,
    UGT,
    UGE,
    ULT,
    ULE,
}

/// One instruction to the backend.
#[derive(Clone, Copy, PartialEq, Eq, Structural, Debug)]
pub enum Op {
    /// A new context, with a new module and a new builder, which the
    /// instructions up to the matching `WriteIr` go to.
    BeginUnit,
    /// Prints the module to the file whose path is the text `path`, and
    /// goes back to the unit before.
    WriteIr { path: usize },
    /// One more type for the struct or function type that follows.
    TypeItem(IrType),
    /// The struct type of the last `count` types given.
    StructType { count: usize },
    /// The function type that returns `ret` and takes the last `count`
    /// types given.
    FunctionType { ret: IrType, count: usize },
    /// Declares a function in the module.
    AddFunction { name: Name, ty: IrType },
    /// Appends a basic block to a function.
    AppendBlock { function: IrValue, name: Name },
    /// Places the builder at the end of the block made by instruction `block`.
    PositionAtEnd { block: usize },
    Alloca { ty: IrType, name: Name },
    Store { value: IrValue, ptr: IrValue },
    Load { ty: IrType, ptr: IrValue, name: Name },
    /// The parameter `index` of a function.
    Param { function: IrValue, index: usize },
    ConstInt { ty: IrType, number: u64 },
    /// The floating-point constant with the given binary64 bit pattern.
    ConstReal { ty: IrType, bits: u64 },
    Arith { op: ArithOp, lhs: IrValue, rhs: IrValue, name: Name },
    ICmp { pred: IntPredicate, lhs: IrValue, rhs: IrValue, name: Name },
    FCmp { real: RealPredicate, lhs: IrValue, rhs: IrValue, name: Name },
    Not { value: IrValue, name: Name },
    /// One more argument for the call that follows.
    Argument(IrValue),
    /// Calls `callee`, of function type `fn_ty`, on the last `count`
    /// arguments given.
    Call { fn_ty: IrType, callee: IrValue, count: usize, name: Name },
    Ret { value: IrValue },
    RetVoid,
    Br { dest: usize },
    CondBr { cond: IrValue, then: usize, otherwise: usize },
    /// The address of the field `index` of the struct of type `ty` at `ptr`.
    StructGep { ty: IrType, ptr: IrValue, index: usize, name: Name },
    /// A global constant that holds the text `text`.
    GlobalString { text: usize, name: Name },
    PointerCast { value: IrValue, ty: IrType, name: Name },
}

impl Op {
    /// Whether the builder puts this instruction into the block that it
    /// stands in.
    pub open spec fn spec_in_block(self) -> bool {
        match self {
            Op::Alloca { .. }
            | Op::Store { .. }
            | Op::Load { .. }
            | Op::Arith { .. }
            | Op::ICmp { .. }
            | Op::FCmp { .. }
            | Op::Not { .. }
            | Op::Call { .. }
            | Op::Ret { .. }
            | Op::RetVoid
            | Op::Br { .. }
            | Op::CondBr { .. }
            | Op::StructGep { .. }
            | Op::PointerCast { .. } => true,
            _ => false,
        }
    }

    #[verifier::when_used_as_spec(spec_in_block)]
    pub fn in_block(self) -> (b: bool)
        ensures
            b == self.spec_in_block(),
    {
        match self {
            Op::Alloca { .. }
            | Op::Store { .. }
            | Op::Load { .. }
            | Op::Arith { .. }
            | Op::ICmp { .. }
            | Op::FCmp { .. }
            | Op::Not { .. }
            | Op::Call { .. }
            | Op::Ret { .. }
            | Op::RetVoid
            | Op::Br { .. }
            | Op::CondBr { .. }
            | Op::StructGep { .. }
            | Op::PointerCast { .. } => true,
            _ => false,
        }
    }

    /// Whether this instruction ends a block: it returns or branches.
    pub open spec fn spec_terminates(self) -> bool {
        match self {
            Op::Ret { .. } | Op::RetVoid | Op::Br { .. } | Op::CondBr { .. } => true,
            _ => false,
        }
    }

    #[verifier::when_used_as_spec(spec_terminates)]
    pub fn terminates(self) -> (b: bool)
        ensures
            b == self.spec_terminates(),
    {
        match self {
            Op::Ret { .. } | Op::RetVoid | Op::Br { .. } | Op::CondBr { .. } => true,
            _ => false,
        }
    }
}

/// The type of a truth value: a one-bit integer.
pub open spec fn bool_type() -> IrType {
    IrType::Int(1)
}

/// The type of an integer literal.
pub open spec fn i32_type() -> IrType {
    IrType::Int(32)
}

/// The type of a decimal literal.
pub open spec fn f32_type() -> IrType {
    IrType::Float
}

} // verus!
