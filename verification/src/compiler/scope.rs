//! Tables of names, and the chain of lexical scopes.

use vstd::prelude::*;
use super::ir::{IrType, IrValue};
use super::value::{IGValue, IGValueV};

verus! {

/// The entries of a table of names, in the order in which the names were
/// first bound.
pub type Entries<T> = Seq<(Seq<char>, T)>;

/// `i` is the first index of `s` whose name is `name`.
pub open spec fn is_first_named<T>(s: Entries<T>, i: int, name: Seq<char>) -> bool {
    &&& 0 <= i < s.len()
    &&& s[i].0 == name
    &&& forall|j: int| 0 <= j < i ==> (#[trigger] s[j]).0 != name
}

/// Whether `name` is bound in `s`.
pub open spec fn bound<T>(s: Entries<T>, name: Seq<char>) -> bool {
    exists|i: int| is_first_named(s, i, name)
}

/// The index of the entry that binds `name` in `s`.
pub open spec fn index_of<T>(s: Entries<T>, name: Seq<char>) -> int {
    choose|i: int| is_first_named(s, i, name)
}

/// What `name` is bound to in `s`, if it is bound.
pub open spec fn find<T>(s: Entries<T>, name: Seq<char>) -> Option<T> {
    if bound(s, name) {
        Some(s[index_of(s, name)].1)
    } else {
        None
    }
}

/// `s` with `name` bound to `value`: in place of what it was bound to, or
/// behind all other names where it was not bound.
pub open spec fn put<T>(s: Entries<T>, name: Seq<char>, value: T) -> Entries<T> {
    if bound(s, name) {
        s.update(index_of(s, name), (name, value))
    } else {
        s.push((name, value))
    }
}

/// The entry that is first of its name is the one that `index_of` gives.
pub proof fn lemma_first_named<T>(s: Entries<T>, i: int, name: Seq<char>)
    requires
        is_first_named(s, i, name),
    ensures
        bound(s, name),
        index_of(s, name) == i,
{
    let k = index_of(s, name);
    assert(is_first_named(s, k, name));
    if k < i {
        assert(s[k].0 == name);
    } else if i < k {
        assert(s[i].0 == name);
    }
}

/// A name that some entry carries is bound.
pub proof fn lemma_named_is_bound<T>(s: Entries<T>, i: int, name: Seq<char>)
    requires
        0 <= i < s.len(),
        s[i].0 == name,
    ensures
        bound(s, name),
    decreases i,
{
    if forall|j: int| 0 <= j < i ==> (#[trigger] s[j]).0 != name {
        assert(is_first_named(s, i, name));
    } else {
        let j = choose|j: int| 0 <= j < i && (#[trigger] s[j]).0 == name;
        lemma_named_is_bound(s, j, name);
    }
}

/// A name is bound to what it was last bound to, and binding one name
/// leaves every other name as it was.
pub proof fn lemma_find_put<T>(s: Entries<T>, name: Seq<char>, value: T, other: Seq<char>)
    ensures
        find(put(s, name, value), name) == Some(value),
        other != name ==> find(put(s, name, value), other) == find(s, other),
        bound(put(s, name, value), other) == (other == name || bound(s, other)),
{
    let t = put(s, name, value);
    if bound(s, name) {
        let i = index_of(s, name);
        assert(is_first_named(s, i, name));
        assert(is_first_named(t, i, name)) by {
            assert forall|j: int| 0 <= j < i implies (#[trigger] t[j]).0 != name by {
                assert(s[j].0 != name);
            }
        }
        lemma_first_named(t, i, name);
        if other != name {
            if bound(s, other) {
                let k = index_of(s, other);
                assert(is_first_named(s, k, other));
                assert(is_first_named(t, k, other)) by {
                    assert forall|j: int| 0 <= j < k implies (#[trigger] t[j]).0 != other by {
                        assert(s[j].0 != other);
                    }
                }
                lemma_first_named(t, k, other);
            }
            if bound(t, other) {
                let k = index_of(t, other);
                assert(is_first_named(t, k, other));
                assert(is_first_named(s, k, other)) by {
                    assert forall|j: int| 0 <= j < k implies (#[trigger] s[j]).0 != other by {
                        assert(t[j].0 != other);
                    }
                }
                lemma_first_named(s, k, other);
            }
        }
    } else {
        let n = s.len() as int;
        assert(is_first_named(t, n, name)) by {
            assert forall|j: int| 0 <= j < n implies (#[trigger] t[j]).0 != name by {
                if s[j].0 == name {
                    lemma_named_is_bound(s, j, name);
                }
            }
        }
        lemma_first_named(t, n, name);
        if other != name {
            if bound(s, other) {
                let k = index_of(s, other);
                assert(is_first_named(s, k, other));
                assert(is_first_named(t, k, other)) by {
                    assert forall|j: int| 0 <= j < k implies (#[trigger] t[j]).0 != other by {
                        assert(s[j].0 != other);
                    }
                }
                lemma_first_named(t, k, other);
            }
            if bound(t, other) {
                let k = index_of(t, other);
                assert(is_first_named(t, k, other));
                assert(k < n);
                assert(is_first_named(s, k, other)) by {
                    assert forall|j: int| 0 <= j < k implies (#[trigger] s[j]).0 != other by {
                        assert(t[j].0 != other);
                    }
                }
                lemma_first_named(s, k, other);
            }
        }
    }
}

/// No two of the entries `entries` carry one name.
pub open spec fn distinct_names<T>(entries: Entries<T>) -> bool {
    forall|i: int, j: int|
        0 <= i < entries.len() && 0 <= j < entries.len() && i != j ==> (#[trigger] entries[i]).0 != (
        #[trigger] entries[j]).0
}

/// Binding a name keeps the names of a table distinct, and the table
/// without entries has distinct names: so has every table that was made
/// by binding names.
pub proof fn lemma_put_keeps_names_distinct<T>(s: Entries<T>, name: Seq<char>, value: T)
    requires
        distinct_names(s),
    ensures
        distinct_names(put(s, name, value)),
        distinct_names(Seq::<(Seq<char>, T)>::empty()),
{
    let t = put(s, name, value);
    if bound(s, name) {
        assert(is_first_named(s, index_of(s, name), name));
        assert forall|i: int, j: int| 0 <= i < t.len() && 0 <= j < t.len() && i != j implies (#[trigger] t[i]).0 != (
        #[trigger] t[j]).0 by {
            assert(s[i].0 == t[i].0);
            assert(s[j].0 == t[j].0);
        }
    } else {
        assert forall|i: int, j: int| 0 <= i < t.len() && 0 <= j < t.len() && i != j implies (#[trigger] t[i]).0 != (
        #[trigger] t[j]).0 by {
            if i < s.len() {
                assert(s[i].0 == t[i].0);
                if s[i].0 == name {
                    lemma_named_is_bound(s, i, name);
                }
            }
            if j < s.len() {
                assert(s[j].0 == t[j].0);
                if s[j].0 == name {
                    lemma_named_is_bound(s, j, name);
                }
            }
        }
    }
}

/// A table from names to values that keeps the order in which the names
/// were first bound, so that what is made while walking over a table is
/// determined by how the table was filled.
pub struct NameTable<V> {
    entries: Vec<(String, V)>,
}

impl<V: View> NameTable<V> {
    /// The entries of the table.
    pub closed spec fn view(&self) -> Entries<V::V> {
        Seq::new(self.entries@.len(), |i: int| (self.entries@[i].0@, self.entries@[i].1@))
    }

    pub fn new() -> (t: Self)
        ensures
            t@ == Seq::<(Seq<char>, V::V)>::empty(),
            distinct_names(t@),
    {
        let t = Self { entries: Vec::new() };
        assert(t@ =~= Seq::<(Seq<char>, V::V)>::empty());
        t
    }

    /// The number of names that are bound.
    pub fn len(&self) -> (n: usize)
        ensures
            n == self@.len(),
    {
        self.entries.len()
    }

    /// The name of the entry `i`.
    pub fn name_at(&self, i: usize) -> (name: &String)
        requires
            i < self@.len(),
        ensures
            name@ == self@[i as int].0,
    {
        &self.entries[i].0
    }

    /// The value of the entry `i`.
    pub fn value_at(&self, i: usize) -> (value: &V)
        requires
            i < self@.len(),
        ensures
            value@ == self@[i as int].1,
    {
        &self.entries[i].1
    }

    /// The index of the entry that binds `name`.
    fn position(&self, name: &String) -> (r: Option<usize>)
        ensures
            match r {
                Some(i) => is_first_named(self@, i as int, name@),
                None => !bound(self@, name@),
            },
    {
        let mut i: usize = 0;
        while i < self.entries.len()
            invariant
                i <= self.entries@.len(),
                forall|j: int| 0 <= j < i ==> (#[trigger] self@[j]).0 != name@,
            decreases self.entries@.len() - i,
        {
            if self.entries[i].0 == *name {
                return Some(i);
            }
            i += 1;
        }
        None
    }

    /// Whether `name` is bound.
    pub fn contains_key(&self, name: &String) -> (b: bool)
        ensures
            b == bound(self@, name@),
    {
        match self.position(name) {
            Some(i) => true,
            None => false,
        }
    }

    /// What `name` is bound to, if it is bound.
    pub fn get(&self, name: &String) -> (r: Option<&V>)
        ensures
            match r {
                Some(v) => find(self@, name@) == Some(v@),
                None => find(self@, name@) is None,
            },
    {
        match self.position(name) {
            Some(i) => {
                proof {
                    lemma_first_named(self@, i as int, name@);
                }
                Some(&self.entries[i].1)
            },
            None => None,
        }
    }

    /// Binds `name` to `value`. No name comes to stand twice in the table.
    pub fn insert(&mut self, name: String, value: V)
        ensures
            final(self)@ == put(old(self)@, name@, value@),
            distinct_names(old(self)@) ==> distinct_names(final(self)@),
    {
        proof {
            if distinct_names(self@) {
                lemma_put_keeps_names_distinct(self@, name@, value@);
            }
        }
        match self.position(&name) {
            Some(i) => {
                proof {
                    lemma_first_named(self@, i as int, name@);
                }
                self.entries.set(i, (name, value));
                assert(self@ =~= put(old(self)@, name@, value@));
            },
            None => {
                self.entries.push((name, value));
                assert(self@ =~= put(old(self)@, name@, value@));
            },
        }
    }
}

impl Clone for NameTable<IGValue> {
    fn clone(&self) -> (t: Self)
        ensures
            t@ == self@,
    {
        let mut entries: Vec<(String, IGValue)> = Vec::new();
        let mut i: usize = 0;
        while i < self.entries.len()
            invariant
                i <= self.entries@.len(),
                entries@.len() == i,
                forall|j: int| 0 <= j < i ==> (#[trigger] entries@[j]).0@ == self.entries@[j].0@,
                forall|j: int| 0 <= j < i ==> (#[trigger] entries@[j]).1@ == self.entries@[j].1@,
            decreases self.entries@.len() - i,
        {
            entries.push((self.entries[i].0.clone(), self.entries[i].1.clone()));
            i += 1;
        }
        let t = Self { entries };
        assert(t@ =~= self@);
        t
    }
}

impl Clone for NameTable<usize> {
    fn clone(&self) -> (t: Self)
        ensures
            t@ == self@,
    {
        let mut entries: Vec<(String, usize)> = Vec::new();
        let mut i: usize = 0;
        while i < self.entries.len()
            invariant
                i <= self.entries@.len(),
                entries@.len() == i,
                forall|j: int| 0 <= j < i ==> (#[trigger] entries@[j]).0@ == self.entries@[j].0@,
                forall|j: int| 0 <= j < i ==> (#[trigger] entries@[j]).1 == self.entries@[j].1,
            decreases self.entries@.len() - i,
        {
            entries.push((self.entries[i].0.clone(), self.entries[i].1));
            i += 1;
        }
        let t = Self { entries };
        assert(t@ =~= self@);
        t
    }
}

/// The mathematical value of an [`IGScope`]: its own bindings of values
/// and of field offsets, and the scope around it.
pub struct ScopeV {
    pub symbols: Entries<IGValueV>,
    pub fields: Entries<usize>,
    pub parent: Option<Box<ScopeV>>,
    pub name: Option<Seq<char>>,
}

impl ScopeV {
    /// The scope without bindings inside `outer`.
    pub open spec fn child(outer: ScopeV, name: Option<Seq<char>>) -> ScopeV {
        ScopeV { symbols: Seq::empty(), fields: Seq::empty(), parent: Some(Box::new(outer)), name }
    }

    /// The scope without bindings that stands in no other.
    pub open spec fn root() -> ScopeV {
        ScopeV { symbols: Seq::empty(), fields: Seq::empty(), parent: None, name: None }
    }

    /// This scope with `name` bound to `value` in it.
    pub open spec fn define(self, name: Seq<char>, value: IGValueV) -> ScopeV {
        ScopeV { symbols: put(self.symbols, name, value), ..self }
    }

    /// This scope with the offset `index` recorded for the field `name`.
    pub open spec fn define_field(self, name: Seq<char>, index: usize) -> ScopeV {
        ScopeV { fields: put(self.fields, name, index), ..self }
    }

    /// What `name` is bound to: in this scope, or else in the nearest
    /// scope around it that binds it.
    pub open spec fn resolve(self, name: Seq<char>) -> Option<IGValueV>
        decreases self,
    {
        match find(self.symbols, name) {
            Some(v) => Some(v),
            None => match self.parent {
                Some(p) => p.resolve(name),
                None => None,
            },
        }
    }

    /// The offset recorded for the field `name`, in this scope or else in
    /// the nearest scope around it that records one.
    pub open spec fn resolve_field(self, name: Seq<char>) -> Option<usize>
        decreases self,
    {
        match find(self.fields, name) {
            Some(i) => Some(i),
            None => match self.parent {
                Some(p) => p.resolve_field(name),
                None => None,
            },
        }
    }
}

/// A lexical scope: its own bindings, and the scope around it.
pub struct IGScope {
    pub symbols: NameTable<IGValue>,
    pub fields: NameTable<usize>,
    pub parent: Option<Box<IGScope>>,
    pub name: Option<String>,
}

/// The value of a scope, the scopes around it included.
pub open spec fn scope_view(s: IGScope) -> ScopeV
    decreases s,
{
    ScopeV {
        symbols: s.symbols@,
        fields: s.fields@,
        parent: match s.parent {
            Some(p) => Some(Box::new(scope_view(*p))),
            None => None,
        },
        name: match s.name {
            Some(n) => Some(n@),
            None => None,
        },
    }
}

impl View for IGScope {
    type V = ScopeV;

    open spec fn view(&self) -> ScopeV {
        scope_view(*self)
    }
}

impl Clone for IGScope {
    /// A copy of the scope and of the scopes around it.
    fn clone(&self) -> (s: Self)
        ensures
            s@ == self@,
        decreases self,
    {
        IGScope {
            symbols: self.symbols.clone(),
            fields: self.fields.clone(),
            parent: match &self.parent {
                Some(p) => Some(Box::new((**p).clone())),
                None => None,
            },
            name: match &self.name {
                Some(n) => Some(n.clone()),
                None => None,
            },
        }
    }
}

impl IGScope {
    /// A scope with the given bindings, or without bindings where none
    /// are given, inside `parent`.
    pub fn new(
        symbols: Option<NameTable<IGValue>>,
        fields: Option<NameTable<usize>>,
        name: Option<String>,
        parent: Option<Box<Self>>,
    ) -> (s: Self)
        ensures
            s@.symbols == (match symbols {
                Some(t) => t@,
                None => Seq::empty(),
            }),
            s@.fields == (match fields {
                Some(t) => t@,
                None => Seq::empty(),
            }),
            s@.name == (match name {
                Some(n) => Some(n@),
                None => None,
            }),
            s@.parent == (match parent {
                Some(p) => Some(Box::new(p@)),
                None => None,
            }),
    {
        let _symbols = match symbols {
            Some(t) => t,
            None => NameTable::new(),
        };
        let _fields = match fields {
            Some(t) => t,
            None => NameTable::new(),
        };
        Self { symbols: _symbols, fields: _fields, parent, name }
    }

    /// Binds `name` in this scope to a value of no struct.
    pub fn define(&mut self, name: String, value: IrValue, _type: IrType, mutable: bool, public: bool) -> (r:
        IrValue)
        ensures
            r == value,
            final(self)@ == old(self)@.define(
                name@,
                IGValueV { value, _type, mutable, public, parent: None },
            ),
    {
        self.symbols.insert(name, IGValue { _type, value, mutable, public, parent: None });
        value
    }

    /// Binds `name` in this scope to a value that holds a struct of the
    /// type named `parent`.
    pub fn define_struct(
        &mut self,
        name: String,
        value: IrValue,
        _type: IrType,
        mutable: bool,
        public: bool,
        parent: String,
    ) -> (r: IrValue)
        ensures
            r == value,
            final(self)@ == old(self)@.define(
                name@,
                IGValueV { value, _type, mutable, public, parent: Some(parent@) },
            ),
    {
        self.symbols.insert(name, IGValue { _type, value, mutable, public, parent: Some(parent) });
        value
    }

    /// Records the offset `index` for the field `name` in this scope.
    pub fn define_field(&mut self, name: String, index: usize)
        ensures
            final(self)@ == old(self)@.define_field(name@, index),
    {
        self.fields.insert(name, index);
    }

    /// Binds `name` in this scope to the type `_type`: the value is the
    /// placeholder.
    pub fn define_type(&mut self, name: String, _type: IrType, mutable: bool, public: bool)
        ensures
            final(self)@ == old(self)@.define(
                name@,
                IGValueV { value: IrValue::Sentinel, _type, mutable, public, parent: None },
            ),
    {
        self.symbols.insert(name, IGValue { _type, value: IrValue::Sentinel, mutable, public, parent: None });
    }

    /// What `name` is bound to, in this scope or around it.
    pub fn resolve(&self, name: String) -> (r: Option<&IGValue>)
        ensures
            match r {
                Some(v) => self@.resolve(name@) == Some(v@),
                None => self@.resolve(name@) is None,
            },
        decreases self,
    {
        match self.symbols.get(&name) {
            Some(v) => Some(v),
            None => match &self.parent {
                Some(parent) => parent.resolve(name),
                None => None,
            },
        }
    }

    /// The offset recorded for the field `name`, in this scope or around it.
    pub fn resolve_field(&self, name: String) -> (r: Option<&usize>)
        ensures
            match r {
                Some(i) => self@.resolve_field(name@) == Some(*i),
                None => self@.resolve_field(name@) is None,
            },
        decreases self,
    {
        match self.fields.get(&name) {
            Some(i) => Some(i),
            None => match &self.parent {
                Some(parent) => parent.resolve_field(name),
                None => None,
            },
        }
    }

    /// Whether this scope itself binds `name`.
    pub fn declares(&self, name: &String) -> (b: bool)
        ensures
            b == bound(self@.symbols, name@),
    {
        self.symbols.contains_key(name)
    }

    /// Gives this scope up: what is left is the scope around it, as it was
    /// when this scope was made.
    pub fn into_parent(self) -> (r: Option<IGScope>)
        ensures
            match r {
                Some(p) => self@.parent == Some(Box::new(p@)),
                None => self@.parent is None,
            },
    {
        match self.parent {
            Some(p) => Some(*p),
            None => None,
        }
    }
}

/// A binding in an inner scope hides the binding of the same name around
/// it, and leaves it as it was: the scope around is the one that the inner
/// scope was made in, so that once the inner scope is given up the name
/// means again what it meant before.
pub proof fn lemma_inner_binding_shadows(outer: ScopeV, scope_name: Option<Seq<char>>, name: Seq<char>, value: IGValueV)
    ensures
        ScopeV::child(outer, scope_name).define(name, value).resolve(name) == Some(value),
        ScopeV::child(outer, scope_name).define(name, value).parent == Some(Box::new(outer)),
        ScopeV::child(outer, scope_name).resolve(name) == outer.resolve(name),
{
    let inner = ScopeV::child(outer, scope_name);
    lemma_find_put(inner.symbols, name, value, name);
    assert(!bound(inner.symbols, name)) by {
        if bound(inner.symbols, name) {
            let i = index_of(inner.symbols, name);
            assert(is_first_named(inner.symbols, i, name));
        }
    }
}

/// Binding one name leaves the meaning of every other name as it was.
pub proof fn lemma_define_keeps_others(scope: ScopeV, name: Seq<char>, value: IGValueV, other: Seq<char>)
    requires
        other != name,
    ensures
        scope.define(name, value).resolve(other) == scope.resolve(other),
        scope.define(name, value).resolve(name) == Some(value),
{
    lemma_find_put(scope.symbols, name, value, other);
}

} // verus!
