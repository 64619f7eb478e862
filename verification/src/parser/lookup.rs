//! A registry keyed by the kind of a token.

use vstd::prelude::*;
use crate::lexer::{Token, TokenKind};

verus! {

/// A registry keyed by token kind. The payload of the key token plays no
/// part: an entry registered under one integer literal is found under every
/// integer literal.
pub struct LookupTable<T> {
    values: Vec<(Token, T)>,
}

/// `i` is the first index of `s` whose key has kind `kind`.
pub open spec fn is_first<T>(s: Seq<(Token, T)>, i: int, kind: TokenKind) -> bool {
    &&& 0 <= i < s.len()
    &&& s[i].0.kind() == kind
    &&& forall|j: int| 0 <= j < i ==> (#[trigger] s[j]).0.kind() != kind
}

/// Whether some entry of `s` is registered under `kind`.
pub open spec fn has_kind<T>(s: Seq<(Token, T)>, kind: TokenKind) -> bool {
    exists|i: int| is_first(s, i, kind)
}

/// The first index of `s` that holds an entry of kind `kind`.
pub open spec fn first_of_kind<T>(s: Seq<(Token, T)>, kind: TokenKind) -> int {
    choose|i: int| is_first(s, i, kind)
}

/// Two sequences whose keys agree in kind, index by index, have their first
/// entries of each kind at the same places.
proof fn lemma_same_kinds<T>(a: Seq<(Token, T)>, b: Seq<(Token, T)>, kind: TokenKind)
    requires
        a.len() == b.len(),
        forall|i: int| 0 <= i < a.len() ==> (#[trigger] a[i]).0.kind() == (#[trigger] b[i]).0.kind(),
    ensures
        has_kind(a, kind) == has_kind(b, kind),
        has_kind(a, kind) ==> first_of_kind(a, kind) == first_of_kind(b, kind),
{
    if has_kind(a, kind) {
        let i = first_of_kind(a, kind);
        assert(is_first(b, i, kind)) by {
            assert(a[i].0.kind() == b[i].0.kind());
            assert forall|j: int| 0 <= j < i implies (#[trigger] b[j]).0.kind() != kind by {
                assert(a[j].0.kind() == b[j].0.kind());
            }
        }
        let i2 = first_of_kind(b, kind);
        assert(is_first(b, i2, kind));
        if i2 < i {
            assert(b[i2].0.kind() == kind);
        } else if i < i2 {
            assert(b[i].0.kind() == kind);
        }
    }
    if has_kind(b, kind) {
        let i = first_of_kind(b, kind);
        assert(is_first(a, i, kind)) by {
            assert(a[i].0.kind() == b[i].0.kind());
            assert forall|j: int| 0 <= j < i implies (#[trigger] a[j]).0.kind() != kind by {
                assert(a[j].0.kind() == b[j].0.kind());
            }
        }
    }
}

/// Where the first entry of kind `kind` stands at `i`, that is the chosen one.
proof fn lemma_first_unique<T>(s: Seq<(Token, T)>, i: int, kind: TokenKind)
    requires
        is_first(s, i, kind),
    ensures
        has_kind(s, kind),
        first_of_kind(s, kind) == i,
{
    let i2 = first_of_kind(s, kind);
    assert(is_first(s, i2, kind));
    if i2 < i {
        assert(s[i2].0.kind() == kind);
    } else if i < i2 {
        assert(s[i].0.kind() == kind);
    }
}

impl<T> LookupTable<T> {
    /// The table as a map from kind to registered value.
    pub closed spec fn view(&self) -> Map<TokenKind, T> {
        Self::map_of(self.values@)
    }

    /// The map that a sequence of entries stands for: under each kind, the
    /// value of the first entry of that kind.
    spec fn map_of(s: Seq<(Token, T)>) -> Map<TokenKind, T> {
        Map::new(|k: TokenKind| has_kind(s, k), |k: TokenKind| s[first_of_kind(s, k)].1)
    }

    pub fn new() -> (t: Self)
        ensures
            t@ == Map::<TokenKind, T>::empty(),
    {
        let t = Self { values: Vec::new() };
        assert(t@ =~= Map::<TokenKind, T>::empty());
        t
    }

    /// The position of the first entry registered under the kind of `key`.
    fn position(&self, key: &Token) -> (r: Option<usize>)
        ensures
            match r {
                Some(i) => is_first(self.values@, i as int, key.kind()),
                None => !has_kind(self.values@, key.kind()),
            },
    {
        let kind = key.kind();
        let mut i: usize = 0;
        while i < self.values.len()
            invariant
                i <= self.values@.len(),
                kind == key.kind(),
                forall|j: int| 0 <= j < i ==> (#[trigger] self.values@[j]).0.kind() != kind,
            decreases self.values@.len() - i,
        {
            if self.values[i].0.kind() == kind {
                return Some(i);
            }
            i += 1;
        }
        None
    }

    /// Registers `value` under the kind of `key`, in place of what was
    /// registered under that kind before.
    pub fn insert(&mut self, key: Token, value: T)
        ensures
            final(self)@ == old(self)@.insert(key.kind(), value),
    {
        let ghost before = self.values@;
        let ghost kind = key.kind();
        match self.position(&key) {
            Some(i) => {
                self.values.set(i, (key, value));
                proof {
                    let after = self.values@;
                    assert forall|k: TokenKind| #[trigger]
                        has_kind(after, k) == has_kind(before, k) && (has_kind(after, k) ==> first_of_kind(
                            after,
                            k,
                        ) == first_of_kind(before, k)) by {
                        lemma_same_kinds(after, before, k);
                    }
                    lemma_first_unique(before, i as int, kind);
                    assert(self@ =~= old(self)@.insert(kind, value));
                }
            },
            None => {
                self.values.push((key, value));
                proof {
                    let after = self.values@;
                    let n = before.len() as int;
                    assert(is_first(after, n, kind)) by {
                        assert forall|j: int| 0 <= j < n implies (#[trigger] after[j]).0.kind() != kind by {
                            if before[j].0.kind() == kind {
                                lemma_first_exists(before, j, kind);
                            }
                        }
                    }
                    lemma_first_unique(after, n, kind);
                    assert forall|k: TokenKind| k != kind implies #[trigger] has_kind(after, k) == has_kind(
                        before,
                        k,
                    ) && (has_kind(after, k) ==> first_of_kind(after, k) == first_of_kind(before, k)) by {
                        if has_kind(before, k) {
                            let j = first_of_kind(before, k);
                            assert(is_first(after, j, k)) by {
                                assert forall|m: int| 0 <= m < j implies (#[trigger] after[m]).0.kind() != k by {
                                    assert(after[m] == before[m]);
                                }
                            }
                            lemma_first_unique(after, j, k);
                        }
                        if has_kind(after, k) {
                            let j = first_of_kind(after, k);
                            assert(j < n);
                            assert(is_first(before, j, k)) by {
                                assert forall|m: int| 0 <= m < j implies (#[trigger] before[m]).0.kind() != k by {
                                    assert(after[m] == before[m]);
                                }
                            }
                            lemma_first_unique(before, j, k);
                        }
                    }
                    assert(self@ =~= old(self)@.insert(kind, value));
                }
            },
        }
    }

    /// The value registered under the kind of `key`, if any.
    pub fn get(&self, key: &Token) -> (r: Option<&T>)
        ensures
            match r {
                Some(v) => self@.dom().contains(key.kind()) && self@[key.kind()] == *v,
                None => !self@.dom().contains(key.kind()),
            },
    {
        match self.position(key) {
            Some(i) => {
                proof {
                    lemma_first_unique(self.values@, i as int, key.kind());
                }
                Some(&self.values[i].1)
            },
            None => None,
        }
    }

    /// The value registered under the kind of `key`, if any, open to change:
    /// what the caller leaves in it is what the table then holds.
    pub fn get_mut(&mut self, key: &Token) -> (r: Option<&mut T>)
        ensures
            match r {
                Some(v) => old(self)@.dom().contains(key.kind()) && *v == old(self)@[key.kind()]
                    && final(self)@ == old(self)@.insert(key.kind(), *final(v)),
                None => !old(self)@.dom().contains(key.kind()) && final(self)@ == old(self)@,
            },
    {
        let ghost before = self.values@;
        let ghost kind = key.kind();
        match self.position(key) {
            Some(i) => {
                proof {
                    lemma_first_unique(before, i as int, kind);
                    assert forall|after: Seq<(Token, T)>|
                        after.len() == before.len() && (forall|j: int|
                            0 <= j < before.len() && j != i ==> #[trigger] after[j] == before[j]) && after[i as int].0
                            == before[i as int].0 implies #[trigger] Self::map_of(after) =~= Self::map_of(
                        before,
                    ).insert(kind, after[i as int].1) by {
                        assert forall|k: TokenKind| #[trigger]
                            has_kind(after, k) == has_kind(before, k) && (has_kind(after, k) ==> first_of_kind(
                                after,
                                k,
                            ) == first_of_kind(before, k)) by {
                            lemma_same_kinds(after, before, k);
                        }
                    }
                }
                Some(&mut self.values[i].1)
            },
            None => None,
        }
    }
}

/// Lookup goes by kind alone: what is registered under one token is found
/// under every token of the same kind, whatever the two carry.
pub proof fn lemma_lookup_is_by_kind<T>(before: LookupTable<T>, after: LookupTable<T>, key: Token, value: T, other: Token)
    requires
        after@ == before@.insert(key.kind(), value),
        other.kind() == key.kind(),
    ensures
        after@.dom().contains(other.kind()),
        after@[other.kind()] == value,
{
}

/// Where some entry has kind `kind`, a first one exists.
proof fn lemma_first_exists<T>(s: Seq<(Token, T)>, i: int, kind: TokenKind)
    requires
        0 <= i < s.len(),
        s[i].0.kind() == kind,
    ensures
        has_kind(s, kind),
    decreases i,
{
    if forall|j: int| 0 <= j < i ==> (#[trigger] s[j]).0.kind() != kind {
        assert(is_first(s, i, kind));
    } else {
        let j = choose|j: int| 0 <= j < i && (#[trigger] s[j]).0.kind() == kind;
        lemma_first_exists(s, j, kind);
    }
}

} // verus!
