//! Where the fields of a struct lie.

use vstd::prelude::*;
use crate::parser::ast::StmtV;
use super::lower::{qualified, spec_record_fields};
use super::scope::{find, lemma_find_put, ScopeV};

verus! {

/// Whether `fields` is a run of fields, no two of one name.
pub open spec fn distinct_fields(fields: Seq<StmtV>) -> bool {
    &&& forall|i: int| 0 <= i < fields.len() ==> (#[trigger] fields[i]) is Field
    &&& forall|i: int, j: int|
        0 <= i < fields.len() && 0 <= j < fields.len() && i != j ==> (#[trigger] fields[i])->Field_name != (
        #[trigger] fields[j])->Field_name
}

/// Two fields of one struct have the same qualified name only where they
/// have the same name.
pub proof fn lemma_qualified_is_injective(owner: Seq<char>, a: Seq<char>, b: Seq<char>)
    requires
        qualified(owner, a) == qualified(owner, b),
    ensures
        a == b,
{
    let qa = qualified(owner, a);
    let qb = qualified(owner, b);
    let n = owner.len() + 1;
    assert(qa.len() == n + a.len());
    assert(qb.len() == n + b.len());
    assert forall|i: int| 0 <= i < a.len() implies a[i] == b[i] by {
        assert(qa[n + i] == a[i]);
        assert(qb[n + i] == b[i]);
    }
    assert(a =~= b);
}

/// Recording the fields from the index `k` on leaves the offsets of other
/// names as they were, and gives each field from `k` on its index.
proof fn lemma_record_from(scope: ScopeV, owner: Seq<char>, fields: Seq<StmtV>, k: nat, i: int)
    requires
        distinct_fields(fields),
        fields.len() <= usize::MAX,
        0 <= i < fields.len(),
    ensures
        i >= k ==> find(spec_record_fields(scope, owner, fields, k).fields, qualified(owner, fields[i]->Field_name))
            == Some(i as usize),
        i < k ==> find(spec_record_fields(scope, owner, fields, k).fields, qualified(owner, fields[i]->Field_name))
            == find(scope.fields, qualified(owner, fields[i]->Field_name)),
    decreases fields.len() - k,
{
    if k < fields.len() {
        let name = qualified(owner, fields[k as int]->Field_name);
        let target = qualified(owner, fields[i]->Field_name);
        let next = scope.define_field(name, k as usize);
        assert(fields[k as int] is Field);
        lemma_record_from(next, owner, fields, k + 1, i);
        lemma_find_put(scope.fields, name, k as usize, target);
        if i != k {
            if name == target {
                lemma_qualified_is_injective(owner, fields[k as int]->Field_name, fields[i]->Field_name);
            }
        }
    }
}

/// The fields of a struct lie in the order of their declaration: the
/// offset recorded for the field at index `i` is `i`.
pub proof fn lemma_offsets_follow_declaration(scope: ScopeV, owner: Seq<char>, fields: Seq<StmtV>, i: int)
    requires
        distinct_fields(fields),
        fields.len() <= usize::MAX,
        0 <= i < fields.len(),
    ensures
        spec_record_fields(scope, owner, fields, 0).resolve_field(qualified(owner, fields[i]->Field_name)) == Some(
            i as usize,
        ),
{
    lemma_record_from(scope, owner, fields, 0, i);
}

} // verus!
