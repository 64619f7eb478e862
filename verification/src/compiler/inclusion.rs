//! What the splicing in of a source file gives the including module.

use vstd::prelude::*;
use crate::parser::ast::{ExprV, StmtV};
use crate::parser::grammar::{language, spec_parse};
use super::ir::TypeKind;
use super::lower::{
    builtin_types, spec_compile_unit, spec_find_source, spec_return_type_of, spec_splice, spec_visit_include,
    CompileError, Env, GenV,
};
use super::names::lemma_unit_has_distinct_names;
use super::lower::{spec_splice_fields, spec_splice_symbols, spliced_binding};
use super::operators::{
    can_be_called, declared_again, lemma_private_symbols_stay_out, lemma_public_function_is_declared_again,
    lemma_public_value_is_taken_over, lemma_splice_adds_the_lists, lemma_spliced_fields_keep_symbols,
    lemma_spliced_function_can_be_called, lemma_spliced_symbols_keep_lists,
};
use super::scope::{distinct_names, find, lemma_find_put, Entries, ScopeV};

verus! {

/// The state that the unit ends in which the directive `s` names, where
/// the file is among the sources, is parsed, and is lowered, behind the
/// instructions of the state `st`.
pub open spec fn spec_included_unit(env: Env, st: GenV, s: StmtV) -> Option<GenV> {
    match s {
        StmtV::Include { path } => match spec_find_source(env.sources, path, 0) {
            None => None,
            Some(i) => if i < env.sources.len() {
                let source = env.sources[i as int];
                match spec_parse(language(), source.tokens) {
                    Err(_) => None,
                    Ok(ast) => match spec_compile_unit(
                        Env { types: builtin_types(), sources: source.includes },
                        st.ops,
                        st.texts,
                        source.output,
                        ast,
                    ) {
                        Err(_) => None,
                        Ok(sub) => Some(sub),
                    },
                }
            } else {
                None
            },
        },
        _ => None,
    }
}

/// A file is spliced in if and only if it is found, parsed and lowered,
/// and what is spliced in is the state that its unit ended in, in which
/// no name stands twice.
pub proof fn lemma_file_is_spliced_as_its_unit(env: Env, st: GenV, s: StmtV)
    ensures
        match spec_included_unit(env, st, s) {
            Some(sub) => spec_visit_include(env, st, s) == Ok::<GenV, CompileError>(spec_splice(st, sub))
                && distinct_names(sub.scope.symbols) && distinct_names(sub.scope.fields),
            None => spec_visit_include(env, st, s) is Err,
        },
{
    match s {
        StmtV::Include { path } => match spec_find_source(env.sources, path, 0) {
            Some(i) => if i < env.sources.len() {
                let source = env.sources[i as int];
                match spec_parse(language(), source.tokens) {
                    Ok(ast) => {
                        lemma_unit_has_distinct_names(
                            Env { types: builtin_types(), sources: source.includes },
                            st.ops,
                            st.texts,
                            source.output,
                            ast,
                        );
                    },
                    Err(_) => {},
                }
            },
            None => {},
        },
        _ => {},
    }
}

/// Where a module splices in a file whose unit binds a public function,
/// the module then declares the function itself, by its type alone and
/// under the name that the backend knows it by; the name of the function
/// means that declaration, and the function can be called by it, on any
/// arguments. The libraries, the output files and the object files of
/// the module are then its own, and behind them those of the unit.
pub proof fn lemma_included_function_can_be_called(env: Env, st: GenV, s: StmtV, k: int, args: Seq<ExprV>)
    requires
        spec_included_unit(env, st, s) matches Some(sub) && 0 <= k < sub.scope.symbols.len()
            && sub.scope.symbols[k].1.public && sub.scope.symbols[k].1.value.kind() == TypeKind::Pointer
            && spec_return_type_of(sub.ops, sub.scope.symbols[k].1._type) is Some && spec_splice(
            st,
            sub,
        ).ops.len() <= usize::MAX,
    ensures
        ({
            let sub = spec_included_unit(env, st, s)->0;
            let helper = sub.scope.symbols[k];
            &&& spec_visit_include(env, st, s) matches Ok(after)
            &&& declared_again(after.ops, after.scope, helper.0, helper.1.value, helper.1._type)
            &&& can_be_called(env, after, helper.0, args)
            &&& after.libs == st.libs + sub.libs
            &&& after.outputs == st.outputs + sub.outputs
            &&& after.objects == st.objects + sub.objects
        }),
{
    let sub = spec_included_unit(env, st, s)->0;
    lemma_file_is_spliced_as_its_unit(env, st, s);
    lemma_public_function_is_declared_again(st, sub, k);
    lemma_spliced_function_can_be_called(env, st, sub, k, args);
    lemma_splice_adds_the_lists(st, sub);
}

/// Where a module splices in a file whose unit has a public binding that
/// is no pointer, such as a struct type, the name means in the module the
/// same value and type, immutable and private.
pub proof fn lemma_included_value_is_taken_over(env: Env, st: GenV, s: StmtV, k: int)
    requires
        spec_included_unit(env, st, s) matches Some(sub) && 0 <= k < sub.scope.symbols.len()
            && sub.scope.symbols[k].1.public && sub.scope.symbols[k].1.value.kind() != TypeKind::Pointer
            && spec_splice(st, sub).ops.len() <= usize::MAX,
    ensures
        ({
            let sub = spec_included_unit(env, st, s)->0;
            spec_visit_include(env, st, s) matches Ok(after) && after.scope.resolve(sub.scope.symbols[k].0)
                == Some(spliced_binding(sub.scope.symbols[k].1.value, sub.scope.symbols[k].1._type))
        }),
{
    let sub = spec_included_unit(env, st, s)->0;
    lemma_file_is_spliced_as_its_unit(env, st, s);
    lemma_public_value_is_taken_over(st, sub, k);
}

/// Where a module splices in a file, a name that no public binding of
/// the unit of the file carries means in the module what it meant
/// before: what is private in the unit stays out of the module.
pub proof fn lemma_included_private_symbols_stay_out(env: Env, st: GenV, s: StmtV, name: Seq<char>)
    requires
        spec_included_unit(env, st, s) matches Some(sub) && spec_splice(st, sub).ops.len() <= usize::MAX && (
        forall|k: int|
            0 <= k < sub.scope.symbols.len() && (#[trigger] sub.scope.symbols[k]).1.public
                ==> sub.scope.symbols[k].0 != name),
    ensures
        spec_visit_include(env, st, s) matches Ok(after) && after.scope.resolve(name) == st.scope.resolve(name),
{
    let sub = spec_included_unit(env, st, s)->0;
    lemma_file_is_spliced_as_its_unit(env, st, s);
    lemma_private_symbols_stay_out(st, sub, name);
}

/// What taking field offsets over does to the offset of a field, from
/// the index `i` on: the offset of a field that is among them is taken
/// over, and any other offset is left as it is.
proof fn lemma_spliced_fields_from(scope: ScopeV, entries: Entries<usize>, i: nat, name: Seq<char>)
    requires
        distinct_names(entries),
    ensures
        (forall|k: int| i <= k < entries.len() ==> (#[trigger] entries[k]).0 != name) ==> find(
            spec_splice_fields(scope, entries, i).fields,
            name,
        ) == find(scope.fields, name),
        forall|k: int|
            i <= k < entries.len() && (#[trigger] entries[k]).0 == name ==> find(
                spec_splice_fields(scope, entries, i).fields,
                name,
            ) == Some(entries[k].1),
    decreases entries.len() - i,
{
    if i < entries.len() {
        let (n, offset) = entries[i as int];
        lemma_spliced_fields_from(scope.define_field(n, offset), entries, i + 1, name);
        lemma_find_put(scope.fields, n, offset, name);
        if n == name {
            assert forall|k: int| i + 1 <= k < entries.len() implies (#[trigger] entries[k]).0 != name by {
                assert(entries[i as int].0 == name);
            }
            assert forall|k: int| i <= k < entries.len() && (#[trigger] entries[k]).0 == name implies k == i by {
                assert(entries[i as int].0 == name);
            }
        }
    }
}

/// Where a module splices in a file, every field offset that the unit of
/// the file has recorded is recorded in the module, as it is.
pub proof fn lemma_included_field_offsets_are_taken_over(env: Env, st: GenV, s: StmtV, k: int)
    requires
        spec_included_unit(env, st, s) matches Some(sub) && 0 <= k < sub.scope.fields.len(),
    ensures
        ({
            let sub = spec_included_unit(env, st, s)->0;
            spec_visit_include(env, st, s) matches Ok(after) && after.scope.resolve_field(sub.scope.fields[k].0)
                == Some(sub.scope.fields[k].1)
        }),
{
    let sub = spec_included_unit(env, st, s)->0;
    lemma_file_is_spliced_as_its_unit(env, st, s);
    let st1 = GenV { ops: sub.ops, texts: sub.texts, ..st };
    let st2 = spec_splice_symbols(st1, sub.scope.symbols, 0);
    lemma_spliced_fields_from(st2.scope, sub.scope.fields, 0, sub.scope.fields[k].0);
}

/// Where a module splices in a file, the offset of a field that the unit
/// of the file has not recorded is in the module what it was before.
pub proof fn lemma_other_field_offsets_stay(env: Env, st: GenV, s: StmtV, name: Seq<char>)
    requires
        spec_included_unit(env, st, s) matches Some(sub) && (forall|k: int|
            0 <= k < sub.scope.fields.len() ==> (#[trigger] sub.scope.fields[k]).0 != name),
    ensures
        spec_visit_include(env, st, s) matches Ok(after) && after.scope.resolve_field(name)
            == st.scope.resolve_field(name),
{
    let sub = spec_included_unit(env, st, s)->0;
    lemma_file_is_spliced_as_its_unit(env, st, s);
    let st1 = GenV { ops: sub.ops, texts: sub.texts, ..st };
    lemma_spliced_symbols_keep_lists(st1, sub.scope.symbols, 0);
    let st2 = spec_splice_symbols(st1, sub.scope.symbols, 0);
    lemma_spliced_fields_from(st2.scope, sub.scope.fields, 0, name);
    lemma_spliced_fields_keep_symbols(st2.scope, sub.scope.fields, 0);
}

} // verus!
