//! No name comes to stand twice in a scope while a unit is lowered.

use vstd::prelude::*;
use crate::parser::ast::StmtV;
use super::ir::{IrType, IrValue, Op, TypeKind};
use super::lower::{
    qualified, spec_compile_unit, spec_create_basic_block, spec_declare_function, spec_get_arg_types,
    spec_get_type, spec_new, spec_record_fields, spec_resolve_value, spec_splice, spec_splice_fields,
    spec_splice_symbol, spec_splice_symbols, spec_struct_type,
    spec_visit, spec_visit_block, spec_visit_conditional, spec_visit_extern, spec_visit_include,
    spec_visit_items, spec_visit_return, spec_visit_struct_declaration, spec_visit_variable_declaration,
    spec_visit_while, spliced_binding, variable_binding, Env, GenV,
};
use super::scope::{distinct_names, lemma_put_keeps_names_distinct, Entries, ScopeV};
use super::scoping::lemma_value_keeps_scope;
use super::surroundings::{
    lemma_conditions_keep_scope, lemma_declaring_keeps_scope, lemma_expression_keeps_scope,
    lemma_fields_keep_surroundings, lemma_function_leaves_its_name_only, spec_declared,
};
use super::value::IGValueV;

verus! {

/// Whether no name stands twice among the bindings of the scope `scope`
/// itself, nor among its field offsets.
pub open spec fn distinct(scope: ScopeV) -> bool {
    distinct_names(scope.symbols) && distinct_names(scope.fields)
}

/// Whether the names of the current scope of `after` are distinct where
/// those of `before` are.
pub open spec fn keeps_names(before: GenV, after: GenV) -> bool {
    distinct(before.scope) ==> distinct(after.scope)
}

/// Splicing bindings in keeps the names distinct.
proof fn lemma_spliced_symbols_keep_names(st: GenV, entries: Entries<IGValueV>, i: nat)
    ensures
        keeps_names(st, spec_splice_symbols(st, entries, i)),
    decreases entries.len() - i,
{
    if i < entries.len() && distinct(st.scope) {
        let (n, v) = entries[i as int];
        let st1 = spec_splice_symbol(st, n, v);
        lemma_put_keeps_names_distinct(
            st.scope.symbols,
            n,
            spliced_binding(st.next_value(TypeKind::Pointer), v._type),
        );
        lemma_put_keeps_names_distinct(st.scope.symbols, n, spliced_binding(v.value, v._type));
        assert(st1.scope.fields == st.scope.fields);
        lemma_spliced_symbols_keep_names(st1, entries, i + 1);
    }
}

/// Taking field offsets over keeps the names distinct.
proof fn lemma_spliced_fields_keep_names(scope: ScopeV, entries: Entries<usize>, i: nat)
    ensures
        distinct(scope) ==> distinct(spec_splice_fields(scope, entries, i)),
    decreases entries.len() - i,
{
    if i < entries.len() && distinct(scope) {
        lemma_put_keeps_names_distinct(scope.fields, entries[i as int].0, entries[i as int].1);
        lemma_spliced_fields_keep_names(
            scope.define_field(entries[i as int].0, entries[i as int].1),
            entries,
            i + 1,
        );
    }
}

/// Recording the offsets of the fields of a struct keeps the names
/// distinct.
proof fn lemma_recorded_fields_keep_names(scope: ScopeV, owner: Seq<char>, fields: Seq<StmtV>, i: nat)
    ensures
        distinct(scope) ==> distinct(spec_record_fields(scope, owner, fields, i)),
    decreases fields.len() - i,
{
    if i < fields.len() && distinct(scope) {
        match fields[i as int] {
            StmtV::Field { name, _type } => {
                lemma_put_keeps_names_distinct(scope.fields, qualified(owner, name), i as usize);
                lemma_recorded_fields_keep_names(
                    scope.define_field(qualified(owner, name), i as usize),
                    owner,
                    fields,
                    i + 1,
                );
            },
            _ => {},
        }
    }
}

/// Splicing a module in keeps the names distinct.
pub proof fn lemma_splice_keeps_names(st: GenV, sub: GenV)
    ensures
        keeps_names(st, spec_splice(st, sub)),
{
    let st1 = GenV { ops: sub.ops, texts: sub.texts, ..st };
    lemma_spliced_symbols_keep_names(st1, sub.scope.symbols, 0);
    let st2 = spec_splice_symbols(st1, sub.scope.symbols, 0);
    lemma_spliced_fields_keep_names(st2.scope, sub.scope.fields, 0);
}

/// The lowering of a statement keeps the names distinct.
pub proof fn lemma_statement_keeps_names(env: Env, st: GenV, s: StmtV)
    ensures
        spec_visit(env, st, s) matches Ok(after) ==> keeps_names(st, after),
    decreases s, 0nat, 5nat,
{
    if distinct(st.scope) {
        match s {
            StmtV::Expression(e) => {
                lemma_expression_keeps_scope(env, st, *e);
            },
            StmtV::FunctionDeclaration { name, .. } => {
                lemma_function_leaves_its_name_only(env, st, s);
                lemma_put_keeps_names_distinct(st.scope.symbols, name, spec_declared(env, st, s));
            },
            StmtV::Return { value } => {
                lemma_value_keeps_scope(env, st, *value);
                assert(spec_visit(env, st, s) == spec_visit_return(env, st, s));
            },
            StmtV::VariableDeclaration { name, mutable, explicit_type, value } => {
                lemma_value_keeps_scope(env, st, *value);
                assert(spec_visit(env, st, s) == spec_visit_variable_declaration(env, st, s));
                match spec_resolve_value(env, st, *value) {
                    Ok((st1, v)) => {
                        let slot = st1.intern(name).next_value(TypeKind::Pointer);
                        lemma_put_keeps_names_distinct(st.scope.symbols, name, variable_binding(v, slot, mutable));
                    },
                    Err(_) => {},
                }
            },
            StmtV::Extern { name, symbol, return_type, arguments } => {
                assert(spec_visit(env, st, s) == spec_visit_extern(env, st, s));
                match spec_get_arg_types(env, st, arguments, 0, Seq::empty()) {
                    Ok(types) => {
                        match spec_get_type(env, st, return_type) {
                            Ok(ret) => {
                                lemma_declaring_keeps_scope(st, symbol, ret, types);
                                lemma_put_keeps_names_distinct(
                                    st.scope.symbols,
                                    name,
                                    spec_declare_function(st, symbol, ret, types).1,
                                );
                            },
                            Err(_) => {},
                        }
                    },
                    Err(_) => {},
                }
            },
            StmtV::Include { path } => {
                assert(spec_visit(env, st, s) == spec_visit_include(env, st, s));
                assert forall|sub: GenV| keeps_names(st, #[trigger] spec_splice(st, sub)) by {
                    lemma_splice_keeps_names(st, sub);
                }
            },
            StmtV::While { .. } => {
                lemma_loop_keeps_names(env, st, s);
            },
            StmtV::StructDeclaration { name, fields, functions } => {
                assert(spec_visit(env, st, s) == spec_visit_struct_declaration(env, st, s));
                match spec_get_arg_types(env, st, fields, 0, Seq::empty()) {
                    Ok(types) => {
                        lemma_declaring_keeps_scope(st, name, IrType::Void, types);
                        let (st1, ty) = spec_struct_type(st, types);
                        let bound_to = IGValueV {
                            value: IrValue::Sentinel,
                            _type: ty,
                            mutable: false,
                            public: true,
                            parent: None,
                        };
                        lemma_put_keeps_names_distinct(st.scope.symbols, name, bound_to);
                        lemma_fields_keep_surroundings(st1.scope.define(name, bound_to), name, fields, 0);
                        lemma_recorded_fields_keep_names(st1.scope.define(name, bound_to), name, fields, 0);
                    },
                    Err(_) => {},
                }
            },
            _ => {},
        }
    }
}

/// The lowering of statements, one after the other, keeps the names
/// distinct.
pub proof fn lemma_items_keep_names(env: Env, st: GenV, items: Seq<StmtV>, i: nat)
    ensures
        spec_visit_items(env, st, items, i) matches Ok(after) ==> keeps_names(st, after),
    decreases items, items.len() - i, 0nat,
{
    if i < items.len() {
        lemma_statement_keeps_names(env, st, items[i as int]);
        match spec_visit(env, st, items[i as int]) {
            Ok(st1) => {
                lemma_items_keep_names(env, st1, items, i + 1);
            },
            Err(_) => {},
        }
    }
}

/// The lowering of a block keeps the names distinct.
pub proof fn lemma_block_keeps_names(env: Env, st: GenV, s: StmtV)
    ensures
        spec_visit_block(env, st, s) matches Ok(after) ==> keeps_names(st, after),
    decreases s, 0nat, 7nat,
{
    match s {
        StmtV::Block(items) => {
            lemma_items_keep_names(env, st, items, 0);
        },
        _ => {},
    }
}

/// The lowering of a loop keeps the names distinct.
pub proof fn lemma_loop_keeps_names(env: Env, st: GenV, s: StmtV)
    ensures
        spec_visit_while(env, st, s) matches Ok(after) ==> keeps_names(st, after),
    decreases s, 0nat, 4nat,
{
    match s {
        StmtV::While { condition, body } => {
            match spec_create_basic_block(st, "while_inside"@) {
                Ok((st1, inside)) => {
                    match spec_create_basic_block(st1, "while_outside"@) {
                        Ok((st2, outside)) => {
                            let st3 = st2.emit(Op::Br { dest: inside }).position(inside);
                            lemma_block_keeps_names(env, st3, *body);
                            match spec_visit_block(env, st3, *body) {
                                Ok(st4) => {
                                    lemma_conditions_keep_scope(env, st4, *condition);
                                },
                                Err(_) => {},
                            }
                        },
                        Err(_) => {},
                    }
                },
                Err(_) => {},
            }
        },
        _ => {},
    }
}

/// In the scope that the lowering of a unit ends with, no name stands
/// twice, among the bindings and among the field offsets.
pub proof fn lemma_unit_has_distinct_names(
    env: Env,
    ops: Seq<Op>,
    texts: Seq<Seq<char>>,
    output: Seq<char>,
    ast: StmtV,
)
    ensures
        spec_compile_unit(env, ops, texts, output, ast) matches Ok(sub) ==> distinct(sub.scope),
{
    lemma_block_keeps_names(env, spec_new(ops, texts, output), ast);
}

} // verus!
