//! What the lowering of statements does to the scopes around the current
//! one: nothing.

use vstd::prelude::*;
use crate::parser::ast::{ExprV, StmtV};
use super::ir::{IrType, IrValue, Name, Op, TypeKind};
use super::lower::{
    function_binding, i32_type_of_main, spec_assignee, spec_bind_parameters, spec_create_basic_block,
    spec_declare_function, spec_emit_types, spec_enter_function, spec_finish_function, spec_function_type,
    spec_get_arg_types, spec_get_type, spec_leave, spec_record_fields, spec_splice, spec_splice_fields,
    spec_splice_symbols, spec_struct_type, spec_visit, spec_visit_assignment_expr, spec_visit_block,
    spec_visit_conditional, spec_visit_expression, spec_visit_extern, spec_visit_function_declaration,
    spec_visit_include, spec_visit_items, spec_visit_prefix, spec_visit_return,
    spec_visit_struct_declaration, spec_visit_variable_declaration, spec_visit_while, Env, GenV,
};
use super::scope::{Entries, ScopeV};
use super::scoping::{lemma_binexpr_keeps_scope, lemma_call_keeps_scope, lemma_value_keeps_scope};
use super::value::IGValueV;

verus! {

/// Whether the scopes `a` and `b` stand in the same scope, under the
/// same name.
pub open spec fn same_surroundings(a: ScopeV, b: ScopeV) -> bool {
    a.parent == b.parent && a.name == b.name
}

/// Giving types to the backend leaves the scope as it is.
proof fn lemma_types_keep_scope(st: GenV, types: Seq<IrType>, i: nat)
    ensures
        spec_emit_types(st, types, i).scope == st.scope,
    decreases types.len() - i,
{
    if i < types.len() {
        lemma_types_keep_scope(st.emit(Op::TypeItem(types[i as int])), types, i + 1);
    }
}

/// Declaring a function leaves the scope as it is.
pub proof fn lemma_declaring_keeps_scope(st: GenV, symbol: Seq<char>, ret: IrType, params: Seq<IrType>)
    ensures
        spec_declare_function(st, symbol, ret, params).0.scope == st.scope,
        spec_function_type(st, ret, params).0.scope == st.scope,
        spec_struct_type(st, params).0.scope == st.scope,
{
    lemma_types_keep_scope(st, params, 0);
}

/// Binding parameters binds in the current scope only.
proof fn lemma_parameters_keep_surroundings(
    st: GenV,
    func: IrValue,
    arguments: Seq<StmtV>,
    types: Seq<IrType>,
    i: nat,
)
    ensures
        same_surroundings(spec_bind_parameters(st, func, arguments, types, i).scope, st.scope),
    decreases arguments.len() - i,
{
    if i < arguments.len() && i < types.len() {
        match arguments[i as int] {
            StmtV::Field { name, _type } => {
                let st1 = st.intern(name);
                let slot = st1.next_value(TypeKind::Pointer);
                let st2 = st1.emit(Op::Alloca { ty: types[i as int], name: Name::Prefixed(st.next_text()) });
                let st3 = st2.emit(Op::Param { function: func, index: i as usize });
                let st4 = st3.emit(Op::Store { value: st2.next_value(types[i as int].kind()), ptr: slot });
                lemma_parameters_keep_surroundings(
                    st4.with_scope(st4.scope.define(name, function_binding(slot, types[i as int]))),
                    func,
                    arguments,
                    types,
                    i + 1,
                );
            },
            _ => {},
        }
    }
}

/// Recording field offsets records in the current scope only.
pub proof fn lemma_fields_keep_surroundings(scope: ScopeV, owner: Seq<char>, fields: Seq<StmtV>, i: nat)
    ensures
        same_surroundings(spec_record_fields(scope, owner, fields, i), scope),
        spec_record_fields(scope, owner, fields, i).symbols == scope.symbols,
    decreases fields.len() - i,
{
    if i < fields.len() {
        match fields[i as int] {
            StmtV::Field { name, _type } => {
                lemma_fields_keep_surroundings(
                    scope.define_field(super::lower::qualified(owner, name), i as usize),
                    owner,
                    fields,
                    i + 1,
                );
            },
            _ => {},
        }
    }
}

/// Splicing bindings in binds in the current scope only.
proof fn lemma_spliced_symbols_keep_surroundings(st: GenV, entries: Entries<IGValueV>, i: nat)
    ensures
        same_surroundings(spec_splice_symbols(st, entries, i).scope, st.scope),
    decreases entries.len() - i,
{
    if i < entries.len() {
        lemma_spliced_symbols_keep_surroundings(
            super::lower::spec_splice_symbol(st, entries[i as int].0, entries[i as int].1),
            entries,
            i + 1,
        );
    }
}

/// Taking field offsets over records in the current scope only.
proof fn lemma_spliced_fields_keep_surroundings(scope: ScopeV, entries: Entries<usize>, i: nat)
    ensures
        same_surroundings(spec_splice_fields(scope, entries, i), scope),
    decreases entries.len() - i,
{
    if i < entries.len() {
        lemma_spliced_fields_keep_surroundings(
            scope.define_field(entries[i as int].0, entries[i as int].1),
            entries,
            i + 1,
        );
    }
}

/// Splicing a module in binds in the current scope only.
proof fn lemma_splice_keeps_surroundings(st: GenV, sub: GenV)
    ensures
        same_surroundings(spec_splice(st, sub).scope, st.scope),
{
    let st1 = GenV { ops: sub.ops, texts: sub.texts, ..st };
    lemma_spliced_symbols_keep_surroundings(st1, sub.scope.symbols, 0);
    let st2 = spec_splice_symbols(st1, sub.scope.symbols, 0);
    lemma_spliced_fields_keep_surroundings(st2.scope, sub.scope.fields, 0);
}

/// The lowering of the condition of a loop, of a prefix expression and of
/// what is assigned to leaves the scope as it is.
pub proof fn lemma_conditions_keep_scope(env: Env, st: GenV, e: ExprV)
    ensures
        spec_visit_prefix(env, st, e) matches Ok((after, _)) ==> after.scope == st.scope,
        spec_visit_conditional(env, st, e) matches Ok((after, _)) ==> after.scope == st.scope,
        spec_assignee(env, st, e) matches Ok((after, _)) ==> after.scope == st.scope,
{
    lemma_value_keeps_scope(env, st, e);
    lemma_binexpr_keeps_scope(env, st, e);
    match e {
        ExprV::Prefix { op, right } => {
            lemma_value_keeps_scope(env, st, *right);
        },
        _ => {},
    }
}

/// The lowering of an expression that stands as a statement leaves the
/// scope as it is.
pub proof fn lemma_expression_keeps_scope(env: Env, st: GenV, e: ExprV)
    ensures
        spec_visit_expression(env, st, e) matches Ok(after) ==> after.scope == st.scope,
{
    lemma_binexpr_keeps_scope(env, st, e);
    lemma_call_keeps_scope(env, st, e);
    match e {
        ExprV::Assignment { assignee, right } => {
            lemma_conditions_keep_scope(env, st, *assignee);
            match spec_assignee(env, st, *assignee) {
                Ok((st1, target)) => {
                    lemma_value_keeps_scope(env, st1, *right);
                },
                Err(_) => {},
            }
            assert(spec_visit_expression(env, st, e) == spec_visit_assignment_expr(env, st, e));
        },
        _ => {},
    }
}

/// Entering a function opens a scope inside the current one.
proof fn lemma_entering_opens_a_scope(
    st: GenV,
    name: Seq<char>,
    ret: IrType,
    arguments: Seq<StmtV>,
    types: Seq<IrType>,
)
    ensures
        spec_enter_function(st, name, ret, arguments, types).0.scope.parent == Some(Box::new(st.scope)),
        spec_enter_function(st, name, ret, arguments, types).1 == spec_declare_function(st, name, ret, types).1,
{
    lemma_declaring_keeps_scope(st, name, ret, types);
    let (st1, f) = spec_declare_function(st, name, ret, types);
    let named = st1.intern(name);
    let st2 = named.intern("ignis_entry"@);
    let block = st2.next();
    let st3 = st2.emit(Op::AppendBlock { function: f.value, name: Name::Wrapped(st1.next_text(), named.next_text()) });
    let st4 = st3.with_scope(ScopeV::child(st3.scope, Some(name))).position(block);
    lemma_parameters_keep_surroundings(st4, f.value, arguments, types, 0);
}

/// The lowering of a statement binds in the current scope only: the
/// scopes around it are left as they are.
pub proof fn lemma_statement_keeps_surroundings(env: Env, st: GenV, s: StmtV)
    ensures
        spec_visit(env, st, s) matches Ok(after) ==> same_surroundings(after.scope, st.scope),
    decreases s, 0nat, 5nat,
{
    match s {
        StmtV::Expression(e) => {
            lemma_expression_keeps_scope(env, st, *e);
        },
        StmtV::FunctionDeclaration { .. } => {
            lemma_function_leaves_its_name_only(env, st, s);
        },
        StmtV::Return { value } => {
            lemma_value_keeps_scope(env, st, *value);
            assert(spec_visit(env, st, s) == spec_visit_return(env, st, s));
        },
        StmtV::VariableDeclaration { name, mutable, explicit_type, value } => {
            lemma_value_keeps_scope(env, st, *value);
            assert(spec_visit(env, st, s) == spec_visit_variable_declaration(env, st, s));
        },
        StmtV::Extern { name, symbol, return_type, arguments } => {
            assert(spec_visit(env, st, s) == spec_visit_extern(env, st, s));
            match spec_get_arg_types(env, st, arguments, 0, Seq::empty()) {
                Ok(types) => {
                    match spec_get_type(env, st, return_type) {
                        Ok(ret) => {
                            lemma_declaring_keeps_scope(st, symbol, ret, types);
                        },
                        Err(_) => {},
                    }
                },
                Err(_) => {},
            }
        },
        StmtV::Include { path } => {
            assert(spec_visit(env, st, s) == spec_visit_include(env, st, s));
            assert forall|sub: GenV| same_surroundings(#[trigger] spec_splice(st, sub).scope, st.scope) by {
                lemma_splice_keeps_surroundings(st, sub);
            }
        },
        StmtV::While { .. } => {
            lemma_loop_keeps_surroundings(env, st, s);
        },
        StmtV::StructDeclaration { name, fields, functions } => {
            assert(spec_visit(env, st, s) == spec_visit_struct_declaration(env, st, s));
            match spec_get_arg_types(env, st, fields, 0, Seq::empty()) {
                Ok(types) => {
                    lemma_declaring_keeps_scope(st, name, IrType::Void, types);
                    let (st1, ty) = spec_struct_type(st, types);
                    let scope = st1.scope.define(
                        name,
                        IGValueV {
                            value: IrValue::Sentinel,
                            _type: ty,
                            mutable: false,
                            public: true,
                            parent: None,
                        },
                    );
                    lemma_fields_keep_surroundings(scope, name, fields, 0);
                },
                Err(_) => {},
            }
        },
        _ => {},
    }
}

/// The lowering of statements, one after the other, binds in the current
/// scope only.
pub proof fn lemma_items_keep_surroundings(env: Env, st: GenV, items: Seq<StmtV>, i: nat)
    ensures
        spec_visit_items(env, st, items, i) matches Ok(after) ==> same_surroundings(after.scope, st.scope),
    decreases items, items.len() - i, 0nat,
{
    if i < items.len() {
        lemma_statement_keeps_surroundings(env, st, items[i as int]);
        match spec_visit(env, st, items[i as int]) {
            Ok(st1) => {
                lemma_items_keep_surroundings(env, st1, items, i + 1);
            },
            Err(_) => {},
        }
    }
}

/// The lowering of a block binds in the current scope only.
pub proof fn lemma_block_keeps_surroundings(env: Env, st: GenV, s: StmtV)
    ensures
        spec_visit_block(env, st, s) matches Ok(after) ==> same_surroundings(after.scope, st.scope),
    decreases s, 0nat, 7nat,
{
    match s {
        StmtV::Block(items) => {
            lemma_items_keep_surroundings(env, st, items, 0);
        },
        _ => {},
    }
}

/// The lowering of a loop binds in the current scope only.
pub proof fn lemma_loop_keeps_surroundings(env: Env, st: GenV, s: StmtV)
    ensures
        spec_visit_while(env, st, s) matches Ok(after) ==> same_surroundings(after.scope, st.scope),
    decreases s, 0nat, 4nat,
{
    match s {
        StmtV::While { condition, body } => {
            match spec_create_basic_block(st, "while_inside"@) {
                Ok((st1, inside)) => {
                    match spec_create_basic_block(st1, "while_outside"@) {
                        Ok((st2, outside)) => {
                            let st3 = st2.emit(Op::Br { dest: inside }).position(inside);
                            lemma_block_keeps_surroundings(env, st3, *body);
                            match spec_visit_block(env, st3, *body) {
                                Ok(st4) => {
                                    lemma_conditions_keep_scope(env, st4, *condition);
                                },
                                Err(_) => {},
                            }
                        },
                        Err(_) => {},
                    }
                },
                Err(_) => {},
            }
        },
        _ => {},
    }
}

/// What the declaration of the function `s` binds the function to, in
/// the state `st`.
pub open spec fn spec_declared(env: Env, st: GenV, s: StmtV) -> IGValueV {
    let types = spec_get_arg_types(env, st, s->FunctionDeclaration_arguments, 0, Seq::empty())->Ok_0;
    let stated = spec_get_type(env, st, s->FunctionDeclaration_return_type)->Ok_0;
    spec_declare_function(
        st,
        s->FunctionDeclaration_name,
        i32_type_of_main(stated, s->FunctionDeclaration_name),
        types,
    ).1
}

/// Of all that the lowering of a function binds, its parameters and the
/// variables of its body among it, the scope that the function is
/// declared in keeps the function alone: behind the declaration the scope
/// is the scope before it with the name of the function bound.
pub proof fn lemma_function_leaves_its_name_only(env: Env, st: GenV, s: StmtV)
    ensures
        spec_visit_function_declaration(env, st, s) matches Ok(after) ==> s is FunctionDeclaration && after.scope
            == st.scope.define(s->FunctionDeclaration_name, spec_declared(env, st, s)),
    decreases s, 0nat, 4nat,
{
    match s {
        StmtV::FunctionDeclaration { name, return_type, arguments, body } => {
            match spec_get_arg_types(env, st, arguments, 0, Seq::empty()) {
                Ok(types) => {
                    match spec_get_type(env, st, return_type) {
                        Ok(stated) => {
                            let ret = i32_type_of_main(stated, name);
                            lemma_entering_opens_a_scope(st, name, ret, arguments, types);
                            let (st1, f) = spec_enter_function(st, name, ret, arguments, types);
                            lemma_block_keeps_surroundings(env, st1, *body);
                            match spec_visit_block(env, st1, *body) {
                                Ok(st2) => {
                                    let st3 = spec_finish_function(
                                        st2,
                                        stated == IrType::Void && name == super::lower::main_name(),
                                        ret,
                                    );
                                    assert(st3.scope == st2.scope);
                                    assert(st2.scope.parent == Some(Box::new(st.scope)));
                                    assert(spec_leave(st3.scope) == st.scope);
                                },
                                Err(_) => {},
                            }
                        },
                        Err(_) => {},
                    }
                },
                Err(_) => {},
            }
        },
        _ => {},
    }
}

} // verus!
