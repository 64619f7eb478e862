//! What the lowering of expressions and declarations does to the scope.

use vstd::prelude::*;
use crate::parser::ast::{ExprV, StmtV};
use super::ir::IrValue;
use super::ir::IrType;
use super::lower::{spec_emit_call, 
    spec_emit_arguments, spec_get_arg_values, spec_init_fields, spec_resolve_value, spec_struct_initialize,
    spec_visit_binexpr, spec_visit_call_expr, spec_visit_variable_declaration, CompileError, Env, GenV,
};
use super::scope::{bound, index_of, is_first_named, lemma_find_put, ScopeV};
use super::value::IGValueV;

verus! {

/// Giving arguments to the backend leaves the scope as it is.
proof fn lemma_arguments_keep_scope(st: GenV, values: Seq<IrValue>, i: nat)
    ensures
        spec_emit_arguments(st, values, i).scope == st.scope,
    decreases values.len() - i,
{
    if i < values.len() {
        lemma_arguments_keep_scope(st.emit(super::ir::Op::Argument(values[i as int])), values, i + 1);
    }
}

/// The lowering of an expression leaves the scope as it is.
pub proof fn lemma_value_keeps_scope(env: Env, st: GenV, e: ExprV)
    ensures
        spec_resolve_value(env, st, e) matches Ok((after, _)) ==> after.scope == st.scope,
    decreases e, 0nat, 3nat,
{
    match e {
        ExprV::Binary { .. } => {
            lemma_binexpr_keeps_scope(env, st, e);
        },
        ExprV::Call { .. } => {
            lemma_call_keeps_scope(env, st, e);
        },
        ExprV::StructInitialize { name, fields } => {
            lemma_struct_initialize_keeps_scope(env, st, name, fields);
        },
        _ => {},
    }
}

/// The lowering of a binary expression leaves the scope as it is.
pub proof fn lemma_binexpr_keeps_scope(env: Env, st: GenV, e: ExprV)
    ensures
        spec_visit_binexpr(env, st, e) matches Ok((after, _)) ==> after.scope == st.scope,
    decreases e, 0nat, 2nat,
{
    match e {
        ExprV::Binary { left, op, right } => {
            lemma_value_keeps_scope(env, st, *left);
            match spec_resolve_value(env, st, *left) {
                Ok((st1, l)) => {
                    lemma_value_keeps_scope(env, st1, *right);
                },
                Err(_) => {},
            }
        },
        _ => {},
    }
}

/// The lowering of the arguments of a call leaves the scope as it is.
pub proof fn lemma_arg_values_keep_scope(env: Env, st: GenV, args: Seq<ExprV>, i: nat, done: Seq<IrValue>)
    ensures
        spec_get_arg_values(env, st, args, i, done) matches Ok((after, _)) ==> after.scope == st.scope,
    decreases args, args.len() - i, 0nat,
{
    if i < args.len() {
        lemma_value_keeps_scope(env, st, args[i as int]);
        match spec_resolve_value(env, st, args[i as int]) {
            Ok((st1, v)) => {
                lemma_arg_values_keep_scope(env, st1, args, i + 1, done.push(v.value));
            },
            Err(_) => {},
        }
    }
}

/// The lowering of a call leaves the scope as it is.
pub proof fn lemma_call_keeps_scope(env: Env, st: GenV, e: ExprV)
    ensures
        spec_visit_call_expr(env, st, e) matches Ok((after, _)) ==> after.scope == st.scope,
    decreases e, 0nat, 2nat,
{
    match e {
        ExprV::Call { name, args } => {
            lemma_arg_values_keep_scope(env, st, args, 0, Seq::empty());
            match spec_get_arg_values(env, st, args, 0, Seq::empty()) {
                Ok((st1, values)) => {
                    lemma_arguments_keep_scope(st1, values, 0);
                },
                Err(_) => {},
            }
        },
        _ => {},
    }
}

/// The lowering of the field initialisers of a struct leaves the scope
/// as it is.
pub proof fn lemma_init_fields_keep_scope(
    env: Env,
    st: GenV,
    owner: Seq<char>,
    ty: IrType,
    slot: IrValue,
    fields: Seq<StmtV>,
    i: nat,
)
    ensures
        spec_init_fields(env, st, owner, ty, slot, fields, i) matches Ok(after) ==> after.scope == st.scope,
    decreases fields, fields.len() - i, 0nat,
{
    if i < fields.len() {
        match fields[i as int] {
            StmtV::StructInitField { name, value } => {
                lemma_value_keeps_scope(env, st, *value);
                match spec_resolve_value(env, st, *value) {
                    Ok((st1, v)) => {
                        match st1.scope.resolve_field(super::lower::qualified(owner, name)) {
                            Some(index) => {
                                let st2 = st1.emit(
                                    super::ir::Op::StructGep { ty, ptr: slot, index, name: super::ir::Name::Fresh },
                                );
                                let st3 = st2.emit(
                                    super::ir::Op::Store {
                                        value: v.value,
                                        ptr: st1.next_value(super::ir::TypeKind::Pointer),
                                    },
                                );
                                lemma_init_fields_keep_scope(env, st3, owner, ty, slot, fields, i + 1);
                            },
                            None => {},
                        }
                    },
                    Err(_) => {},
                }
            },
            _ => {},
        }
    }
}

/// The lowering of a struct initialiser leaves the scope as it is.
pub proof fn lemma_struct_initialize_keeps_scope(env: Env, st: GenV, name: Seq<char>, fields: Seq<StmtV>)
    ensures
        spec_struct_initialize(env, st, name, fields) matches Ok((after, _)) ==> after.scope == st.scope,
    decreases fields, fields.len() + 1, 0nat,
{
    match st.scope.resolve(name) {
        Some(t) => {
            let st1 = st.emit(super::ir::Op::Alloca { ty: t._type, name: super::ir::Name::Fresh });
            lemma_init_fields_keep_scope(
                env,
                st1,
                name,
                t._type,
                st.next_value(super::ir::TypeKind::Pointer),
                fields,
                0,
            );
        },
        None => {},
    }
}

/// A value carries the name of a struct type if and only if a struct
/// initialiser has yielded it.
pub proof fn lemma_struct_values_come_from_initialisers(env: Env, st: GenV, e: ExprV)
    ensures
        spec_resolve_value(env, st, e) matches Ok((_, v)) ==> (v.parent is Some <==> e is StructInitialize),
{
    match e {
        ExprV::Binary { left, op, right } => {
            assert(spec_resolve_value(env, st, e) == spec_visit_binexpr(env, st, e));
        },
        ExprV::Call { .. } => {
            assert(spec_visit_call_expr(env, st, e) matches Ok((_, Some(v))) ==> v.parent is None) by {
                match e {
                    ExprV::Call { name, args } => {
                        match st.scope.resolve(name) {
                            Some(f) => {
                                match spec_get_arg_values(env, st, args, 0, Seq::empty()) {
                                    Ok((st1, values)) => {
                                        assert(spec_visit_call_expr(env, st, e) == spec_emit_call(st1, f, values));
                                    },
                                    Err(_) => {},
                                }
                            },
                            None => {},
                        }
                    },
                    _ => {},
                }
            }
        },
        _ => {},
    }
}

/// A variable whose initialiser is a struct initialiser is bound to the
/// storage that the initialiser filled, with the name of the struct
/// type: a member access on the variable addresses what was stored.
pub proof fn lemma_struct_variable_is_its_storage(env: Env, st: GenV, decl: StmtV)
    requires
        decl is VariableDeclaration,
        *decl->VariableDeclaration_value is StructInitialize,
    ensures
        spec_visit_variable_declaration(env, st, decl) matches Ok(after) ==> (spec_resolve_value(
            env,
            st,
            *decl->VariableDeclaration_value,
        ) matches Ok((_, v)) && v.parent is Some && after.scope.resolve(decl->VariableDeclaration_name) == Some(
            IGValueV { mutable: decl->VariableDeclaration_mutable, ..v },
        )),
{
    let name = decl->VariableDeclaration_name;
    lemma_struct_values_come_from_initialisers(env, st, *decl->VariableDeclaration_value);
    match spec_resolve_value(env, st, *decl->VariableDeclaration_value) {
        Ok((st1, v)) => {
            let st2 = st1.intern(name);
            let slot = st2.next_value(super::ir::TypeKind::Pointer);
            let binding = super::lower::variable_binding(v, slot, decl->VariableDeclaration_mutable);
            lemma_find_put(st1.scope.symbols, name, binding, name);
            assert(binding == IGValueV { mutable: decl->VariableDeclaration_mutable, ..v });
        },
        Err(_) => {},
    }
}

/// A variable cannot be declared twice in one scope.
pub proof fn lemma_redeclaration_fails(env: Env, st: GenV, decl: StmtV)
    requires
        decl is VariableDeclaration,
        bound(st.scope.symbols, decl->VariableDeclaration_name),
    ensures
        spec_visit_variable_declaration(env, st, decl) == Err::<GenV, CompileError>(CompileError::Redefinition),
{
}

/// A variable can be declared in an inner scope whatever the scopes
/// around it bind: where the initialiser can be lowered, the declaration
/// succeeds, the name then means the new variable, and the scope around
/// is left as it was.
pub proof fn lemma_declaration_in_inner_scope(
    env: Env,
    st: GenV,
    scope_name: Option<Seq<char>>,
    decl: StmtV,
)
    requires
        decl is VariableDeclaration,
        spec_resolve_value(
            env,
            st.with_scope(ScopeV::child(st.scope, scope_name)),
            *decl->VariableDeclaration_value,
        ) is Ok,
    ensures
        spec_visit_variable_declaration(env, st.with_scope(ScopeV::child(st.scope, scope_name)), decl) matches Ok(
            after,
        ) && after.scope.parent == Some(Box::new(st.scope)) && (after.scope.resolve(
            decl->VariableDeclaration_name,
        ) matches Some(v) && v.mutable == decl->VariableDeclaration_mutable),
{
    let inner = st.with_scope(ScopeV::child(st.scope, scope_name));
    let name = decl->VariableDeclaration_name;
    assert(!bound(inner.scope.symbols, name)) by {
        if bound(inner.scope.symbols, name) {
            let i = index_of(inner.scope.symbols, name);
            assert(is_first_named(inner.scope.symbols, i, name));
        }
    }
    lemma_value_keeps_scope(env, inner, *decl->VariableDeclaration_value);
    match spec_resolve_value(env, inner, *decl->VariableDeclaration_value) {
        Ok((st1, v)) => {
            let st2 = st1.intern(name);
            let slot = st2.next_value(super::ir::TypeKind::Pointer);
            let binding = super::lower::variable_binding(v, slot, decl->VariableDeclaration_mutable);
            lemma_find_put(st1.scope.symbols, name, binding, name);
        },
        Err(_) => {},
    }
}

} // verus!
