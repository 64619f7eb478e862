//! The lowering of expressions only adds instructions, so what has been
//! declared stays declared.

use vstd::prelude::*;
use crate::parser::ast::{ExprV, StmtV};
use super::ir::{IrType, IrValue, Name, Op, TypeKind};
use super::lower::{
    qualified, spec_emit_arguments, spec_get_arg_values, spec_init_fields, spec_resolve_value,
    spec_return_type_of, spec_struct_initialize, spec_visit_binexpr, spec_visit_call_expr, Env, GenV,
};

verus! {

/// Whether the instructions `after` are the instructions `before` and,
/// behind them, others.
pub open spec fn extends(after: Seq<Op>, before: Seq<Op>) -> bool {
    &&& before.len() <= after.len()
    &&& forall|k: int| 0 <= k < before.len() ==> #[trigger] after[k] == before[k]
}

/// A function type that was made stays what it is when instructions are
/// added.
pub proof fn lemma_function_type_stays(before: Seq<Op>, after: Seq<Op>, t: IrType)
    requires
        extends(after, before),
        spec_return_type_of(before, t) is Some,
    ensures
        spec_return_type_of(after, t) == spec_return_type_of(before, t),
{
    match t {
        IrType::Function(id) => {
            assert(after[id as int] == before[id as int]);
        },
        _ => {},
    }
}

/// Giving arguments to the backend only adds instructions.
pub proof fn lemma_arguments_extend(st: GenV, values: Seq<IrValue>, i: nat)
    ensures
        extends(spec_emit_arguments(st, values, i).ops, st.ops),
    decreases values.len() - i,
{
    if i < values.len() {
        let st1 = st.emit(Op::Argument(values[i as int]));
        lemma_arguments_extend(st1, values, i + 1);
        assert(extends(st1.ops, st.ops));
    }
}

/// The lowering of an expression only adds instructions.
pub proof fn lemma_value_extends(env: Env, st: GenV, e: ExprV)
    ensures
        spec_resolve_value(env, st, e) matches Ok((after, _)) ==> extends(after.ops, st.ops),
    decreases e, 0nat, 3nat,
{
    match e {
        ExprV::Binary { .. } => {
            lemma_binexpr_extends(env, st, e);
        },
        ExprV::Call { .. } => {
            lemma_call_extends(env, st, e);
        },
        ExprV::StructInitialize { name, fields } => {
            lemma_struct_initialize_extends(env, st, name, fields);
        },
        ExprV::String(text) => {
            let st1 = st.intern(text);
            let st2 = st1.emit(Op::GlobalString { text: st.next_text(), name: Name::Fresh });
            assert(extends(st2.ops, st.ops));
        },
        _ => {},
    }
}

/// The lowering of a binary expression only adds instructions.
pub proof fn lemma_binexpr_extends(env: Env, st: GenV, e: ExprV)
    ensures
        spec_visit_binexpr(env, st, e) matches Ok((after, _)) ==> extends(after.ops, st.ops),
    decreases e, 0nat, 2nat,
{
    match e {
        ExprV::Binary { left, op, right } => {
            lemma_value_extends(env, st, *left);
            match spec_resolve_value(env, st, *left) {
                Ok((st1, l)) => {
                    lemma_value_extends(env, st1, *right);
                },
                Err(_) => {},
            }
        },
        _ => {},
    }
}

/// The lowering of the arguments of a call only adds instructions.
pub proof fn lemma_arg_values_extend(env: Env, st: GenV, args: Seq<ExprV>, i: nat, done: Seq<IrValue>)
    ensures
        spec_get_arg_values(env, st, args, i, done) matches Ok((after, _)) ==> extends(after.ops, st.ops),
    decreases args, args.len() - i, 0nat,
{
    if i < args.len() {
        lemma_value_extends(env, st, args[i as int]);
        match spec_resolve_value(env, st, args[i as int]) {
            Ok((st1, v)) => {
                lemma_arg_values_extend(env, st1, args, i + 1, done.push(v.value));
            },
            Err(_) => {},
        }
    }
}

/// The lowering of a call only adds instructions.
pub proof fn lemma_call_extends(env: Env, st: GenV, e: ExprV)
    ensures
        spec_visit_call_expr(env, st, e) matches Ok((after, _)) ==> extends(after.ops, st.ops),
    decreases e, 0nat, 2nat,
{
    match e {
        ExprV::Call { name, args } => {
            lemma_arg_values_extend(env, st, args, 0, Seq::empty());
            match spec_get_arg_values(env, st, args, 0, Seq::empty()) {
                Ok((st1, values)) => {
                    lemma_arguments_extend(st1, values, 0);
                },
                Err(_) => {},
            }
        },
        _ => {},
    }
}

/// The lowering of the field initialisers of a struct only adds
/// instructions.
pub proof fn lemma_init_fields_extend(
    env: Env,
    st: GenV,
    owner: Seq<char>,
    ty: IrType,
    slot: IrValue,
    fields: Seq<StmtV>,
    i: nat,
)
    ensures
        spec_init_fields(env, st, owner, ty, slot, fields, i) matches Ok(after) ==> extends(after.ops, st.ops),
    decreases fields, fields.len() - i, 0nat,
{
    if i < fields.len() {
        match fields[i as int] {
            StmtV::StructInitField { name, value } => {
                lemma_value_extends(env, st, *value);
                match spec_resolve_value(env, st, *value) {
                    Ok((st1, v)) => {
                        match st1.scope.resolve_field(qualified(owner, name)) {
                            Some(index) => {
                                let st2 = st1.emit(Op::StructGep { ty, ptr: slot, index, name: Name::Fresh });
                                let st3 = st2.emit(
                                    Op::Store { value: v.value, ptr: st1.next_value(TypeKind::Pointer) },
                                );
                                assert(extends(st3.ops, st1.ops));
                                lemma_init_fields_extend(env, st3, owner, ty, slot, fields, i + 1);
                            },
                            None => {},
                        }
                    },
                    Err(_) => {},
                }
            },
            _ => {},
        }
    }
}

/// The lowering of a struct initialiser only adds instructions.
pub proof fn lemma_struct_initialize_extends(env: Env, st: GenV, name: Seq<char>, fields: Seq<StmtV>)
    ensures
        spec_struct_initialize(env, st, name, fields) matches Ok((after, _)) ==> extends(after.ops, st.ops),
    decreases fields, fields.len() + 1, 0nat,
{
    match st.scope.resolve(name) {
        Some(t) => {
            let st1 = st.emit(Op::Alloca { ty: t._type, name: Name::Fresh });
            lemma_init_fields_extend(env, st1, name, t._type, st.next_value(TypeKind::Pointer), fields, 0);
        },
        None => {},
    }
}

} // verus!
