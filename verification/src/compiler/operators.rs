//! What the lowering of operators, of the entry point and of spliced
//! modules always does.

use vstd::prelude::*;
use crate::lexer::TokenKind;
use crate::parser::ast::{ExprV, StmtV};
use super::ir::{bool_type, i32_type, IntPredicate, IrType, IrValue, Name, Op, TypeKind};
use super::lower::{
    i32_type_of_main, is_bool_op, main_name, qualified, scalar, spec_access, spec_finish_function, spec_splice,
    spec_splice_symbol, spec_splice_symbols, spec_visit_op, CompileError, Env, GenV,
};
use super::scope::{distinct_names, Entries};
use super::value::IGValueV;

verus! {

/// A comparison or a logical operator yields a truth value; any other
/// operator yields a value of the type of its left operand.
pub proof fn lemma_type_of_operation(st: GenV, l: IGValueV, r: IGValueV, op: TokenKind)
    ensures
        spec_visit_op(st, l, r, op) matches Ok((_, v)) ==> v._type == (if is_bool_op(op) {
            bool_type()
        } else {
            l._type
        }),
{
}

/// Operands of different kinds are rejected, whatever the operator: an
/// integer and a floating-point number cannot be combined.
pub proof fn lemma_mixed_operands_are_rejected(st: GenV, l: IGValueV, r: IGValueV, op: TokenKind)
    requires
        l._type.kind() != r._type.kind(),
    ensures
        spec_visit_op(st, l, r, op) == Err::<(GenV, IGValueV), CompileError>(CompileError::UnsupportedOperands),
{
}

/// Operands that are neither integers nor single-precision
/// floating-point numbers are rejected, whatever the operator.
pub proof fn lemma_other_operands_are_rejected(st: GenV, l: IGValueV, r: IGValueV, op: TokenKind)
    requires
        l._type.kind() != TypeKind::Integer,
        l._type.kind() != TypeKind::Float,
    ensures
        spec_visit_op(st, l, r, op) == Err::<(GenV, IGValueV), CompileError>(CompileError::UnsupportedOperands),
{
}

/// The equality of two integers is an integer comparison that yields a
/// truth value.
pub proof fn lemma_integer_equality(st: GenV, l: IGValueV, r: IGValueV)
    requires
        l._type.kind() == TypeKind::Integer,
        r._type.kind() == TypeKind::Integer,
    ensures
        spec_visit_op(st, l, r, TokenKind::Equals) == Ok::<(GenV, IGValueV), CompileError>(
            (
                st.intern("op"@).emit(
                    Op::ICmp {
                        pred: IntPredicate::EQ,
                        lhs: l.value,
                        rhs: r.value,
                        name: Name::Prefixed(st.next_text()),
                    },
                ),
                scalar(st.next_value(TypeKind::Integer), bool_type()),
            ),
        ),
{
}

/// A member access addresses the slot whose offset is recorded for the
/// member.
pub proof fn lemma_access_addresses_the_recorded_slot(
    st: GenV,
    object: Seq<char>,
    member: Seq<char>,
    v: IGValueV,
    owner: Seq<char>,
    index: usize,
)
    requires
        st.scope.resolve(object) == Some(v),
        v.parent == Some(owner),
        st.scope.resolve_field(qualified(owner, member)) == Some(index),
    ensures
        spec_access(st, ExprV::Symbol(object), ExprV::Symbol(member)) == Ok::<(GenV, IGValueV), CompileError>(
            (
                st.emit(Op::StructGep { ty: v._type, ptr: v.value, index, name: Name::Fresh }),
                scalar(st.next_value(TypeKind::Pointer), v._type),
            ),
        ),
{
}

/// `main` without a return type returns a 32-bit integer. Where control
/// falls through the end of its body, the body ends with the return of
/// 0; where the body has returned already, nothing is added to it.
pub proof fn lemma_main_returns_zero(body: GenV)
    ensures
        i32_type_of_main(IrType::Void, main_name()) == i32_type(),
        !body.terminated ==> spec_finish_function(body, true, i32_type()).ops == body.ops.push(
            Op::ConstInt { ty: i32_type(), number: 0 },
        ).push(Op::Ret { value: IrValue::Inst { id: body.ops.len() as usize, kind: TypeKind::Integer } }),
        body.terminated ==> spec_finish_function(body, true, i32_type()) == body,
{
}

/// A function without a return type returns at the end of its body where
/// control falls through it, and only there.
pub proof fn lemma_function_returns_where_it_falls_through(body: GenV, ret: IrType)
    ensures
        !body.terminated && ret == IrType::Void ==> spec_finish_function(body, false, ret).ops == body.ops.push(
            Op::RetVoid,
        ),
        body.terminated || ret != IrType::Void ==> spec_finish_function(body, false, ret) == body,
{
}

/// Behind a `return`, control does not fall through: the function that
/// ends with it gets no other return.
pub proof fn lemma_return_terminates(env: Env, st: GenV, s: StmtV, implicit_main: bool, ret: IrType)
    requires
        s is Return,
    ensures
        super::lower::spec_visit_return(env, st, s) matches Ok(after) ==> after.terminated && spec_finish_function(
            after,
            implicit_main,
            ret,
        ) == after,
{
}

/// Splicing bindings in leaves the lists of libraries, of output files
/// and of object files as they are, and adds to the instructions only.
pub proof fn lemma_spliced_symbols_keep_lists(st: GenV, entries: Entries<IGValueV>, i: nat)
    ensures
        spec_splice_symbols(st, entries, i).libs == st.libs,
        spec_splice_symbols(st, entries, i).outputs == st.outputs,
        spec_splice_symbols(st, entries, i).objects == st.objects,
        spec_splice_symbols(st, entries, i).insert == st.insert,
        spec_splice_symbols(st, entries, i).terminated == st.terminated,
        spec_splice_symbols(st, entries, i).scope.fields == st.scope.fields,
        spec_splice_symbols(st, entries, i).scope.parent == st.scope.parent,
        st.ops.len() <= spec_splice_symbols(st, entries, i).ops.len(),
        forall|k: int| 0 <= k < st.ops.len() ==> spec_splice_symbols(st, entries, i).ops[k] == st.ops[k],
    decreases entries.len() - i,
{
    if i < entries.len() {
        let st1 = spec_splice_symbol(st, entries[i as int].0, entries[i as int].1);
        lemma_spliced_symbols_keep_lists(st1, entries, i + 1);
        let after = spec_splice_symbols(st, entries, i);
        assert forall|k: int| 0 <= k < st.ops.len() implies after.ops[k] == st.ops[k] by {
            assert(st1.ops[k] == st.ops[k]);
        }
    }
}

/// Behind the splicing in of a module, the libraries, the output files
/// and the object files of the including module are its own, then those
/// of the module; the builder stands where it stood.
pub proof fn lemma_splice_adds_the_lists(st: GenV, sub: GenV)
    ensures
        spec_splice(st, sub).libs == st.libs + sub.libs,
        spec_splice(st, sub).outputs == st.outputs + sub.outputs,
        spec_splice(st, sub).objects == st.objects + sub.objects,
        spec_splice(st, sub).insert == st.insert,
        spec_splice(st, sub).terminated == st.terminated,
{
    lemma_spliced_symbols_keep_lists(GenV { ops: sub.ops, texts: sub.texts, ..st }, sub.scope.symbols, 0);
}

/// Whether the scope `scope` binds `name` to a declaration of the
/// function type `ty` that was made by one of the instructions `ops`, for
/// the value `like` of another module: an immutable, private binding of
/// what an instruction yields that declares a function under the name
/// that the backend knows `like` by.
pub open spec fn declared_again(ops: Seq<Op>, scope: super::scope::ScopeV, name: Seq<char>, like: IrValue, ty: IrType) -> bool {
    scope.resolve(name) matches Some(b) && b._type == ty && !b.mutable && !b.public && b.parent is None && (
    b.value matches IrValue::Inst { id, kind } && kind == TypeKind::Pointer && id < ops.len() && ops[id as int]
        == Op::AddFunction { name: Name::OfValue(like), ty })
}

/// What splicing bindings in does to the meaning of a name, from the
/// index `i` on: a name that none of the public bindings carries means
/// what it meant; a public binding of a pointer is declared again.
proof fn lemma_spliced_symbols_from(st: GenV, entries: Entries<IGValueV>, i: nat, name: Seq<char>)
    requires
        distinct_names(entries),
        spec_splice_symbols(st, entries, i).ops.len() <= usize::MAX,
    ensures
        (forall|k: int| i <= k < entries.len() && (#[trigger] entries[k]).1.public ==> entries[k].0 != name)
            ==> spec_splice_symbols(st, entries, i).scope.resolve(name) == st.scope.resolve(name),
        forall|k: int|
            i <= k < entries.len() && (#[trigger] entries[k]).0 == name && entries[k].1.public
                && entries[k].1.value.kind() == TypeKind::Pointer ==> declared_again(
                spec_splice_symbols(st, entries, i).ops,
                spec_splice_symbols(st, entries, i).scope,
                name,
                entries[k].1.value,
                entries[k].1._type,
            ),
        forall|k: int|
            i <= k < entries.len() && (#[trigger] entries[k]).0 == name && entries[k].1.public
                && entries[k].1.value.kind() != TypeKind::Pointer ==> spec_splice_symbols(
                st,
                entries,
                i,
            ).scope.resolve(name) == Some(super::lower::spliced_binding(entries[k].1.value, entries[k].1._type)),
    decreases entries.len() - i,
{
    if i < entries.len() {
        let (n, v) = entries[i as int];
        let st1 = spec_splice_symbol(st, n, v);
        let after = spec_splice_symbols(st, entries, i);
        assert(after == spec_splice_symbols(st1, entries, i + 1));
        lemma_spliced_symbols_from(st1, entries, i + 1, name);
        lemma_spliced_symbols_keep_lists(st1, entries, i + 1);
        let id = st.next_value(TypeKind::Pointer);
        let redeclared = super::lower::spliced_binding(id, v._type);
        let taken = super::lower::spliced_binding(v.value, v._type);
        super::scope::lemma_find_put(st.scope.symbols, n, redeclared, name);
        super::scope::lemma_find_put(st.scope.symbols, n, taken, name);
        if n == name {
            // No later entry carries the name, so what this entry binds stays.
            assert forall|k: int| i + 1 <= k < entries.len() implies (#[trigger] entries[k]).0 != name by {
                assert(entries[i as int].0 == name);
            }
            assert(after.scope.resolve(name) == st1.scope.resolve(name));
            if v.public && v.value.kind() == TypeKind::Pointer {
                assert(st1.scope.resolve(name) == Some(redeclared));
                assert(st1.ops[st.ops.len() as int] == Op::AddFunction { name: Name::OfValue(v.value), ty: v._type });
                assert(st.ops.len() < st1.ops.len() <= after.ops.len());
                assert(after.ops[st.ops.len() as int] == st1.ops[st.ops.len() as int]);
                assert(declared_again(after.ops, after.scope, name, v.value, v._type));
            }
            assert forall|k: int|
                i <= k < entries.len() && (#[trigger] entries[k]).0 == name implies k == i by {
                assert(entries[i as int].0 == name);
            }
        }
    }
}

/// Behind the splicing in of a module, a public function of the module
/// is declared again in the including module, by its type alone and under
/// the name that the backend knows it by, and its name means that
/// declaration, so that it can be called.
pub proof fn lemma_public_function_is_declared_again(st: GenV, sub: GenV, k: int)
    requires
        distinct_names(sub.scope.symbols),
        spec_splice(st, sub).ops.len() <= usize::MAX,
        0 <= k < sub.scope.symbols.len(),
        sub.scope.symbols[k].1.public,
        sub.scope.symbols[k].1.value.kind() == TypeKind::Pointer,
    ensures
        declared_again(
            spec_splice(st, sub).ops,
            spec_splice(st, sub).scope,
            sub.scope.symbols[k].0,
            sub.scope.symbols[k].1.value,
            sub.scope.symbols[k].1._type,
        ),
{
    let st1 = GenV { ops: sub.ops, texts: sub.texts, ..st };
    lemma_spliced_symbols_from(st1, sub.scope.symbols, 0, sub.scope.symbols[k].0);
    let st2 = spec_splice_symbols(st1, sub.scope.symbols, 0);
    lemma_spliced_fields_keep_symbols(st2.scope, sub.scope.fields, 0);
}

/// Behind the splicing in of a module, a public binding of the module
/// that is no pointer, such as a struct type, is bound in the including
/// module under its name, to the same value and type, immutable and
/// private.
pub proof fn lemma_public_value_is_taken_over(st: GenV, sub: GenV, k: int)
    requires
        distinct_names(sub.scope.symbols),
        spec_splice(st, sub).ops.len() <= usize::MAX,
        0 <= k < sub.scope.symbols.len(),
        sub.scope.symbols[k].1.public,
        sub.scope.symbols[k].1.value.kind() != TypeKind::Pointer,
    ensures
        spec_splice(st, sub).scope.resolve(sub.scope.symbols[k].0) == Some(
            super::lower::spliced_binding(sub.scope.symbols[k].1.value, sub.scope.symbols[k].1._type),
        ),
{
    let st1 = GenV { ops: sub.ops, texts: sub.texts, ..st };
    lemma_spliced_symbols_from(st1, sub.scope.symbols, 0, sub.scope.symbols[k].0);
    let st2 = spec_splice_symbols(st1, sub.scope.symbols, 0);
    lemma_spliced_fields_keep_symbols(st2.scope, sub.scope.fields, 0);
}

/// Whether the function that `name` means in the state `st` can be called
/// on `args`: wherever the arguments are lowered, the call is lowered,
/// and it is the call of what the name means, with the type that the
/// name is bound with, on as many values as there are arguments.
pub open spec fn can_be_called(env: Env, st: GenV, name: Seq<char>, args: Seq<ExprV>) -> bool {
    let call = ExprV::Call { name, args };
    match super::lower::spec_get_arg_values(env, st, args, 0, Seq::empty()) {
        Err(e) => super::lower::spec_visit_call_expr(env, st, call) == Err::<(GenV, Option<IGValueV>), CompileError>(
            e,
        ),
        Ok((st1, values)) => {
            &&& super::lower::spec_visit_call_expr(env, st, call) matches Ok((st2, _))
            &&& st.scope.resolve(name) matches Some(f)
            &&& st2.ops.last() matches Op::Call { fn_ty, callee, count, name }
            &&& fn_ty == f._type
            &&& callee == f.value
            &&& count == values.len() as usize
        },
    }
}

/// Behind the splicing in of a module, a public function of the module
/// can be called by its name, on any arguments.
pub proof fn lemma_spliced_function_can_be_called(env: Env, st: GenV, sub: GenV, k: int, args: Seq<ExprV>)
    requires
        distinct_names(sub.scope.symbols),
        spec_splice(st, sub).ops.len() <= usize::MAX,
        0 <= k < sub.scope.symbols.len(),
        sub.scope.symbols[k].1.public,
        sub.scope.symbols[k].1.value.kind() == TypeKind::Pointer,
        super::lower::spec_return_type_of(sub.ops, sub.scope.symbols[k].1._type) is Some,
    ensures
        can_be_called(env, spec_splice(st, sub), sub.scope.symbols[k].0, args),
{
    lemma_public_function_is_declared_again(st, sub, k);
    let st0 = GenV { ops: sub.ops, texts: sub.texts, ..st };
    lemma_spliced_symbols_keep_lists(st0, sub.scope.symbols, 0);
    let after = spec_splice(st, sub);
    let ty = sub.scope.symbols[k].1._type;
    assert(super::growth::extends(after.ops, sub.ops));
    super::growth::lemma_function_type_stays(sub.ops, after.ops, ty);
    super::growth::lemma_arg_values_extend(env, after, args, 0, Seq::empty());
    match super::lower::spec_get_arg_values(env, after, args, 0, Seq::empty()) {
        Ok((st1, values)) => {
            super::growth::lemma_function_type_stays(after.ops, st1.ops, ty);
        },
        Err(_) => {},
    }
}

/// Behind the splicing in of a module, a name that no public binding of
/// the module carries means what it meant before: the private bindings of
/// the module stay out, and the other bindings of the including module
/// are as they were.
pub proof fn lemma_private_symbols_stay_out(st: GenV, sub: GenV, name: Seq<char>)
    requires
        distinct_names(sub.scope.symbols),
        spec_splice(st, sub).ops.len() <= usize::MAX,
        forall|k: int|
            0 <= k < sub.scope.symbols.len() && (#[trigger] sub.scope.symbols[k]).1.public
                ==> sub.scope.symbols[k].0 != name,
    ensures
        spec_splice(st, sub).scope.resolve(name) == st.scope.resolve(name),
{
    let st1 = GenV { ops: sub.ops, texts: sub.texts, ..st };
    lemma_spliced_symbols_from(st1, sub.scope.symbols, 0, name);
    let st2 = spec_splice_symbols(st1, sub.scope.symbols, 0);
    lemma_spliced_fields_keep_symbols(st2.scope, sub.scope.fields, 0);
}

/// Taking field offsets over leaves the bindings of values as they are.
pub proof fn lemma_spliced_fields_keep_symbols(scope: super::scope::ScopeV, entries: Entries<usize>, i: nat)
    ensures
        super::lower::spec_splice_fields(scope, entries, i).symbols == scope.symbols,
        super::lower::spec_splice_fields(scope, entries, i).parent == scope.parent,
    decreases entries.len() - i,
{
    if i < entries.len() {
        lemma_spliced_fields_keep_symbols(
            scope.define_field(entries[i as int].0, entries[i as int].1),
            entries,
            i + 1,
        );
    }
}

} // verus!
