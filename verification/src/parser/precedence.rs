//! How the language groups two binary operators in a row.

use vstd::prelude::*;
use crate::lexer::TokenV;
use super::ast::ExprV;
use super::ParseError;
use super::grammar::{
    language, language_bp, language_led, spec_climb, spec_led, spec_nud, spec_parse_binary_expression,
    spec_parse_expression, spec_parse_primary_expression,
};
use super::pratt::{BindingPower, LedHandler};

verus! {

/// Whether `t` is a literal or a name.
pub open spec fn is_atom(t: TokenV) -> bool {
    t is Integer || t is Decimel || t is String || t is Identifier
}

/// The expression that the literal or name `t` stands for.
pub open spec fn atom(t: TokenV) -> ExprV {
    match t {
        TokenV::Integer(v) => ExprV::Int(v),
        TokenV::Decimel(v) => ExprV::Float(v),
        TokenV::String(s) => ExprV::String(s),
        TokenV::Identifier(s) => ExprV::Symbol(s),
        TokenV::Fixed(_) => ExprV::Bool(false),
    }
}

/// Whether `t` is a binary operator of the language.
pub open spec fn is_binary_operator(t: TokenV) -> bool {
    language_led(t.kind()) == Some(LedHandler::Binary)
}

/// The binding power of the binary operator `t`.
pub open spec fn power_of(t: TokenV) -> BindingPower {
    language_bp(t.kind())->0
}

/// Whether `t` ends an expression that is parsed at the lowest threshold:
/// it has no binding power, or the lowest.
pub open spec fn ends_expression(t: TokenV) -> bool {
    language_bp(t.kind()) is None || language_bp(t.kind()) == Some(BindingPower::Default)
}

/// `left OP right`
pub open spec fn binary(left: ExprV, op: TokenV, right: ExprV) -> ExprV {
    ExprV::Binary { left: Box::new(left), op, right: Box::new(right) }
}

/// The literal or name at `pos` parses to its atom.
proof fn lemma_atom(ts: Seq<TokenV>, pos: nat)
    requires
        pos < ts.len(),
        is_atom(ts[pos as int]),
    ensures
        spec_nud(language(), ts, pos) == Ok::<(ExprV, nat), ParseError>(
            (atom(ts[pos as int]), pos + 1),
        ),
{
    assert(spec_parse_primary_expression(ts, pos) == Ok::<(ExprV, nat), ParseError>(
        (atom(ts[pos as int]), pos + 1),
    ));
}

/// The right operand of the binary operator at `pos`, where it is the atom
/// at `pos + 1` and the token behind it binds no tighter than the
/// operator: the operand is the atom alone.
proof fn lemma_operand_ends(ts: Seq<TokenV>, pos: nat, left: ExprV, bp: BindingPower)
    requires
        pos + 2 < ts.len(),
        is_binary_operator(ts[pos as int]),
        is_atom(ts[(pos + 1) as int]),
        language_bp(ts[(pos + 2) as int].kind()) is None || power_of(ts[(pos + 2) as int]).level() <= power_of(
            ts[pos as int],
        ).level(),
    ensures
        spec_parse_binary_expression(language(), ts, pos, left, bp) == Ok::<(ExprV, nat), ParseError>(
            (binary(left, ts[pos as int], atom(ts[(pos + 1) as int])), pos + 2),
        ),
{
    let g = language();
    let own = power_of(ts[pos as int]);
    let operand = atom(ts[(pos + 1) as int]);
    lemma_atom(ts, pos + 1);
    assert(spec_climb(g, ts, pos + 2, operand, own) == Ok::<(ExprV, nat), ParseError>((operand, pos + 2)));
    assert(spec_parse_expression(g, ts, pos + 1, own) == Ok::<(ExprV, nat), ParseError>((operand, pos + 2)));
}

/// In `a OP1 b OP2 c`, where `OP2` binds tighter than `OP1`, the language
/// groups `b OP2 c` first: the tree is `a OP1 (b OP2 c)`.
pub proof fn lemma_tighter_operator_groups_first(ts: Seq<TokenV>)
    requires
        ts.len() >= 6,
        is_atom(ts[0]),
        is_binary_operator(ts[1]),
        is_atom(ts[2]),
        is_binary_operator(ts[3]),
        is_atom(ts[4]),
        ends_expression(ts[5]),
        power_of(ts[3]).level() > power_of(ts[1]).level(),
    ensures
        spec_parse_expression(language(), ts, 0, BindingPower::Default) == Ok::<(ExprV, nat), ParseError>(
            (binary(atom(ts[0]), ts[1], binary(atom(ts[2]), ts[3], atom(ts[4]))), 5),
        ),
{
    let g = language();
    let d = BindingPower::Default;
    let first = power_of(ts[1]);
    let a = atom(ts[0]);
    let b = atom(ts[2]);
    let c = atom(ts[4]);
    lemma_atom(ts, 0);
    lemma_atom(ts, 2);
    // `b OP2 c`: the operand `c` ends at the token behind it.
    let inner = binary(b, ts[3], c);
    lemma_operand_ends(ts, 3, b, first);
    assert(spec_led(g, ts, 3, b, first, LedHandler::Binary) == Ok::<(ExprV, nat), ParseError>((inner, 5)));
    assert(spec_climb(g, ts, 5, inner, first) == Ok::<(ExprV, nat), ParseError>((inner, 5)));
    assert(spec_climb(g, ts, 3, b, first) == Ok::<(ExprV, nat), ParseError>((inner, 5)));
    assert(spec_parse_expression(g, ts, 2, first) == Ok::<(ExprV, nat), ParseError>((inner, 5)));
    // `a OP1 (b OP2 c)`.
    let outer = binary(a, ts[1], inner);
    assert(spec_parse_binary_expression(g, ts, 1, a, d) == Ok::<(ExprV, nat), ParseError>((outer, 5)));
    assert(spec_led(g, ts, 1, a, d, LedHandler::Binary) == Ok::<(ExprV, nat), ParseError>((outer, 5)));
    assert(spec_climb(g, ts, 5, outer, d) == Ok::<(ExprV, nat), ParseError>((outer, 5)));
    assert(spec_climb(g, ts, 1, a, d) == Ok::<(ExprV, nat), ParseError>((outer, 5)));
}

/// In `a OP1 b OP2 c`, where `OP2` binds no tighter than `OP1`, the
/// language groups `a OP1 b` first: the tree is `(a OP1 b) OP2 c`. So
/// operators of one power group from the left.
pub proof fn lemma_first_operator_groups_first(ts: Seq<TokenV>)
    requires
        ts.len() >= 6,
        is_atom(ts[0]),
        is_binary_operator(ts[1]),
        is_atom(ts[2]),
        is_binary_operator(ts[3]),
        is_atom(ts[4]),
        ends_expression(ts[5]),
        power_of(ts[3]).level() <= power_of(ts[1]).level(),
    ensures
        spec_parse_expression(language(), ts, 0, BindingPower::Default) == Ok::<(ExprV, nat), ParseError>(
            (binary(binary(atom(ts[0]), ts[1], atom(ts[2])), ts[3], atom(ts[4])), 5),
        ),
{
    let g = language();
    let d = BindingPower::Default;
    let a = atom(ts[0]);
    let c = atom(ts[4]);
    lemma_atom(ts, 0);
    // `a OP1 b`: the operand `b` ends at `OP2`.
    let inner = binary(a, ts[1], atom(ts[2]));
    lemma_operand_ends(ts, 1, a, d);
    assert(spec_led(g, ts, 1, a, d, LedHandler::Binary) == Ok::<(ExprV, nat), ParseError>((inner, 3)));
    // `(a OP1 b) OP2 c`: the operand `c` ends at the token behind it.
    let outer = binary(inner, ts[3], c);
    lemma_operand_ends(ts, 3, inner, d);
    assert(spec_led(g, ts, 3, inner, d, LedHandler::Binary) == Ok::<(ExprV, nat), ParseError>((outer, 5)));
    assert(spec_climb(g, ts, 5, outer, d) == Ok::<(ExprV, nat), ParseError>((outer, 5)));
    assert(spec_climb(g, ts, 3, inner, d) == Ok::<(ExprV, nat), ParseError>((outer, 5)));
    assert(spec_climb(g, ts, 1, a, d) == Ok::<(ExprV, nat), ParseError>((outer, 5)));
}

} // verus!
