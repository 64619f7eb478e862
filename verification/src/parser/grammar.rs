//! The grammar, as mathematics: what each parsing function yields on a
//! stream of tokens, from a given position, under given registries.
//!
//! A result is either the value of the node together with the position of
//! the first token behind it, or the error that stops the parse.

use vstd::prelude::*;
use crate::lexer::{TokenKind, TokenV};
use super::{ParseError, ParseErrorKind};
use super::ast::{ExprV, StmtV, TypeV};
use super::pratt::{BindingPower, LedHandler, NudHandler, PrattV, StmtHandler, TypeLedHandler, TypeNudHandler};

verus! {

/// The registries that drive a parse: those of expressions and statements,
/// and those of types.
pub struct Grammar {
    pub exprs: PrattV<NudHandler, LedHandler, StmtHandler>,
    pub types: PrattV<TypeNudHandler, TypeLedHandler, StmtHandler>,
}

/// What a parsing function yields: a node and the position behind it, or an error.
pub type Parsed<T> = Result<(T, nat), ParseError>;

/// The error of kind `kind` at the token with index `pos`.
pub open spec fn fail<T>(kind: ParseErrorKind, pos: nat) -> Result<T, ParseError> {
    Err(ParseError { kind, position: pos as usize })
}

/// The token at `pos`, if the stream reaches that far.
pub open spec fn token_at(ts: Seq<TokenV>, pos: nat) -> Option<TokenV> {
    if pos < ts.len() {
        Some(ts[pos as int])
    } else {
        None
    }
}

/// Whether a token other than the end marker stands at `pos`.
pub open spec fn spec_has_tokens(ts: Seq<TokenV>, pos: nat) -> bool {
    pos < ts.len() && ts[pos as int].kind() != TokenKind::EOF
}

/// Whether a list goes on at `pos`: a token stands there, and it is neither
/// the end marker nor the token `close` that ends the list.
pub open spec fn list_goes_on(ts: Seq<TokenV>, pos: nat, close: TokenKind) -> bool {
    spec_has_tokens(ts, pos) && ts[pos as int].kind() != close
}

/// The position behind the token at `pos`, which must be of kind `kind`.
pub open spec fn spec_expect(ts: Seq<TokenV>, pos: nat, kind: TokenKind) -> Result<nat, ParseError> {
    match token_at(ts, pos) {
        None => fail(ParseErrorKind::UnexpectedEnd, pos),
        Some(t) => if t.kind() == kind {
            Ok(pos + 1)
        } else {
            fail(ParseErrorKind::Expected(kind), pos)
        },
    }
}

/// The name that the identifier at `pos` spells.
pub open spec fn identifier_at(ts: Seq<TokenV>, pos: nat) -> Result<Seq<char>, ParseError> {
    match token_at(ts, pos) {
        None => fail(ParseErrorKind::UnexpectedEnd, pos),
        Some(TokenV::Identifier(s)) => Ok(s),
        Some(_) => fail(ParseErrorKind::Expected(TokenKind::Identifier), pos),
    }
}

/// The text of the string literal at `pos`.
pub open spec fn string_at(ts: Seq<TokenV>, pos: nat) -> Result<Seq<char>, ParseError> {
    match token_at(ts, pos) {
        None => fail(ParseErrorKind::UnexpectedEnd, pos),
        Some(TokenV::String(s)) => Ok(s),
        Some(_) => fail(ParseErrorKind::Expected(TokenKind::String), pos),
    }
}

/// Whether the token at `pos` is of kind `kind`; an error where no token stands there.
pub open spec fn kind_is(ts: Seq<TokenV>, pos: nat, kind: TokenKind) -> Result<bool, ParseError> {
    match token_at(ts, pos) {
        None => fail(ParseErrorKind::UnexpectedEnd, pos),
        Some(t) => Ok(t.kind() == kind),
    }
}

/// Where a sub-parse that started at `from` and gave the position `p` has
/// stopped. A parse that succeeds reads at least one token, and none
/// behind the stream, so this is `p`; written this way, the definitions
/// below show that they terminate.
pub open spec fn behind(p: nat, from: nat, len: nat) -> nat {
    if from < p <= len {
        p
    } else {
        len
    }
}

/// Behind an item of a list that `close` ends: either `close` follows, or a
/// comma, which is passed over.
pub open spec fn spec_separator(ts: Seq<TokenV>, pos: nat, close: TokenKind) -> Result<nat, ParseError> {
    match token_at(ts, pos) {
        None => fail(ParseErrorKind::UnexpectedEnd, pos),
        Some(t) => if t.kind() == close {
            Ok(pos)
        } else {
            spec_expect(ts, pos, TokenKind::Comma)
        },
    }
}

/// The name of the receiver parameter, and of its placeholder type.
pub open spec fn this_name() -> Seq<char> {
    "this"@
}

/// The name of the return type of a function that states none.
pub open spec fn void_name() -> Seq<char> {
    "void"@
}

/// A parameter or field `name` of type `t`.
pub open spec fn field(name: Seq<char>, t: TypeV) -> StmtV {
    StmtV::Field { name, _type: t }
}

/// The registry that holds, under each kind, what `f` gives for it.
pub open spec fn registry<T>(f: spec_fn(TokenKind) -> Option<T>) -> Map<TokenKind, T> {
    Map::new(|k: TokenKind| f(k) is Some, |k: TokenKind| f(k)->0)
}

/// The binding powers of the language.
pub open spec fn language_bp(k: TokenKind) -> Option<BindingPower> {
    match k {
        TokenKind::And | TokenKind::Or | TokenKind::Range => Some(BindingPower::Logical),
        TokenKind::Less
        | TokenKind::LessOrEqual
        | TokenKind::Greater
        | TokenKind::GreaterOrEqual
        | TokenKind::Equals
        | TokenKind::NotEquals => Some(BindingPower::Relational),
        TokenKind::Plus | TokenKind::Minus => Some(BindingPower::Additive),
        TokenKind::Assignment => Some(BindingPower::Assignment),
        TokenKind::Multiply | TokenKind::Divide | TokenKind::Power | TokenKind::Mod => Some(
            BindingPower::Multiplicative,
        ),
        TokenKind::Arrow => Some(BindingPower::Primary),
        TokenKind::Dot => Some(BindingPower::Member),
        TokenKind::OpenParen | TokenKind::PlusEquals | TokenKind::MinusEquals => Some(BindingPower::Call),
        TokenKind::If
        | TokenKind::Mut
        | TokenKind::Immut
        | TokenKind::Return
        | TokenKind::LinkStatic
        | TokenKind::LinkLib
        | TokenKind::Include => Some(BindingPower::Default),
        _ => None,
    }
}

/// The infix handlers of the language.
pub open spec fn language_led(k: TokenKind) -> Option<LedHandler> {
    match k {
        TokenKind::And
        | TokenKind::Or
        | TokenKind::Range
        | TokenKind::Less
        | TokenKind::LessOrEqual
        | TokenKind::Greater
        | TokenKind::GreaterOrEqual
        | TokenKind::Equals
        | TokenKind::NotEquals
        | TokenKind::Plus
        | TokenKind::Minus
        | TokenKind::Multiply
        | TokenKind::Divide
        | TokenKind::Power
        | TokenKind::Mod => Some(LedHandler::Binary),
        TokenKind::Assignment => Some(LedHandler::Assignment),
        TokenKind::Arrow => Some(LedHandler::Arrow),
        TokenKind::Dot => Some(LedHandler::Access),
        TokenKind::OpenParen => Some(LedHandler::Call),
        TokenKind::PlusEquals | TokenKind::MinusEquals => Some(LedHandler::OpEquals),
        _ => None,
    }
}

/// The prefix handlers of the language.
pub open spec fn language_nud(k: TokenKind) -> Option<NudHandler> {
    match k {
        TokenKind::New => Some(NudHandler::StructCreate),
        TokenKind::Integer | TokenKind::Decimel | TokenKind::String | TokenKind::Identifier => Some(
            NudHandler::Primary,
        ),
        TokenKind::True | TokenKind::False => Some(NudHandler::Bool),
        TokenKind::OpenParen => Some(NudHandler::Grouped),
        TokenKind::Minus | TokenKind::Not => Some(NudHandler::Prefix),
        _ => None,
    }
}

/// The statement handlers of the language.
pub open spec fn language_stmt(k: TokenKind) -> Option<StmtHandler> {
    match k {
        TokenKind::If => Some(StmtHandler::If),
        TokenKind::Mut | TokenKind::Immut => Some(StmtHandler::VarDecl),
        TokenKind::Return => Some(StmtHandler::Return),
        TokenKind::LinkStatic => Some(StmtHandler::LinkStatic),
        TokenKind::LinkLib => Some(StmtHandler::LinkLib),
        TokenKind::Include => Some(StmtHandler::Include),
        _ => None,
    }
}

/// The prefix handlers of types of the language.
pub open spec fn language_type_nud(k: TokenKind) -> Option<TypeNudHandler> {
    match k {
        TokenKind::Identifier => Some(TypeNudHandler::Symbol),
        TokenKind::OpenBracket => Some(TypeNudHandler::Array),
        TokenKind::Reference => Some(TypeNudHandler::Ref),
        _ => None,
    }
}

/// The grammar of the language: what a new parser is set up with.
pub open spec fn language() -> Grammar {
    Grammar {
        exprs: PrattV {
            bp: registry(|k: TokenKind| language_bp(k)),
            nud: registry(|k: TokenKind| language_nud(k)),
            led: registry(|k: TokenKind| language_led(k)),
            stmt: registry(|k: TokenKind| language_stmt(k)),
        },
        types: PrattV {
            bp: Map::empty(),
            nud: registry(|k: TokenKind| language_type_nud(k)),
            led: Map::empty(),
            stmt: Map::empty(),
        },
    }
}

// ---------------------------------------------------------------------
// Expressions
// ---------------------------------------------------------------------

/// A literal or a name: one token.
pub open spec fn spec_parse_primary_expression(ts: Seq<TokenV>, pos: nat) -> Parsed<ExprV> {
    match token_at(ts, pos) {
        None => fail(ParseErrorKind::UnexpectedEnd, pos),
        Some(TokenV::Integer(v)) => Ok((ExprV::Int(v), pos + 1)),
        Some(TokenV::Decimel(v)) => Ok((ExprV::Float(v), pos + 1)),
        Some(TokenV::String(s)) => Ok((ExprV::String(s), pos + 1)),
        Some(TokenV::Identifier(s)) => Ok((ExprV::Symbol(s), pos + 1)),
        Some(_) => fail(ParseErrorKind::NotPrimary, pos),
    }
}

/// A boolean literal: one token, true if and only if it is `True`.
pub open spec fn spec_parse_bool_expression(ts: Seq<TokenV>, pos: nat) -> Parsed<ExprV> {
    match token_at(ts, pos) {
        None => fail(ParseErrorKind::UnexpectedEnd, pos),
        Some(t) => Ok((ExprV::Bool(t.kind() == TokenKind::True), pos + 1)),
    }
}

/// `left . name`
pub open spec fn spec_parse_access_expression(ts: Seq<TokenV>, pos: nat, left: ExprV) -> Parsed<ExprV> {
    if pos >= ts.len() {
        fail(ParseErrorKind::UnexpectedEnd, pos)
    } else {
        match identifier_at(ts, pos + 1) {
            Err(e) => Err(e),
            Ok(name) => Ok(
                (ExprV::Access { lhs: Box::new(left), rhs: Box::new(ExprV::Symbol(name)) }, pos + 2),
            ),
        }
    }
}

/// An expression: a prefix form, then as many infix forms as bind tighter
/// than `bp`.
pub open spec fn spec_parse_expression(g: Grammar, ts: Seq<TokenV>, pos: nat, bp: BindingPower) -> Parsed<
    ExprV,
>
    decreases ts.len() - pos, 3int,
{
    if pos >= ts.len() {
        fail(ParseErrorKind::UnexpectedEnd, pos)
    } else {
        match spec_nud(g, ts, pos) {
            Err(e) => Err(e),
            Ok((left, p)) => spec_climb(g, ts, behind(p, pos, ts.len()), left, bp),
        }
    }
}

/// The prefix form at `pos`, by the handler registered for its first token.
pub open spec fn spec_nud(g: Grammar, ts: Seq<TokenV>, pos: nat) -> Parsed<ExprV>
    decreases ts.len() - pos, 2int,
{
    match token_at(ts, pos) {
        None => fail(ParseErrorKind::UnexpectedEnd, pos),
        Some(t) => if !g.exprs.nud.dom().contains(t.kind()) {
            fail(ParseErrorKind::NoPrefixHandler, pos)
        } else {
            match g.exprs.nud[t.kind()] {
                NudHandler::Primary => spec_parse_primary_expression(ts, pos),
                NudHandler::Bool => spec_parse_bool_expression(ts, pos),
                NudHandler::Grouped => spec_parse_grouped_expression(g, ts, pos),
                NudHandler::Prefix => spec_parse_prefix_expression(g, ts, pos),
                NudHandler::StructCreate => spec_parse_struct_create_expression(g, ts, pos),
            }
        },
    }
}

/// The infix forms behind `left`: while the token at `pos` binds tighter
/// than `bp`, its handler absorbs `left`; the handler is given the same
/// threshold `bp`.
pub open spec fn spec_climb(g: Grammar, ts: Seq<TokenV>, pos: nat, left: ExprV, bp: BindingPower) -> Parsed<
    ExprV,
>
    decreases ts.len() - pos, 2int,
{
    match token_at(ts, pos) {
        None => fail(ParseErrorKind::UnexpectedEnd, pos),
        Some(t) => if !g.exprs.bp.dom().contains(t.kind()) || g.exprs.bp[t.kind()].level() <= bp.level() {
            Ok((left, pos))
        } else if !g.exprs.led.dom().contains(t.kind()) {
            fail(ParseErrorKind::NoInfixHandler, pos)
        } else {
            match spec_led(g, ts, pos, left, bp, g.exprs.led[t.kind()]) {
                Err(e) => Err(e),
                Ok((next, p)) => spec_climb(g, ts, behind(p, pos, ts.len()), next, bp),
            }
        },
    }
}

/// The infix form at `pos`, by handler.
pub open spec fn spec_led(
    g: Grammar,
    ts: Seq<TokenV>,
    pos: nat,
    left: ExprV,
    bp: BindingPower,
    handler: LedHandler,
) -> Parsed<ExprV>
    decreases ts.len() - pos, 1int,
{
    match handler {
        LedHandler::Binary => spec_parse_binary_expression(g, ts, pos, left, bp),
        LedHandler::Assignment => spec_parse_assignment_expression(g, ts, pos, left),
        LedHandler::Arrow => spec_parse_arrow_expression(g, ts, pos, left),
        LedHandler::Access => spec_parse_access_expression(ts, pos, left),
        LedHandler::Call => spec_parse_call_expression(g, ts, pos, left),
        LedHandler::OpEquals => spec_parse_op_equals_expression(g, ts, pos, left),
    }
}

/// The threshold under which the right operand of the operator `op` is
/// parsed: the binding power of the operator itself, so that an operator
/// behind the operand that binds no tighter ends the operand; the
/// threshold `bp` of the whole expression where the operator has no
/// binding power.
pub open spec fn operand_power(g: Grammar, op: TokenV, bp: BindingPower) -> BindingPower {
    if g.exprs.bp.dom().contains(op.kind()) {
        g.exprs.bp[op.kind()]
    } else {
        bp
    }
}

/// `left OP right`, the right operand parsed under the binding power of
/// `OP`.
pub open spec fn spec_parse_binary_expression(
    g: Grammar,
    ts: Seq<TokenV>,
    pos: nat,
    left: ExprV,
    bp: BindingPower,
) -> Parsed<ExprV>
    decreases ts.len() - pos, 0int,
{
    match token_at(ts, pos) {
        None => fail(ParseErrorKind::UnexpectedEnd, pos),
        Some(op) => match spec_parse_expression(g, ts, pos + 1, operand_power(g, op, bp)) {
            Err(e) => Err(e),
            Ok((right, p)) => Ok((ExprV::Binary { left: Box::new(left), op, right: Box::new(right) }, p)),
        },
    }
}

/// `( expression )`: the expression itself.
pub open spec fn spec_parse_grouped_expression(g: Grammar, ts: Seq<TokenV>, pos: nat) -> Parsed<ExprV>
    decreases ts.len() - pos, 0int,
{
    if pos >= ts.len() {
        fail(ParseErrorKind::UnexpectedEnd, pos)
    } else {
        match spec_parse_expression(g, ts, pos + 1, BindingPower::Default) {
            Err(e) => Err(e),
            Ok((inner, p)) => match spec_expect(ts, p, TokenKind::CloseParen) {
                Err(e) => Err(e),
                Ok(p1) => Ok((inner, p1)),
            },
        }
    }
}

/// `left = right`
pub open spec fn spec_parse_assignment_expression(g: Grammar, ts: Seq<TokenV>, pos: nat, left: ExprV) -> Parsed<
    ExprV,
>
    decreases ts.len() - pos, 0int,
{
    if pos >= ts.len() {
        fail(ParseErrorKind::UnexpectedEnd, pos)
    } else {
        match spec_parse_expression(g, ts, pos + 1, BindingPower::Default) {
            Err(e) => Err(e),
            Ok((right, p)) => Ok((ExprV::Assignment { assignee: Box::new(left), right: Box::new(right) }, p)),
        }
    }
}

/// `OP operand`, the operand being one prefix form.
pub open spec fn spec_parse_prefix_expression(g: Grammar, ts: Seq<TokenV>, pos: nat) -> Parsed<ExprV>
    decreases ts.len() - pos, 0int,
{
    match token_at(ts, pos) {
        None => fail(ParseErrorKind::UnexpectedEnd, pos),
        Some(op) => match spec_nud(g, ts, pos + 1) {
            Err(e) => Err(e),
            Ok((right, p)) => Ok((ExprV::Prefix { op, right: Box::new(right) }, p)),
        },
    }
}

/// `name -> sub ...`, `name -> struct ...` or `name -> extern ...`: a
/// declaration, handed on inside an expression.
pub open spec fn spec_parse_arrow_expression(g: Grammar, ts: Seq<TokenV>, pos: nat, left: ExprV) -> Parsed<
    ExprV,
>
    decreases ts.len() - pos, 0int,
{
    match left {
        ExprV::Symbol(name) => match spec_expect(ts, pos, TokenKind::Arrow) {
            Err(e) => Err(e),
            Ok(p) => match token_at(ts, p) {
                None => fail(ParseErrorKind::UnexpectedEnd, p),
                Some(t) => {
                    let declared = if t.kind() == TokenKind::Subroutine {
                        spec_parse_function_declaration(g, ts, p + 1, name)
                    } else if t.kind() == TokenKind::Struct {
                        spec_parse_struct_declaration(g, ts, p + 1, name)
                    } else if t.kind() == TokenKind::Extern {
                        spec_parse_extern(g, ts, p + 1, name)
                    } else {
                        fail(ParseErrorKind::ExpectedDeclaration, p)
                    };
                    match declared {
                        Err(e) => Err(e),
                        Ok((s, p1)) => Ok((ExprV::StmtHack(Box::new(s)), p1)),
                    }
                },
            },
        },
        _ => fail(ParseErrorKind::ArrowTargetNotSymbol, pos),
    }
}

/// `callee ( argument , ... )`
pub open spec fn spec_parse_call_expression(g: Grammar, ts: Seq<TokenV>, pos: nat, left: ExprV) -> Parsed<
    ExprV,
>
    decreases ts.len() - pos, 0int,
{
    match left {
        ExprV::Symbol(callee) => if pos >= ts.len() {
            fail(ParseErrorKind::UnexpectedEnd, pos)
        } else {
            match spec_arguments(g, ts, pos + 1, Seq::empty()) {
                Err(e) => Err(e),
                Ok((args, p)) => match spec_expect(ts, p, TokenKind::CloseParen) {
                    Err(e) => Err(e),
                    Ok(p1) => Ok((ExprV::Call { name: callee, args }, p1)),
                },
            }
        },
        _ => fail(ParseErrorKind::CalleeNotSymbol, pos),
    }
}

/// The arguments of a call from `pos` on, behind those in `done`.
pub open spec fn spec_arguments(g: Grammar, ts: Seq<TokenV>, pos: nat, done: Seq<ExprV>) -> Parsed<Seq<ExprV>>
    decreases ts.len() - pos, 4int,
{
    if list_goes_on(ts, pos, TokenKind::CloseParen) {
        match spec_parse_expression(g, ts, pos, BindingPower::Default) {
            Err(e) => Err(e),
            Ok((arg, p)) => match spec_separator(ts, behind(p, pos, ts.len()), TokenKind::CloseParen) {
                Err(e) => Err(e),
                Ok(p1) => spec_arguments(g, ts, p1, done.push(arg)),
            },
        }
    } else {
        Ok((done, pos))
    }
}

/// `assignee += right` or `assignee -= right`: the assignment of
/// `assignee + right`, or `assignee - right`, to `assignee`.
pub open spec fn spec_parse_op_equals_expression(g: Grammar, ts: Seq<TokenV>, pos: nat, left: ExprV) -> Parsed<
    ExprV,
>
    decreases ts.len() - pos, 0int,
{
    match left {
        ExprV::Symbol(_) => match token_at(ts, pos) {
            None => fail(ParseErrorKind::UnexpectedEnd, pos),
            Some(t) => if t.kind() != TokenKind::PlusEquals && t.kind() != TokenKind::MinusEquals {
                fail(ParseErrorKind::InvalidOpAssign, pos)
            } else {
                let op = if t.kind() == TokenKind::PlusEquals {
                    TokenKind::Plus
                } else {
                    TokenKind::Minus
                };
                match spec_parse_expression(g, ts, pos + 1, BindingPower::Default) {
                    Err(e) => Err(e),
                    Ok((right, p)) => Ok(
                        (
                            ExprV::Assignment {
                                assignee: Box::new(left),
                                right: Box::new(
                                    ExprV::Binary {
                                        left: Box::new(left),
                                        op: TokenV::Fixed(op),
                                        right: Box::new(right),
                                    },
                                ),
                            },
                            p,
                        ),
                    ),
                }
            },
        },
        _ => fail(ParseErrorKind::OpAssignTargetNotSymbol, pos),
    }
}

/// `new Name { field : value , ... }`
pub open spec fn spec_parse_struct_create_expression(g: Grammar, ts: Seq<TokenV>, pos: nat) -> Parsed<ExprV>
    decreases ts.len() - pos, 0int,
{
    if pos >= ts.len() {
        fail(ParseErrorKind::UnexpectedEnd, pos)
    } else {
        match identifier_at(ts, pos + 1) {
            Err(e) => Err(e),
            Ok(name) => match spec_expect(ts, pos + 2, TokenKind::OpenCurly) {
                Err(e) => Err(e),
                Ok(p) => match spec_init_fields(g, ts, p, Seq::empty()) {
                    Err(e) => Err(e),
                    Ok((fields, p1)) => match spec_expect(ts, p1, TokenKind::CloseCurly) {
                        Err(e) => Err(e),
                        Ok(p2) => Ok((ExprV::StructInitialize { name, fields }, p2)),
                    },
                },
            },
        }
    }
}

/// The field initialisers of a struct from `pos` on, behind those in `done`.
pub open spec fn spec_init_fields(g: Grammar, ts: Seq<TokenV>, pos: nat, done: Seq<StmtV>) -> Parsed<Seq<StmtV>>
    decreases ts.len() - pos, 4int,
{
    if list_goes_on(ts, pos, TokenKind::CloseCurly) {
        match identifier_at(ts, pos) {
            Err(e) => Err(e),
            Ok(name) => match spec_expect(ts, pos + 1, TokenKind::Colon) {
                Err(e) => Err(e),
                Ok(p) => match spec_parse_expression(g, ts, p, BindingPower::Default) {
                    Err(e) => Err(e),
                    Ok((value, p1)) => match spec_separator(
                        ts,
                        behind(p1, pos, ts.len()),
                        TokenKind::CloseCurly,
                    ) {
                        Err(e) => Err(e),
                        Ok(p2) => spec_init_fields(
                            g,
                            ts,
                            p2,
                            done.push(StmtV::StructInitField { name, value: Box::new(value) }),
                        ),
                    },
                },
            },
        }
    } else {
        Ok((done, pos))
    }
}

// ---------------------------------------------------------------------
// Types
// ---------------------------------------------------------------------

/// A type: a prefix form. Types have no infix forms, so a token behind it
/// that binds tighter than `bp` in the registry of types stops the parse.
pub open spec fn spec_parse_type(g: Grammar, ts: Seq<TokenV>, pos: nat, bp: BindingPower) -> Parsed<TypeV>
    decreases ts.len() - pos, 3int,
{
    match token_at(ts, pos) {
        None => fail(ParseErrorKind::UnexpectedEnd, pos),
        Some(t) => if !g.types.nud.dom().contains(t.kind()) {
            fail(ParseErrorKind::NoTypePrefixHandler, pos)
        } else {
            let first = match g.types.nud[t.kind()] {
                TypeNudHandler::Symbol => spec_parse_symbol_type(ts, pos),
                TypeNudHandler::Array => spec_parse_array_type(g, ts, pos),
                TypeNudHandler::Ref => spec_parse_ref_type(g, ts, pos),
            };
            match first {
                Err(e) => Err(e),
                Ok((left, p)) => match token_at(ts, p) {
                    None => fail(ParseErrorKind::UnexpectedEnd, p),
                    Some(t1) => if !g.types.bp.dom().contains(t1.kind()) || g.types.bp[t1.kind()].level()
                        <= bp.level() {
                        Ok((left, p))
                    } else {
                        fail(ParseErrorKind::NoTypeInfixHandler, p)
                    },
                },
            }
        },
    }
}

/// A named type: one identifier.
pub open spec fn spec_parse_symbol_type(ts: Seq<TokenV>, pos: nat) -> Parsed<TypeV> {
    match identifier_at(ts, pos) {
        Err(e) => Err(e),
        Ok(name) => Ok((TypeV::Symbol(name), pos + 1)),
    }
}

/// `[ ] type`
pub open spec fn spec_parse_array_type(g: Grammar, ts: Seq<TokenV>, pos: nat) -> Parsed<TypeV>
    decreases ts.len() - pos, 0int,
{
    if pos >= ts.len() {
        fail(ParseErrorKind::UnexpectedEnd, pos)
    } else {
        match spec_expect(ts, pos + 1, TokenKind::CloseBracket) {
            Err(e) => Err(e),
            Ok(p) => match spec_parse_type(g, ts, p, BindingPower::Default) {
                Err(e) => Err(e),
                Ok((inner, p1)) => Ok((TypeV::Array(Box::new(inner)), p1)),
            },
        }
    }
}

/// `ref type`
pub open spec fn spec_parse_ref_type(g: Grammar, ts: Seq<TokenV>, pos: nat) -> Parsed<TypeV>
    decreases ts.len() - pos, 0int,
{
    if pos >= ts.len() {
        fail(ParseErrorKind::UnexpectedEnd, pos)
    } else {
        match spec_parse_type(g, ts, pos + 1, BindingPower::Default) {
            Err(e) => Err(e),
            Ok((inner, p)) => Ok((TypeV::Ref(Box::new(inner)), p)),
        }
    }
}

/// `: type` behind the name of a parameter or field.
pub open spec fn spec_annotation(g: Grammar, ts: Seq<TokenV>, pos: nat) -> Parsed<TypeV>
    decreases ts.len() - pos, 4int,
{
    match spec_expect(ts, pos, TokenKind::Colon) {
        Err(e) => Err(e),
        Ok(p) => spec_parse_type(g, ts, p, BindingPower::Default),
    }
}

/// The return type that a declaration states at `pos`: a type where an
/// identifier stands there, `void` otherwise.
pub open spec fn spec_return_type(g: Grammar, ts: Seq<TokenV>, pos: nat) -> Parsed<TypeV>
    decreases ts.len() - pos, 4int,
{
    match token_at(ts, pos) {
        None => fail(ParseErrorKind::UnexpectedEnd, pos),
        Some(t) => if t.kind() == TokenKind::Identifier {
            spec_parse_type(g, ts, pos, BindingPower::Default)
        } else {
            Ok((TypeV::Symbol(void_name()), pos))
        },
    }
}

// ---------------------------------------------------------------------
// Statements
// ---------------------------------------------------------------------

/// A statement: by the handler registered for its first token if there is
/// one; else an expression, which either carries a declaration or is
/// followed by a semicolon.
pub open spec fn spec_parse_stmt(g: Grammar, ts: Seq<TokenV>, pos: nat) -> Parsed<StmtV>
    decreases ts.len() - pos, 4int,
{
    match token_at(ts, pos) {
        None => fail(ParseErrorKind::UnexpectedEnd, pos),
        Some(t) => if g.exprs.stmt.dom().contains(t.kind()) {
            match g.exprs.stmt[t.kind()] {
                StmtHandler::If => spec_parse_if(g, ts, pos),
                StmtHandler::VarDecl => spec_parse_var_decl(g, ts, pos),
                StmtHandler::Return => spec_parse_return(g, ts, pos),
                StmtHandler::LinkStatic => spec_parse_link_static(ts, pos),
                StmtHandler::LinkLib => spec_parse_link_lib(ts, pos),
                StmtHandler::Include => spec_parse_include(ts, pos),
            }
        } else {
            match spec_parse_expression(g, ts, pos, BindingPower::Default) {
                Err(e) => Err(e),
                Ok((ExprV::StmtHack(s), p)) => Ok((*s, p)),
                Ok((e, p)) => match spec_expect(ts, p, TokenKind::Semicolon) {
                    Err(e) => Err(e),
                    Ok(p1) => Ok((StmtV::Expression(Box::new(e)), p1)),
                },
            }
        },
    }
}

/// The statements from `pos` up to a closing brace, behind those in `done`.
pub open spec fn spec_block_items(g: Grammar, ts: Seq<TokenV>, pos: nat, done: Seq<StmtV>) -> Parsed<Seq<StmtV>>
    decreases ts.len() - pos, 5int,
{
    if list_goes_on(ts, pos, TokenKind::CloseCurly) {
        match spec_parse_stmt(g, ts, pos) {
            Err(e) => Err(e),
            Ok((s, p)) => spec_block_items(g, ts, behind(p, pos, ts.len()), done.push(s)),
        }
    } else {
        Ok((done, pos))
    }
}

/// `{ statement ... }`, as a block.
pub open spec fn spec_braced_block(g: Grammar, ts: Seq<TokenV>, pos: nat) -> Parsed<StmtV>
    decreases ts.len() - pos, 6int,
{
    match spec_expect(ts, pos, TokenKind::OpenCurly) {
        Err(e) => Err(e),
        Ok(p) => match spec_block_items(g, ts, p, Seq::empty()) {
            Err(e) => Err(e),
            Ok((items, p1)) => match spec_expect(ts, p1, TokenKind::CloseCurly) {
                Err(e) => Err(e),
                Ok(p2) => Ok((StmtV::Block(items), p2)),
            },
        },
    }
}

/// What stands behind `else`: another `if`, or a block.
pub open spec fn spec_else_branch(g: Grammar, ts: Seq<TokenV>, pos: nat) -> Parsed<StmtV>
    decreases ts.len() - pos, 7int,
{
    match kind_is(ts, pos, TokenKind::If) {
        Err(e) => Err(e),
        Ok(true) => spec_parse_if(g, ts, pos),
        Ok(false) => spec_braced_block(g, ts, pos),
    }
}

/// What follows the body of an `if`: nothing, or `else` and its branch.
pub open spec fn spec_else(g: Grammar, ts: Seq<TokenV>, pos: nat) -> Parsed<Option<Box<StmtV>>>
    decreases ts.len() - pos, 8int,
{
    match kind_is(ts, pos, TokenKind::Else) {
        Err(e) => Err(e),
        Ok(false) => Ok((None, pos)),
        Ok(true) => match spec_else_branch(g, ts, pos + 1) {
            Err(e) => Err(e),
            Ok((other, p)) => Ok((Some(Box::new(other)), p)),
        },
    }
}

/// `if condition { ... }`, then nothing, `else if ...` or `else { ... }`.
pub open spec fn spec_parse_if(g: Grammar, ts: Seq<TokenV>, pos: nat) -> Parsed<StmtV>
    decreases ts.len() - pos, 0int,
{
    if pos >= ts.len() {
        fail(ParseErrorKind::UnexpectedEnd, pos)
    } else {
        match spec_parse_expression(g, ts, pos + 1, BindingPower::Default) {
            Err(e) => Err(e),
            Ok((condition, p)) => match spec_braced_block(g, ts, behind(p, pos, ts.len())) {
                Err(e) => Err(e),
                Ok((body, p1)) => match spec_else(g, ts, behind(p1, pos, ts.len())) {
                    Err(e) => Err(e),
                    Ok((_else, p2)) => Ok(
                        (StmtV::If { condition: Box::new(condition), body: Box::new(body), _else }, p2),
                    ),
                },
            },
        }
    }
}

/// `( parameter , ... )`: the parameters of a function.
pub open spec fn spec_parameter_list(g: Grammar, ts: Seq<TokenV>, pos: nat) -> Parsed<Seq<StmtV>>
    decreases ts.len() - pos, 7int,
{
    match spec_expect(ts, pos, TokenKind::OpenParen) {
        Err(e) => Err(e),
        Ok(p) => match spec_parameters(g, ts, p, Seq::empty()) {
            Err(e) => Err(e),
            Ok((arguments, p1)) => match spec_expect(ts, p1, TokenKind::CloseParen) {
                Err(e) => Err(e),
                Ok(p2) => Ok((arguments, p2)),
            },
        },
    }
}

/// `name -> sub ( parameter , ... ) type { ... }`, from the opening
/// parenthesis on. Without a type the function returns `void`.
pub open spec fn spec_parse_function_declaration(g: Grammar, ts: Seq<TokenV>, pos: nat, name: Seq<char>) -> Parsed<
    StmtV,
>
    decreases ts.len() - pos, 8int,
{
    match spec_parameter_list(g, ts, pos) {
        Err(e) => Err(e),
        Ok((arguments, p)) => match spec_return_type(g, ts, behind(p, pos, ts.len())) {
            Err(e) => Err(e),
            Ok((return_type, p1)) => match spec_braced_block(g, ts, behind(p1, pos, ts.len())) {
                Err(e) => Err(e),
                Ok((body, p2)) => Ok(
                    (StmtV::FunctionDeclaration { name, return_type, arguments, body: Box::new(body) }, p2),
                ),
            },
        },
    }
}

/// One parameter of a function: `this`, `ref this` or `name : type`.
pub open spec fn spec_parameter(g: Grammar, ts: Seq<TokenV>, pos: nat) -> Parsed<StmtV>
    decreases ts.len() - pos, 5int,
{
    match token_at(ts, pos) {
        None => fail(ParseErrorKind::UnexpectedEnd, pos),
        Some(TokenV::Fixed(TokenKind::Reference)) => match identifier_at(ts, pos + 1) {
            Err(e) => Err(e),
            Ok(name) => if name == this_name() {
                Ok((field(this_name(), TypeV::Ref(Box::new(TypeV::Symbol(this_name())))), pos + 2))
            } else {
                fail(ParseErrorKind::ReceiverNotThis, pos + 1)
            },
        },
        Some(TokenV::Identifier(name)) => if name == this_name() {
            Ok((field(this_name(), TypeV::Symbol(this_name())), pos + 1))
        } else {
            match spec_annotation(g, ts, pos + 1) {
                Err(e) => Err(e),
                Ok((t, p)) => Ok((field(name, t), p)),
            }
        },
        Some(_) => fail(ParseErrorKind::ExpectedParameter, pos),
    }
}

/// The parameters of a function from `pos` on, behind those in `done`.
pub open spec fn spec_parameters(g: Grammar, ts: Seq<TokenV>, pos: nat, done: Seq<StmtV>) -> Parsed<Seq<StmtV>>
    decreases ts.len() - pos, 6int,
{
    if list_goes_on(ts, pos, TokenKind::CloseParen) {
        match spec_parameter(g, ts, pos) {
            Err(e) => Err(e),
            Ok((param, p)) => match spec_separator(ts, behind(p, pos, ts.len()), TokenKind::CloseParen) {
                Err(e) => Err(e),
                Ok(p1) => spec_parameters(g, ts, p1, done.push(param)),
            },
        }
    } else {
        Ok((done, pos))
    }
}

/// A member of a struct: a field or a method.
pub enum MemberV {
    Field(StmtV),
    Method(StmtV),
}

/// One member of a struct: a method, `name -> sub ...`, or a field,
/// `name : type`, with the comma behind it unless the brace follows.
pub open spec fn spec_member(g: Grammar, ts: Seq<TokenV>, pos: nat) -> Parsed<MemberV>
    decreases ts.len() - pos, 9int,
{
    match identifier_at(ts, pos) {
        Err(e) => Err(e),
        Ok(member) => match kind_is(ts, pos + 1, TokenKind::Arrow) {
            Err(e) => Err(e),
            Ok(true) => match spec_expect(ts, pos + 2, TokenKind::Subroutine) {
                Err(e) => Err(e),
                Ok(p) => match spec_parse_function_declaration(g, ts, p, member) {
                    Err(e) => Err(e),
                    Ok((f, p1)) => Ok((MemberV::Method(f), p1)),
                },
            },
            Ok(false) => match spec_annotation(g, ts, pos + 1) {
                Err(e) => Err(e),
                Ok((t, p)) => match spec_separator(ts, behind(p, pos, ts.len()), TokenKind::CloseCurly) {
                    Err(e) => Err(e),
                    Ok(p1) => Ok((MemberV::Field(field(member, t)), p1)),
                },
            },
        },
    }
}

/// The members of a struct: its fields and its methods, each in the order
/// of the source.
pub struct MembersV {
    pub fields: Seq<StmtV>,
    pub functions: Seq<StmtV>,
}

impl MembersV {
    /// The members with `m` behind them.
    pub open spec fn with(self, m: MemberV) -> MembersV {
        match m {
            MemberV::Field(f) => MembersV { fields: self.fields.push(f), functions: self.functions },
            MemberV::Method(f) => MembersV { fields: self.fields, functions: self.functions.push(f) },
        }
    }
}

/// The members of a struct from `pos` on, behind those in `done`.
pub open spec fn spec_members(g: Grammar, ts: Seq<TokenV>, pos: nat, done: MembersV) -> Parsed<MembersV>
    decreases ts.len() - pos, 10int,
{
    if list_goes_on(ts, pos, TokenKind::CloseCurly) {
        match spec_member(g, ts, pos) {
            Err(e) => Err(e),
            Ok((m, p)) => spec_members(g, ts, behind(p, pos, ts.len()), done.with(m)),
        }
    } else {
        Ok((done, pos))
    }
}

/// `name -> struct { member ... }`, from the opening brace on.
pub open spec fn spec_parse_struct_declaration(g: Grammar, ts: Seq<TokenV>, pos: nat, name: Seq<char>) -> Parsed<
    StmtV,
>
    decreases ts.len() - pos, 11int,
{
    match spec_expect(ts, pos, TokenKind::OpenCurly) {
        Err(e) => Err(e),
        Ok(p) => match spec_members(g, ts, p, MembersV { fields: Seq::empty(), functions: Seq::empty() }) {
            Err(e) => Err(e),
            Ok((members, p1)) => match spec_expect(ts, p1, TokenKind::CloseCurly) {
                Err(e) => Err(e),
                Ok(p2) => Ok(
                    (
                        StmtV::StructDeclaration { name, fields: members.fields, functions: members.functions },
                        p2,
                    ),
                ),
            },
        },
    }
}

/// `= value ;`: the initialiser of a variable.
pub open spec fn spec_initializer(g: Grammar, ts: Seq<TokenV>, pos: nat) -> Parsed<ExprV>
    decreases ts.len() - pos, 4int,
{
    match spec_expect(ts, pos, TokenKind::Assignment) {
        Err(e) => Err(e),
        Ok(p) => match spec_parse_expression(g, ts, p, BindingPower::Default) {
            Err(e) => Err(e),
            Ok((value, p1)) => match spec_expect(ts, p1, TokenKind::Semicolon) {
                Err(e) => Err(e),
                Ok(p2) => Ok((value, p2)),
            },
        },
    }
}

/// `mut name = value ;` or `immut name = value ;`, with `: type` behind
/// the name where the type is stated.
pub open spec fn spec_parse_var_decl(g: Grammar, ts: Seq<TokenV>, pos: nat) -> Parsed<StmtV>
    decreases ts.len() - pos, 0int,
{
    match token_at(ts, pos) {
        None => fail(ParseErrorKind::UnexpectedEnd, pos),
        Some(t) => match identifier_at(ts, pos + 1) {
            Err(e) => Err(e),
            Ok(name) => match spec_stated_type(g, ts, pos + 2) {
                Err(e) => Err(e),
                Ok((explicit_type, p)) => match spec_initializer(g, ts, behind(p, pos, ts.len())) {
                    Err(e) => Err(e),
                    Ok((value, p1)) => Ok(
                        (
                            StmtV::VariableDeclaration {
                                name,
                                mutable: t.kind() == TokenKind::Mut,
                                explicit_type,
                                value: Box::new(value),
                            },
                            p1,
                        ),
                    ),
                },
            },
        },
    }
}

/// The symbol that an external function is linked under: the name behind
/// `[` where the declaration goes on with one, the declared name otherwise.
pub open spec fn spec_linked_symbol(ts: Seq<TokenV>, pos: nat, name: Seq<char>) -> Parsed<Seq<char>> {
    match kind_is(ts, pos, TokenKind::OpenBracket) {
        Err(e) => Err(e),
        Ok(true) => match identifier_at(ts, pos + 1) {
            Err(e) => Err(e),
            Ok(s) => Ok((s, pos + 2)),
        },
        Ok(false) => Ok((name, pos)),
    }
}

/// The type that the declaration of a variable states at `pos`: the type
/// behind a colon, or none where no colon stands there.
pub open spec fn spec_stated_type(g: Grammar, ts: Seq<TokenV>, pos: nat) -> Parsed<Option<TypeV>>
    decreases ts.len() - pos, 4int,
{
    match kind_is(ts, pos, TokenKind::Colon) {
        Err(e) => Err(e),
        Ok(true) => match spec_parse_type(g, ts, pos + 1, BindingPower::Default) {
            Err(e) => Err(e),
            Ok((ty, p)) => Ok((Some(ty), p)),
        },
        Ok(false) => Ok((None, pos)),
    }
}

/// `( parameter , ... )`: the parameters of an external function.
pub open spec fn spec_extern_parameter_list(g: Grammar, ts: Seq<TokenV>, pos: nat) -> Parsed<Seq<StmtV>>
    decreases ts.len() - pos, 7int,
{
    match spec_expect(ts, pos, TokenKind::OpenParen) {
        Err(e) => Err(e),
        Ok(p) => match spec_extern_parameters(g, ts, p, Seq::empty()) {
            Err(e) => Err(e),
            Ok((arguments, p1)) => match spec_expect(ts, p1, TokenKind::CloseParen) {
                Err(e) => Err(e),
                Ok(p2) => Ok((arguments, p2)),
            },
        },
    }
}

/// `name -> extern ( parameter , ... ) type ;`, from behind the keyword on.
/// `[ symbol` before the parenthesis names the linked symbol, which is
/// `name` otherwise.
pub open spec fn spec_parse_extern(g: Grammar, ts: Seq<TokenV>, pos: nat, name: Seq<char>) -> Parsed<StmtV>
    decreases ts.len() - pos, 8int,
{
    match spec_linked_symbol(ts, pos, name) {
        Err(e) => Err(e),
        Ok((symbol, p)) => match spec_extern_parameter_list(g, ts, p) {
            Err(e) => Err(e),
            Ok((arguments, p1)) => match spec_return_type(g, ts, p1) {
                Err(e) => Err(e),
                Ok((return_type, p2)) => match spec_expect(ts, p2, TokenKind::Semicolon) {
                    Err(e) => Err(e),
                    Ok(p3) => Ok((StmtV::Extern { name, symbol, return_type, arguments }, p3)),
                },
            },
        },
    }
}

/// The parameters of an external function, each `name : type`, from `pos`
/// on, behind those in `done`.
pub open spec fn spec_extern_parameters(g: Grammar, ts: Seq<TokenV>, pos: nat, done: Seq<StmtV>) -> Parsed<
    Seq<StmtV>,
>
    decreases ts.len() - pos, 6int,
{
    if list_goes_on(ts, pos, TokenKind::CloseParen) {
        match token_at(ts, pos) {
            Some(TokenV::Identifier(name)) => match spec_annotation(g, ts, pos + 1) {
                Err(e) => Err(e),
                Ok((t, p)) => match spec_separator(ts, behind(p, pos, ts.len()), TokenKind::CloseParen) {
                    Err(e) => Err(e),
                    Ok(p1) => spec_extern_parameters(g, ts, p1, done.push(field(name, t))),
                },
            },
            _ => fail(ParseErrorKind::ExpectedParameter, pos),
        }
    } else {
        Ok((done, pos))
    }
}

/// `linklib "name"`: a library to link dynamically.
pub open spec fn spec_parse_link_lib(ts: Seq<TokenV>, pos: nat) -> Parsed<StmtV> {
    if pos >= ts.len() {
        fail(ParseErrorKind::UnexpectedEnd, pos)
    } else {
        match string_at(ts, pos + 1) {
            Err(e) => Err(e),
            Ok(library) => Ok((StmtV::Link { library, _static: false }, pos + 2)),
        }
    }
}

/// `linkstatic "path"`: a library to link statically.
pub open spec fn spec_parse_link_static(ts: Seq<TokenV>, pos: nat) -> Parsed<StmtV> {
    if pos >= ts.len() {
        fail(ParseErrorKind::UnexpectedEnd, pos)
    } else {
        match string_at(ts, pos + 1) {
            Err(e) => Err(e),
            Ok(library) => Ok((StmtV::Link { library, _static: true }, pos + 2)),
        }
    }
}

/// `return value ;`
pub open spec fn spec_parse_return(g: Grammar, ts: Seq<TokenV>, pos: nat) -> Parsed<StmtV>
    decreases ts.len() - pos, 0int,
{
    if pos >= ts.len() {
        fail(ParseErrorKind::UnexpectedEnd, pos)
    } else {
        match spec_parse_expression(g, ts, pos + 1, BindingPower::Default) {
            Err(e) => Err(e),
            Ok((value, p)) => match spec_expect(ts, p, TokenKind::Semicolon) {
                Err(e) => Err(e),
                Ok(p1) => Ok((StmtV::Return { value: Box::new(value) }, p1)),
            },
        }
    }
}

/// The directive that names a source file to compile and splice in.
pub open spec fn spec_parse_include(ts: Seq<TokenV>, pos: nat) -> Parsed<StmtV> {
    if pos >= ts.len() {
        fail(ParseErrorKind::UnexpectedEnd, pos)
    } else {
        match string_at(ts, pos + 1) {
            Err(e) => Err(e),
            Ok(path) => Ok((StmtV::Include { path }, pos + 2)),
        }
    }
}

/// The statements of a program from `pos` on, behind those in `done`: up to
/// the end marker, or to the end of the stream.
pub open spec fn spec_program_items(g: Grammar, ts: Seq<TokenV>, pos: nat, done: Seq<StmtV>) -> Result<
    Seq<StmtV>,
    ParseError,
>
    decreases ts.len() - pos, 5int,
{
    if spec_has_tokens(ts, pos) {
        match spec_parse_stmt(g, ts, pos) {
            Err(e) => Err(e),
            Ok((s, p)) => spec_program_items(g, ts, behind(p, pos, ts.len()), done.push(s)),
        }
    } else {
        Ok(done)
    }
}

/// A whole program: the block of its statements.
pub open spec fn spec_parse(g: Grammar, ts: Seq<TokenV>) -> Result<StmtV, ParseError> {
    match spec_program_items(g, ts, 0, Seq::empty()) {
        Err(e) => Err(e),
        Ok(items) => Ok(StmtV::Block(items)),
    }
}

/// Parsing is a function of the tokens: two streams that hold the same
/// tokens give the same tree, or the same error.
pub proof fn lemma_parse_is_deterministic(g: Grammar, first: Seq<TokenV>, second: Seq<TokenV>)
    requires
        first.len() == second.len(),
        forall|i: int| 0 <= i < first.len() ==> first[i] == second[i],
    ensures
        spec_parse(g, first) == spec_parse(g, second),
{
    assert(first =~= second);
}

} // verus!
