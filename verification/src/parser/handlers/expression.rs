//! The parsing of expressions.

use vstd::prelude::*;
use crate::lexer::{Token, TokenKind};
use crate::parser::ast::{
    exprs_view, lemma_exprs_view_push, lemma_stmts_view_push, stmts_view, Expr, ExprV, Stmt,
};
use crate::parser::grammar::{
    fail, identifier_at, spec_arguments, spec_climb, spec_init_fields, spec_led, spec_nud,
    spec_parse_access_expression, spec_parse_arrow_expression, spec_parse_assignment_expression,
    spec_parse_binary_expression, spec_parse_bool_expression, spec_parse_call_expression,
    spec_parse_expression, spec_parse_grouped_expression, spec_parse_op_equals_expression,
    spec_parse_prefix_expression, spec_parse_primary_expression, spec_parse_struct_create_expression,
    spec_separator, string_at,
};
use crate::parser::pratt::{BindingPower, LedHandler, NudHandler};
use crate::parser::{yields, ParseError, ParseErrorKind, Parser};

verus! {

/// The error of kind `kind` at the token that `parser` reads next.
pub fn error_here<T>(parser: &Parser, kind: ParseErrorKind) -> (r: Result<T, ParseError>)
    ensures
        r == fail::<T>(kind, parser.pos()),
{
    Err(ParseError { kind, position: parser.position() })
}

/// Parses an expression: a prefix form, then every infix form whose token
/// binds tighter than `bp`.
pub fn parse_expression(parser: &mut Parser, bp: BindingPower) -> (r: Result<Expr, ParseError>)
    ensures
        yields(
            old(parser),
            final(parser),
            r,
            spec_parse_expression(old(parser).grammar(), old(parser).stream(), old(parser).pos(), bp),
        ),
    decreases old(parser).stream().len() - old(parser).pos(), 3int,
{
    let ghost g = parser.grammar();
    let ghost ts = parser.stream();
    let ghost start = parser.pos();
    if parser.position() >= parser.len() {
        return error_here(parser, ParseErrorKind::UnexpectedEnd);
    }
    let mut left = match nud(parser) {
        Ok(e) => e,
        Err(e) => {
            return Err(e);
        },
    };
    loop
        invariant
            parser.grammar() == g,
            parser.stream() == ts,
            g == old(parser).grammar(),
            ts == old(parser).stream(),
            start == old(parser).pos(),
            start < parser.pos() <= ts.len(),
            spec_parse_expression(g, ts, start, bp) == spec_climb(g, ts, parser.pos(), left.deep_view(), bp),
        decreases ts.len() - parser.pos(),
    {
        if parser.position() >= parser.len() {
            return error_here(parser, ParseErrorKind::UnexpectedEnd);
        }
        let power = match parser.get_bp(parser.current()) {
            Some(p) => *p,
            None => {
                return Ok(left);
            },
        };
        if power.level() <= bp.level() {
            return Ok(left);
        }
        let handler = match parser.get_led(parser.current()) {
            Some(h) => *h,
            None => {
                return error_here(parser, ParseErrorKind::NoInfixHandler);
            },
        };
        let next = led(parser, left, bp, handler);
        left = match next {
            Ok(e) => e,
            Err(e) => {
                return Err(e);
            },
        };
    }
}

/// Parses the infix form that starts at the next token and absorbs `left`,
/// by the handler `handler`.
pub fn led(parser: &mut Parser, left: Expr, bp: BindingPower, handler: LedHandler) -> (r: Result<
    Expr,
    ParseError,
>)
    ensures
        yields(
            old(parser),
            final(parser),
            r,
            spec_led(
                old(parser).grammar(),
                old(parser).stream(),
                old(parser).pos(),
                left.deep_view(),
                bp,
                handler,
            ),
        ),
    decreases old(parser).stream().len() - old(parser).pos(), 1int,
{
    match handler {
        LedHandler::Binary => parse_binary_expression(parser, left, bp),
        LedHandler::Assignment => parse_assignment_expression(parser, left, bp),
        LedHandler::Arrow => parse_arrow_expression(parser, left, bp),
        LedHandler::Access => parse_access_expression(parser, left, bp),
        LedHandler::Call => parse_call_expression(parser, left, bp),
        LedHandler::OpEquals => parse_op_equals_expression(parser, left, bp),
    }
}

/// Parses the prefix form that starts at the next token, by the handler
/// registered for that token.
pub fn nud(parser: &mut Parser) -> (r: Result<Expr, ParseError>)
    ensures
        yields(
            old(parser),
            final(parser),
            r,
            spec_nud(old(parser).grammar(), old(parser).stream(), old(parser).pos()),
        ),
    decreases old(parser).stream().len() - old(parser).pos(), 2int,
{
    if parser.position() >= parser.len() {
        return error_here(parser, ParseErrorKind::UnexpectedEnd);
    }
    let handler = match parser.get_nud(parser.current()) {
        Some(h) => *h,
        None => {
            return error_here(parser, ParseErrorKind::NoPrefixHandler);
        },
    };
    match handler {
        NudHandler::Primary => parse_primary_expression(parser),
        NudHandler::Bool => parse_bool_expression(parser),
        NudHandler::Grouped => parse_grouped_expression(parser),
        NudHandler::Prefix => parse_prefix_expression(parser),
        NudHandler::StructCreate => parse_struct_create_expression(parser),
    }
}

/// Parses `left OP right`, from the operator on.
pub fn parse_binary_expression(parser: &mut Parser, left: Expr, bp: BindingPower) -> (r: Result<
    Expr,
    ParseError,
>)
    ensures
        yields(
            old(parser),
            final(parser),
            r,
            spec_parse_binary_expression(
                old(parser).grammar(),
                old(parser).stream(),
                old(parser).pos(),
                left.deep_view(),
                bp,
            ),
        ),
    decreases old(parser).stream().len() - old(parser).pos(), 0int,
{
    if parser.position() >= parser.len() {
        return error_here(parser, ParseErrorKind::UnexpectedEnd);
    }
    let op = parser.advance().clone();
    let power = match parser.get_bp(&op) {
        Some(p) => *p,
        None => bp,
    };
    let right = match parse_expression(parser, power) {
        Ok(e) => e,
        Err(e) => {
            return Err(e);
        },
    };
    Ok(Expr::Binary { left: Box::new(left), op, right: Box::new(right) })
}

/// Parses a literal or a name.
pub fn parse_primary_expression(parser: &mut Parser) -> (r: Result<Expr, ParseError>)
    ensures
        yields(
            old(parser),
            final(parser),
            r,
            spec_parse_primary_expression(old(parser).stream(), old(parser).pos()),
        ),
{
    if parser.position() >= parser.len() {
        return error_here(parser, ParseErrorKind::UnexpectedEnd);
    }
    let v = match parser.current() {
        Token::Integer(v) => Expr::Int(*v),
        Token::Decimel(v) => Expr::Float(*v),
        Token::String(v) => Expr::String(v.clone()),
        Token::Identifier(v) => Expr::Symbol(v.clone()),
        _ => {
            return error_here(parser, ParseErrorKind::NotPrimary);
        },
    };
    parser.advance();
    Ok(v)
}

/// Parses a boolean literal.
pub fn parse_bool_expression(parser: &mut Parser) -> (r: Result<Expr, ParseError>)
    ensures
        yields(
            old(parser),
            final(parser),
            r,
            spec_parse_bool_expression(old(parser).stream(), old(parser).pos()),
        ),
{
    if parser.position() >= parser.len() {
        return error_here(parser, ParseErrorKind::UnexpectedEnd);
    }
    let v = Expr::Bool(parser.current_is(TokenKind::True));
    parser.advance();
    Ok(v)
}

/// Parses the declaration behind `name ->`, from the arrow on.
pub fn parse_arrow_expression(parser: &mut Parser, left: Expr, _bp: BindingPower) -> (r: Result<
    Expr,
    ParseError,
>)
    ensures
        yields(
            old(parser),
            final(parser),
            r,
            spec_parse_arrow_expression(
                old(parser).grammar(),
                old(parser).stream(),
                old(parser).pos(),
                left.deep_view(),
            ),
        ),
    decreases old(parser).stream().len() - old(parser).pos(), 0int,
{
    let symbol = match left {
        Expr::Symbol(symbol) => symbol,
        _ => {
            return error_here(parser, ParseErrorKind::ArrowTargetNotSymbol);
        },
    };
    match parser.expect_kind(TokenKind::Arrow) {
        Ok(_) => {},
        Err(e) => {
            return Err(e);
        },
    }
    if parser.position() >= parser.len() {
        return error_here(parser, ParseErrorKind::UnexpectedEnd);
    }
    let kind = parser.current().kind();
    let declared = if kind == TokenKind::Subroutine {
        parser.advance();
        super::statement::parse_function_declaration(parser, symbol)
    } else if kind == TokenKind::Struct {
        parser.advance();
        super::statement::parse_struct_declaration(parser, symbol)
    } else if kind == TokenKind::Extern {
        parser.advance();
        super::statement::parse_extern(parser, symbol)
    } else {
        return error_here(parser, ParseErrorKind::ExpectedDeclaration);
    };
    match declared {
        Ok(s) => Ok(Expr::StmtHack(s)),
        Err(e) => Err(e),
    }
}

/// Parses `( expression )`.
pub fn parse_grouped_expression(parser: &mut Parser) -> (r: Result<Expr, ParseError>)
    ensures
        yields(
            old(parser),
            final(parser),
            r,
            spec_parse_grouped_expression(old(parser).grammar(), old(parser).stream(), old(parser).pos()),
        ),
    decreases old(parser).stream().len() - old(parser).pos(), 0int,
{
    if parser.position() >= parser.len() {
        return error_here(parser, ParseErrorKind::UnexpectedEnd);
    }
    parser.advance();
    let expr = match parse_expression(parser, BindingPower::Default) {
        Ok(e) => e,
        Err(e) => {
            return Err(e);
        },
    };
    match parser.expect_kind(TokenKind::CloseParen) {
        Ok(_) => Ok(expr),
        Err(e) => Err(e),
    }
}

/// Parses `left = right`, from the sign on.
pub fn parse_assignment_expression(parser: &mut Parser, left: Expr, _bp: BindingPower) -> (r: Result<
    Expr,
    ParseError,
>)
    ensures
        yields(
            old(parser),
            final(parser),
            r,
            spec_parse_assignment_expression(
                old(parser).grammar(),
                old(parser).stream(),
                old(parser).pos(),
                left.deep_view(),
            ),
        ),
    decreases old(parser).stream().len() - old(parser).pos(), 0int,
{
    if parser.position() >= parser.len() {
        return error_here(parser, ParseErrorKind::UnexpectedEnd);
    }
    parser.advance();
    match parse_expression(parser, BindingPower::Default) {
        Ok(right) => Ok(Expr::Assignment { assignee: Box::new(left), right: Box::new(right) }),
        Err(e) => Err(e),
    }
}

/// Parses `OP operand`.
pub fn parse_prefix_expression(parser: &mut Parser) -> (r: Result<Expr, ParseError>)
    ensures
        yields(
            old(parser),
            final(parser),
            r,
            spec_parse_prefix_expression(old(parser).grammar(), old(parser).stream(), old(parser).pos()),
        ),
    decreases old(parser).stream().len() - old(parser).pos(), 0int,
{
    if parser.position() >= parser.len() {
        return error_here(parser, ParseErrorKind::UnexpectedEnd);
    }
    let op = parser.advance().clone();
    match nud(parser) {
        Ok(right) => Ok(Expr::Prefix { op, right: Box::new(right) }),
        Err(e) => Err(e),
    }
}

/// Behind an item of a list: passes over a comma unless the token that
/// ends the list follows.
pub fn separator(parser: &mut Parser, close: TokenKind) -> (r: Result<(), ParseError>)
    ensures
        final(parser).same_input(old(parser)),
        match spec_separator(old(parser).stream(), old(parser).pos(), close) {
            Ok(p) => r is Ok && final(parser).pos() == p && old(parser).pos() <= p <= old(parser).stream().len(),
            Err(e) => r == Err::<(), ParseError>(e),
        },
{
    if parser.position() >= parser.len() {
        return error_here(parser, ParseErrorKind::UnexpectedEnd);
    }
    if !parser.current_is(close) {
        match parser.expect_kind(TokenKind::Comma) {
            Ok(_) => {},
            Err(e) => {
                return Err(e);
            },
        }
    }
    Ok(())
}

/// Parses the arguments of a call, up to the closing parenthesis.
pub fn arguments(parser: &mut Parser) -> (r: Result<Vec<Expr>, ParseError>)
    ensures
        final(parser).same_input(old(parser)),
        match spec_arguments(old(parser).grammar(), old(parser).stream(), old(parser).pos(), Seq::empty()) {
            Ok((items, p)) => r is Ok && exprs_view(r->Ok_0@) == items && final(parser).pos() == p && old(
                parser,
            ).pos() <= p,
            Err(e) => r == Err::<Vec<Expr>, ParseError>(e),
        },
    decreases old(parser).stream().len() - old(parser).pos(), 4int,
{
    let ghost g = parser.grammar();
    let ghost ts = parser.stream();
    let ghost start = parser.pos();
    let mut list: Vec<Expr> = Vec::new();
    while parser.list_goes_on(TokenKind::CloseParen)
        invariant
            parser.grammar() == g,
            parser.stream() == ts,
            g == old(parser).grammar(),
            ts == old(parser).stream(),
            start == old(parser).pos(),
            start <= parser.pos(),
            spec_arguments(g, ts, start, Seq::empty()) == spec_arguments(
                g,
                ts,
                parser.pos(),
                exprs_view(list@),
            ),
        decreases ts.len() - parser.pos(),
    {
        let arg = match parse_expression(parser, BindingPower::Default) {
            Ok(e) => e,
            Err(e) => {
                return Err(e);
            },
        };
        match separator(parser, TokenKind::CloseParen) {
            Ok(_) => {},
            Err(e) => {
                return Err(e);
            },
        }
        proof {
            lemma_exprs_view_push(list@, arg);
        }
        list.push(arg);
    }
    Ok(list)
}

/// Parses `callee ( argument , ... )`, from the parenthesis on.
pub fn parse_call_expression(parser: &mut Parser, left: Expr, _bp: BindingPower) -> (r: Result<
    Expr,
    ParseError,
>)
    ensures
        yields(
            old(parser),
            final(parser),
            r,
            spec_parse_call_expression(
                old(parser).grammar(),
                old(parser).stream(),
                old(parser).pos(),
                left.deep_view(),
            ),
        ),
    decreases old(parser).stream().len() - old(parser).pos(), 0int,
{
    let callee = match left {
        Expr::Symbol(callee) => callee,
        _ => {
            return error_here(parser, ParseErrorKind::CalleeNotSymbol);
        },
    };
    if parser.position() >= parser.len() {
        return error_here(parser, ParseErrorKind::UnexpectedEnd);
    }
    parser.advance();
    let args = match arguments(parser) {
        Ok(a) => a,
        Err(e) => {
            return Err(e);
        },
    };
    match parser.expect_kind(TokenKind::CloseParen) {
        Ok(_) => Ok(Expr::Call { name: callee, args }),
        Err(e) => Err(e),
    }
}

/// Parses `assignee += right` or `assignee -= right`, from the operator on.
pub fn parse_op_equals_expression(parser: &mut Parser, left: Expr, _bp: BindingPower) -> (r: Result<
    Expr,
    ParseError,
>)
    ensures
        yields(
            old(parser),
            final(parser),
            r,
            spec_parse_op_equals_expression(
                old(parser).grammar(),
                old(parser).stream(),
                old(parser).pos(),
                left.deep_view(),
            ),
        ),
    decreases old(parser).stream().len() - old(parser).pos(), 0int,
{
    let name = match left {
        Expr::Symbol(name) => name,
        _ => {
            return error_here(parser, ParseErrorKind::OpAssignTargetNotSymbol);
        },
    };
    if parser.position() >= parser.len() {
        return error_here(parser, ParseErrorKind::UnexpectedEnd);
    }
    let kind = parser.current().kind();
    let real_op = if kind == TokenKind::PlusEquals {
        Token::Plus
    } else if kind == TokenKind::MinusEquals {
        Token::Minus
    } else {
        return error_here(parser, ParseErrorKind::InvalidOpAssign);
    };
    parser.advance();
    let right = match parse_expression(parser, BindingPower::Default) {
        Ok(e) => e,
        Err(e) => {
            return Err(e);
        },
    };
    let assignee = Expr::Symbol(name.clone());
    let operand = Expr::Symbol(name);
    assert(assignee.deep_view() == left.deep_view());
    assert(operand.deep_view() == left.deep_view());
    let sum = Expr::Binary { left: Box::new(operand), op: real_op, right: Box::new(right) };
    assert(sum.deep_view() == ExprV::Binary {
        left: Box::new(left.deep_view()),
        op: real_op.deep_view(),
        right: Box::new(right.deep_view()),
    });
    Ok(Expr::Assignment { assignee: Box::new(assignee), right: Box::new(sum) })
}

/// Reads an identifier and gives the name that it spells.
pub fn take_identifier(parser: &mut Parser) -> (r: Result<String, ParseError>)
    ensures
        final(parser).same_input(old(parser)),
        match identifier_at(old(parser).stream(), old(parser).pos()) {
            Ok(name) => r is Ok && r->Ok_0@ == name && final(parser).pos() == old(parser).pos() + 1 && old(
                parser,
            ).pos() < old(parser).stream().len(),
            Err(e) => r == Err::<String, ParseError>(e),
        },
{
    match parser.expect_kind(TokenKind::Identifier) {
        Ok(t) => match t {
            Token::Identifier(name) => Ok(name.clone()),
            _ => Ok(String::new()),
        },
        Err(e) => Err(e),
    }
}

/// Reads a string literal and gives its text.
pub fn take_string(parser: &mut Parser) -> (r: Result<String, ParseError>)
    ensures
        final(parser).same_input(old(parser)),
        match string_at(old(parser).stream(), old(parser).pos()) {
            Ok(text) => r is Ok && r->Ok_0@ == text && final(parser).pos() == old(parser).pos() + 1 && old(
                parser,
            ).pos() < old(parser).stream().len(),
            Err(e) => r == Err::<String, ParseError>(e),
        },
{
    match parser.expect_kind(TokenKind::String) {
        Ok(t) => match t {
            Token::String(text) => Ok(text.clone()),
            _ => Ok(String::new()),
        },
        Err(e) => Err(e),
    }
}

/// Parses `left . name`, from the dot on.
pub fn parse_access_expression(parser: &mut Parser, left: Expr, _bp: BindingPower) -> (r: Result<
    Expr,
    ParseError,
>)
    ensures
        yields(
            old(parser),
            final(parser),
            r,
            spec_parse_access_expression(old(parser).stream(), old(parser).pos(), left.deep_view()),
        ),
{
    if parser.position() >= parser.len() {
        return error_here(parser, ParseErrorKind::UnexpectedEnd);
    }
    parser.advance();
    match take_identifier(parser) {
        Ok(right) => {
            let rhs = Expr::Symbol(right);
            assert(rhs.deep_view() == ExprV::Symbol(right@));
            Ok(Expr::Access { lhs: Box::new(left), rhs: Box::new(rhs) })
        },
        Err(e) => Err(e),
    }
}

/// Parses the field initialisers of a struct, up to the closing brace.
pub fn init_fields(parser: &mut Parser) -> (r: Result<Vec<Stmt>, ParseError>)
    ensures
        final(parser).same_input(old(parser)),
        match spec_init_fields(old(parser).grammar(), old(parser).stream(), old(parser).pos(), Seq::empty()) {
            Ok((items, p)) => r is Ok && stmts_view(r->Ok_0@) == items && final(parser).pos() == p && old(
                parser,
            ).pos() <= p,
            Err(e) => r == Err::<Vec<Stmt>, ParseError>(e),
        },
    decreases old(parser).stream().len() - old(parser).pos(), 4int,
{
    let ghost g = parser.grammar();
    let ghost ts = parser.stream();
    let ghost start = parser.pos();
    let mut fields: Vec<Stmt> = Vec::new();
    while parser.list_goes_on(TokenKind::CloseCurly)
        invariant
            parser.grammar() == g,
            parser.stream() == ts,
            g == old(parser).grammar(),
            ts == old(parser).stream(),
            start == old(parser).pos(),
            start <= parser.pos(),
            spec_init_fields(g, ts, start, Seq::empty()) == spec_init_fields(
                g,
                ts,
                parser.pos(),
                stmts_view(fields@),
            ),
        decreases ts.len() - parser.pos(),
    {
        let field_name = match take_identifier(parser) {
            Ok(n) => n,
            Err(e) => {
                return Err(e);
            },
        };
        match parser.expect_kind(TokenKind::Colon) {
            Ok(_) => {},
            Err(e) => {
                return Err(e);
            },
        }
        let value = match parse_expression(parser, BindingPower::Default) {
            Ok(e) => e,
            Err(e) => {
                return Err(e);
            },
        };
        match separator(parser, TokenKind::CloseCurly) {
            Ok(_) => {},
            Err(e) => {
                return Err(e);
            },
        }
        let item = Stmt::StructInitField { name: field_name, value: Box::new(value) };
        proof {
            lemma_stmts_view_push(fields@, item);
        }
        fields.push(item);
    }
    Ok(fields)
}

/// Parses `new Name { field : value , ... }`.
pub fn parse_struct_create_expression(parser: &mut Parser) -> (r: Result<Expr, ParseError>)
    ensures
        yields(
            old(parser),
            final(parser),
            r,
            spec_parse_struct_create_expression(
                old(parser).grammar(),
                old(parser).stream(),
                old(parser).pos(),
            ),
        ),
    decreases old(parser).stream().len() - old(parser).pos(), 0int,
{
    if parser.position() >= parser.len() {
        return error_here(parser, ParseErrorKind::UnexpectedEnd);
    }
    parser.advance();
    let name = match take_identifier(parser) {
        Ok(n) => n,
        Err(e) => {
            return Err(e);
        },
    };
    match parser.expect_kind(TokenKind::OpenCurly) {
        Ok(_) => {},
        Err(e) => {
            return Err(e);
        },
    }
    let fields = match init_fields(parser) {
        Ok(f) => f,
        Err(e) => {
            return Err(e);
        },
    };
    match parser.expect_kind(TokenKind::CloseCurly) {
        Ok(_) => Ok(Expr::StructInitialize { name, fields }),
        Err(e) => Err(e),
    }
}

} // verus!
