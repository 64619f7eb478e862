//! The parsing of types.

use vstd::prelude::*;
use crate::lexer::TokenKind;
use crate::parser::ast::Type;
use crate::parser::grammar::{
    behind, spec_parse_array_type, spec_parse_ref_type, spec_parse_symbol_type, spec_parse_type,
};
use crate::parser::pratt::{BindingPower, TypeNudHandler};
use crate::parser::{yields, ParseError, ParseErrorKind, Parser};
use super::expression::{error_here, take_identifier};

verus! {

/// Parses a type. Types have prefix forms only: where the token behind the
/// prefix form binds tighter than `bp` among types, the parse fails.
pub fn parse_type(parser: &mut Parser, bp: BindingPower) -> (r: Result<Type, ParseError>)
    ensures
        yields(
            old(parser),
            final(parser),
            r,
            spec_parse_type(old(parser).grammar(), old(parser).stream(), old(parser).pos(), bp),
        ),
    decreases old(parser).stream().len() - old(parser).pos(), 3int,
{
    if parser.position() >= parser.len() {
        return error_here(parser, ParseErrorKind::UnexpectedEnd);
    }
    let handler = match parser.get_type_nud(parser.current()) {
        Some(h) => *h,
        None => {
            return error_here(parser, ParseErrorKind::NoTypePrefixHandler);
        },
    };
    let first = match handler {
        TypeNudHandler::Symbol => parse_symbol_type(parser),
        TypeNudHandler::Array => parse_array_type(parser),
        TypeNudHandler::Ref => parse_ref_type(parser),
    };
    let left = match first {
        Ok(t) => t,
        Err(e) => {
            return Err(e);
        },
    };
    if parser.position() >= parser.len() {
        return error_here(parser, ParseErrorKind::UnexpectedEnd);
    }
    let power = match parser.get_type_bp(parser.current()) {
        Some(p) => *p,
        None => {
            return Ok(left);
        },
    };
    if power.level() <= bp.level() {
        return Ok(left);
    }
    error_here(parser, ParseErrorKind::NoTypeInfixHandler)
}

/// Parses a named type.
pub fn parse_symbol_type(parser: &mut Parser) -> (r: Result<Type, ParseError>)
    ensures
        yields(old(parser), final(parser), r, spec_parse_symbol_type(old(parser).stream(), old(parser).pos())),
{
    match take_identifier(parser) {
        Ok(name) => Ok(Type::Symbol(name)),
        Err(e) => Err(e),
    }
}

/// Parses `[ ] type`.
pub fn parse_array_type(parser: &mut Parser) -> (r: Result<Type, ParseError>)
    ensures
        yields(
            old(parser),
            final(parser),
            r,
            spec_parse_array_type(old(parser).grammar(), old(parser).stream(), old(parser).pos()),
        ),
    decreases old(parser).stream().len() - old(parser).pos(), 0int,
{
    if parser.position() >= parser.len() {
        return error_here(parser, ParseErrorKind::UnexpectedEnd);
    }
    parser.advance();
    match parser.expect_kind(TokenKind::CloseBracket) {
        Ok(_) => {},
        Err(e) => {
            return Err(e);
        },
    }
    match parse_type(parser, BindingPower::Default) {
        Ok(inner) => Ok(Type::Array(Box::new(inner))),
        Err(e) => Err(e),
    }
}

/// Parses `ref type`.
pub fn parse_ref_type(parser: &mut Parser) -> (r: Result<Type, ParseError>)
    ensures
        yields(
            old(parser),
            final(parser),
            r,
            spec_parse_ref_type(old(parser).grammar(), old(parser).stream(), old(parser).pos()),
        ),
    decreases old(parser).stream().len() - old(parser).pos(), 0int,
{
    if parser.position() >= parser.len() {
        return error_here(parser, ParseErrorKind::UnexpectedEnd);
    }
    parser.advance();
    match parse_type(parser, BindingPower::Default) {
        Ok(inner) => Ok(Type::Ref(Box::new(inner))),
        Err(e) => Err(e),
    }
}

} // verus!
