//! The parsing of statements and declarations.

use vstd::prelude::*;
use crate::lexer::{Token, TokenKind};
use crate::parser::ast::{lemma_stmts_view_push, stmts_view, Expr, Stmt, StmtV, Type, TypeV};
use crate::parser::grammar::{
    spec_annotation, spec_block_items, spec_braced_block, spec_else, spec_else_branch,
    spec_extern_parameter_list, spec_extern_parameters, spec_initializer, spec_linked_symbol, spec_member,
    spec_members, spec_parameter, spec_parameter_list, spec_parameters, spec_parse_extern,
    spec_parse_function_declaration, spec_parse_if, spec_parse_include, spec_parse_link_lib,
    spec_parse_link_static, spec_parse_return, spec_parse_stmt, spec_parse_struct_declaration,
    spec_parse_var_decl, spec_return_type, spec_stated_type, this_name, MembersV, MemberV,
};
use crate::parser::pratt::{BindingPower, StmtHandler};
use crate::parser::{yields, ParseError, ParseErrorKind, Parser};
use super::expression::{error_here, parse_expression, separator, take_identifier, take_string};
use super::types::parse_type;

verus! {

/// Parses one statement.
pub fn parse_stmt(parser: &mut Parser) -> (r: Result<Stmt, ParseError>)
    ensures
        yields(
            old(parser),
            final(parser),
            r,
            spec_parse_stmt(old(parser).grammar(), old(parser).stream(), old(parser).pos()),
        ),
    decreases old(parser).stream().len() - old(parser).pos(), 4int,
{
    if parser.position() >= parser.len() {
        return error_here(parser, ParseErrorKind::UnexpectedEnd);
    }
    let handler = match parser.get_stmt(parser.current()) {
        Some(h) => Some(*h),
        None => None,
    };
    match handler {
        Some(StmtHandler::If) => parse_if(parser),
        Some(StmtHandler::VarDecl) => parse_var_decl(parser),
        Some(StmtHandler::Return) => parse_return(parser),
        Some(StmtHandler::LinkStatic) => parse_link_static(parser),
        Some(StmtHandler::LinkLib) => parse_link_lib(parser),
        Some(StmtHandler::Include) => parse_include(parser),
        None => {
            let expr = match parse_expression(parser, BindingPower::Default) {
                Ok(e) => e,
                Err(e) => {
                    return Err(e);
                },
            };
            match expr {
                Expr::StmtHack(s) => Ok(s),
                _ => match parser.expect_kind(TokenKind::Semicolon) {
                    Ok(_) => Ok(Stmt::Expression(Box::new(expr))),
                    Err(e) => Err(e),
                },
            }
        },
    }
}

/// Parses the statements up to a closing brace.
pub fn block_items(parser: &mut Parser) -> (r: Result<Vec<Stmt>, ParseError>)
    ensures
        final(parser).same_input(old(parser)),
        match spec_block_items(old(parser).grammar(), old(parser).stream(), old(parser).pos(), Seq::empty()) {
            Ok((items, p)) => r is Ok && stmts_view(r->Ok_0@) == items && final(parser).pos() == p && old(
                parser,
            ).pos() <= p,
            Err(e) => r == Err::<Vec<Stmt>, ParseError>(e),
        },
    decreases old(parser).stream().len() - old(parser).pos(), 5int,
{
    let ghost g = parser.grammar();
    let ghost ts = parser.stream();
    let ghost start = parser.pos();
    let mut body: Vec<Stmt> = Vec::new();
    while parser.list_goes_on(TokenKind::CloseCurly)
        invariant
            parser.grammar() == g,
            parser.stream() == ts,
            g == old(parser).grammar(),
            ts == old(parser).stream(),
            start == old(parser).pos(),
            start <= parser.pos(),
            spec_block_items(g, ts, start, Seq::empty()) == spec_block_items(
                g,
                ts,
                parser.pos(),
                stmts_view(body@),
            ),
        decreases ts.len() - parser.pos(),
    {
        let item = match parse_stmt(parser) {
            Ok(s) => s,
            Err(e) => {
                return Err(e);
            },
        };
        proof {
            lemma_stmts_view_push(body@, item);
        }
        body.push(item);
    }
    Ok(body)
}

/// Parses `{ statement ... }` as a block.
pub fn braced_block(parser: &mut Parser) -> (r: Result<Stmt, ParseError>)
    ensures
        yields(
            old(parser),
            final(parser),
            r,
            spec_braced_block(old(parser).grammar(), old(parser).stream(), old(parser).pos()),
        ),
    decreases old(parser).stream().len() - old(parser).pos(), 6int,
{
    match parser.expect_kind(TokenKind::OpenCurly) {
        Ok(_) => {},
        Err(e) => {
            return Err(e);
        },
    }
    let body = match block_items(parser) {
        Ok(b) => b,
        Err(e) => {
            return Err(e);
        },
    };
    match parser.expect_kind(TokenKind::CloseCurly) {
        Ok(_) => Ok(Stmt::Block(body)),
        Err(e) => Err(e),
    }
}

/// Parses what stands behind `else`: another `if`, or a block.
pub fn else_branch(parser: &mut Parser) -> (r: Result<Stmt, ParseError>)
    ensures
        yields(
            old(parser),
            final(parser),
            r,
            spec_else_branch(old(parser).grammar(), old(parser).stream(), old(parser).pos()),
        ),
    decreases old(parser).stream().len() - old(parser).pos(), 7int,
{
    if parser.position() >= parser.len() {
        return error_here(parser, ParseErrorKind::UnexpectedEnd);
    }
    if parser.current_is(TokenKind::If) {
        parse_if(parser)
    } else {
        braced_block(parser)
    }
}

/// Parses what follows the body of an `if`: nothing, or `else` and its
/// branch.
pub fn else_tail(parser: &mut Parser) -> (r: Result<Option<Box<Stmt>>, ParseError>)
    ensures
        final(parser).same_input(old(parser)),
        match spec_else(old(parser).grammar(), old(parser).stream(), old(parser).pos()) {
            Ok((other, p)) => r is Ok && final(parser).pos() == p && old(parser).pos() <= p <= old(
                parser,
            ).stream().len() && (match r->Ok_0 {
                Some(s) => other == Some(Box::new(s.deep_view())),
                None => other is None,
            }),
            Err(e) => r == Err::<Option<Box<Stmt>>, ParseError>(e),
        },
    decreases old(parser).stream().len() - old(parser).pos(), 8int,
{
    if parser.position() >= parser.len() {
        return error_here(parser, ParseErrorKind::UnexpectedEnd);
    }
    if !parser.current_is(TokenKind::Else) {
        return Ok(None);
    }
    parser.advance();
    match else_branch(parser) {
        Ok(other) => Ok(Some(Box::new(other))),
        Err(e) => Err(e),
    }
}

/// Parses `if condition { ... }` with what follows of `else`.
pub fn parse_if(parser: &mut Parser) -> (r: Result<Stmt, ParseError>)
    ensures
        yields(
            old(parser),
            final(parser),
            r,
            spec_parse_if(old(parser).grammar(), old(parser).stream(), old(parser).pos()),
        ),
    decreases old(parser).stream().len() - old(parser).pos(), 0int,
{
    if parser.position() >= parser.len() {
        return error_here(parser, ParseErrorKind::UnexpectedEnd);
    }
    parser.advance();
    let condition = match parse_expression(parser, BindingPower::Default) {
        Ok(e) => e,
        Err(e) => {
            return Err(e);
        },
    };
    let body = match braced_block(parser) {
        Ok(s) => s,
        Err(e) => {
            return Err(e);
        },
    };
    match else_tail(parser) {
        Ok(_else) => Ok(Stmt::If { condition: Box::new(condition), body: Box::new(body), _else }),
        Err(e) => Err(e),
    }
}

/// Parses `: type`.
pub fn annotation(parser: &mut Parser) -> (r: Result<Type, ParseError>)
    ensures
        yields(
            old(parser),
            final(parser),
            r,
            spec_annotation(old(parser).grammar(), old(parser).stream(), old(parser).pos()),
        ),
    decreases old(parser).stream().len() - old(parser).pos(), 4int,
{
    match parser.expect_kind(TokenKind::Colon) {
        Ok(_) => {},
        Err(e) => {
            return Err(e);
        },
    }
    parse_type(parser, BindingPower::Default)
}

/// Parses the return type of a declaration: a type where an identifier
/// stands next, and `void` without reading anything otherwise.
pub fn return_type(parser: &mut Parser) -> (r: Result<Type, ParseError>)
    ensures
        final(parser).same_input(old(parser)),
        match spec_return_type(old(parser).grammar(), old(parser).stream(), old(parser).pos()) {
            Ok((t, p)) => r is Ok && r->Ok_0.deep_view() == t && final(parser).pos() == p && old(parser).pos()
                <= p <= old(parser).stream().len(),
            Err(e) => r == Err::<Type, ParseError>(e),
        },
    decreases old(parser).stream().len() - old(parser).pos(), 4int,
{
    if parser.position() >= parser.len() {
        return error_here(parser, ParseErrorKind::UnexpectedEnd);
    }
    if parser.current_is(TokenKind::Identifier) {
        parse_type(parser, BindingPower::Default)
    } else {
        Ok(Type::Symbol(String::from_str("void")))
    }
}

/// Parses one parameter of a function: `this`, `ref this` or `name : type`.
pub fn parameter(parser: &mut Parser) -> (r: Result<Stmt, ParseError>)
    ensures
        yields(
            old(parser),
            final(parser),
            r,
            spec_parameter(old(parser).grammar(), old(parser).stream(), old(parser).pos()),
        ),
    decreases old(parser).stream().len() - old(parser).pos(), 5int,
{
    if parser.position() >= parser.len() {
        return error_here(parser, ParseErrorKind::UnexpectedEnd);
    }
    let this = String::from_str("this");
    match parser.advance() {
        Token::Reference => {
            let at = parser.position();
            let ident = match take_identifier(parser) {
                Ok(n) => n,
                Err(e) => {
                    return Err(e);
                },
            };
            if ident != this {
                return Err(ParseError { kind: ParseErrorKind::ReceiverNotThis, position: at });
            }
            let inner = Type::Symbol(this);
            assert(inner.deep_view() == TypeV::Symbol(this_name()));
            let t = Type::Ref(Box::new(inner));
            assert(t.deep_view() == TypeV::Ref(Box::new(TypeV::Symbol(this_name()))));
            Ok(Stmt::Field { name: ident, _type: Box::new(t) })
        },
        Token::Identifier(name) => {
            let name = name.clone();
            if name == this {
                let t = Type::Symbol(this);
                assert(t.deep_view() == TypeV::Symbol(this_name()));
                Ok(Stmt::Field { name, _type: Box::new(t) })
            } else {
                match annotation(parser) {
                    Ok(t) => Ok(Stmt::Field { name, _type: Box::new(t) }),
                    Err(e) => Err(e),
                }
            }
        },
        _ => Err(ParseError { kind: ParseErrorKind::ExpectedParameter, position: parser.position() - 1 }),
    }
}

/// Parses the parameters of a function, up to the closing parenthesis.
pub fn parameters(parser: &mut Parser) -> (r: Result<Vec<Stmt>, ParseError>)
    ensures
        final(parser).same_input(old(parser)),
        match spec_parameters(old(parser).grammar(), old(parser).stream(), old(parser).pos(), Seq::empty()) {
            Ok((items, p)) => r is Ok && stmts_view(r->Ok_0@) == items && final(parser).pos() == p && old(
                parser,
            ).pos() <= p,
            Err(e) => r == Err::<Vec<Stmt>, ParseError>(e),
        },
    decreases old(parser).stream().len() - old(parser).pos(), 6int,
{
    let ghost g = parser.grammar();
    let ghost ts = parser.stream();
    let ghost start = parser.pos();
    let mut arguments: Vec<Stmt> = Vec::new();
    while parser.list_goes_on(TokenKind::CloseParen)
        invariant
            parser.grammar() == g,
            parser.stream() == ts,
            g == old(parser).grammar(),
            ts == old(parser).stream(),
            start == old(parser).pos(),
            start <= parser.pos(),
            spec_parameters(g, ts, start, Seq::empty()) == spec_parameters(
                g,
                ts,
                parser.pos(),
                stmts_view(arguments@),
            ),
        decreases ts.len() - parser.pos(),
    {
        let param = match parameter(parser) {
            Ok(s) => s,
            Err(e) => {
                return Err(e);
            },
        };
        match separator(parser, TokenKind::CloseParen) {
            Ok(_) => {},
            Err(e) => {
                return Err(e);
            },
        }
        proof {
            lemma_stmts_view_push(arguments@, param);
        }
        arguments.push(param);
    }
    Ok(arguments)
}

/// Parses `( parameter , ... )`.
pub fn parameter_list(parser: &mut Parser) -> (r: Result<Vec<Stmt>, ParseError>)
    ensures
        final(parser).same_input(old(parser)),
        match spec_parameter_list(old(parser).grammar(), old(parser).stream(), old(parser).pos()) {
            Ok((items, p)) => r is Ok && stmts_view(r->Ok_0@) == items && final(parser).pos() == p && old(
                parser,
            ).pos() < p <= old(parser).stream().len(),
            Err(e) => r == Err::<Vec<Stmt>, ParseError>(e),
        },
    decreases old(parser).stream().len() - old(parser).pos(), 7int,
{
    match parser.expect_kind(TokenKind::OpenParen) {
        Ok(_) => {},
        Err(e) => {
            return Err(e);
        },
    }
    let arguments = match parameters(parser) {
        Ok(a) => a,
        Err(e) => {
            return Err(e);
        },
    };
    match parser.expect_kind(TokenKind::CloseParen) {
        Ok(_) => Ok(arguments),
        Err(e) => Err(e),
    }
}

/// Parses a function, from the opening parenthesis of its parameters on.
pub fn parse_function_declaration(parser: &mut Parser, name: String) -> (r: Result<Stmt, ParseError>)
    ensures
        yields(
            old(parser),
            final(parser),
            r,
            spec_parse_function_declaration(
                old(parser).grammar(),
                old(parser).stream(),
                old(parser).pos(),
                name@,
            ),
        ),
    decreases old(parser).stream().len() - old(parser).pos(), 8int,
{
    let arguments = match parameter_list(parser) {
        Ok(a) => a,
        Err(e) => {
            return Err(e);
        },
    };
    let return_type = match return_type(parser) {
        Ok(t) => t,
        Err(e) => {
            return Err(e);
        },
    };
    match braced_block(parser) {
        Ok(body) => Ok(
            Stmt::FunctionDeclaration { name, return_type: Box::new(return_type), arguments, body: Box::new(body) },
        ),
        Err(e) => Err(e),
    }
}

/// A member of a struct: a field or a method.
pub enum Member {
    Field(Stmt),
    Method(Stmt),
}

/// Parses one member of a struct.
pub fn member(parser: &mut Parser) -> (r: Result<Member, ParseError>)
    ensures
        final(parser).same_input(old(parser)),
        match spec_member(old(parser).grammar(), old(parser).stream(), old(parser).pos()) {
            Ok((m, p)) => r is Ok && final(parser).pos() == p && old(parser).pos() < p <= old(
                parser,
            ).stream().len() && (match r->Ok_0 {
                Member::Field(s) => m == MemberV::Field(s.deep_view()),
                Member::Method(s) => m == MemberV::Method(s.deep_view()),
            }),
            Err(e) => r == Err::<Member, ParseError>(e),
        },
    decreases old(parser).stream().len() - old(parser).pos(), 9int,
{
    let name = match take_identifier(parser) {
        Ok(n) => n,
        Err(e) => {
            return Err(e);
        },
    };
    if parser.position() >= parser.len() {
        return error_here(parser, ParseErrorKind::UnexpectedEnd);
    }
    if parser.current_is(TokenKind::Arrow) {
        parser.advance();
        match parser.expect_kind(TokenKind::Subroutine) {
            Ok(_) => {},
            Err(e) => {
                return Err(e);
            },
        }
        match parse_function_declaration(parser, name) {
            Ok(s) => Ok(Member::Method(s)),
            Err(e) => Err(e),
        }
    } else {
        let t = match annotation(parser) {
            Ok(t) => t,
            Err(e) => {
                return Err(e);
            },
        };
        match separator(parser, TokenKind::CloseCurly) {
            Ok(_) => Ok(Member::Field(Stmt::Field { name, _type: Box::new(t) })),
            Err(e) => Err(e),
        }
    }
}

/// The members of a struct: its fields and its methods, each in the order
/// of the source.
pub struct Members {
    pub fields: Vec<Stmt>,
    pub functions: Vec<Stmt>,
}

impl Members {
    pub open spec fn view(&self) -> MembersV {
        MembersV { fields: stmts_view(self.fields@), functions: stmts_view(self.functions@) }
    }
}

/// Parses the members of a struct, up to the closing brace.
pub fn members(parser: &mut Parser) -> (r: Result<Members, ParseError>)
    ensures
        final(parser).same_input(old(parser)),
        match spec_members(
            old(parser).grammar(),
            old(parser).stream(),
            old(parser).pos(),
            MembersV { fields: Seq::empty(), functions: Seq::empty() },
        ) {
            Ok((m, p)) => r is Ok && r->Ok_0@ == m && final(parser).pos() == p && old(parser).pos() <= p,
            Err(e) => r == Err::<Members, ParseError>(e),
        },
    decreases old(parser).stream().len() - old(parser).pos(), 10int,
{
    let ghost g = parser.grammar();
    let ghost ts = parser.stream();
    let ghost start = parser.pos();
    let mut list = Members { fields: Vec::new(), functions: Vec::new() };
    while parser.list_goes_on(TokenKind::CloseCurly)
        invariant
            parser.grammar() == g,
            parser.stream() == ts,
            g == old(parser).grammar(),
            ts == old(parser).stream(),
            start == old(parser).pos(),
            start <= parser.pos(),
            spec_members(g, ts, start, MembersV { fields: Seq::empty(), functions: Seq::empty() })
                == spec_members(g, ts, parser.pos(), list@),
        decreases ts.len() - parser.pos(),
    {
        match member(parser) {
            Ok(Member::Field(item)) => {
                proof {
                    lemma_stmts_view_push(list.fields@, item);
                }
                list.fields.push(item);
            },
            Ok(Member::Method(item)) => {
                proof {
                    lemma_stmts_view_push(list.functions@, item);
                }
                list.functions.push(item);
            },
            Err(e) => {
                return Err(e);
            },
        }
    }
    Ok(list)
}

/// Parses a struct, from the opening brace of its members on.
#[verifier::rlimit(60)]
pub fn parse_struct_declaration(parser: &mut Parser, name: String) -> (r: Result<Stmt, ParseError>)
    ensures
        yields(
            old(parser),
            final(parser),
            r,
            spec_parse_struct_declaration(
                old(parser).grammar(),
                old(parser).stream(),
                old(parser).pos(),
                name@,
            ),
        ),
    decreases old(parser).stream().len() - old(parser).pos(), 11int,
{
    match parser.expect_kind(TokenKind::OpenCurly) {
        Ok(_) => {},
        Err(e) => {
            return Err(e);
        },
    }
    let list = match members(parser) {
        Ok(m) => m,
        Err(e) => {
            return Err(e);
        },
    };
    let ghost read = list@;
    match parser.expect_kind(TokenKind::CloseCurly) {
        Ok(_) => {
            let node = Stmt::StructDeclaration { name, fields: list.fields, functions: list.functions };
            assert(node.deep_view() == StmtV::StructDeclaration {
                name: name@,
                fields: read.fields,
                functions: read.functions,
            });
            Ok(node)
        },
        Err(e) => Err(e),
    }
}

/// Parses the type that the declaration of a variable states behind its
/// name, if it states one.
pub fn stated_type(parser: &mut Parser) -> (r: Result<Option<Box<Type>>, ParseError>)
    ensures
        final(parser).same_input(old(parser)),
        match spec_stated_type(old(parser).grammar(), old(parser).stream(), old(parser).pos()) {
            Ok((t, p)) => r is Ok && final(parser).pos() == p && old(parser).pos() <= p <= old(
                parser,
            ).stream().len() && (match r->Ok_0 {
                Some(stated) => t == Some(stated.deep_view()),
                None => t is None,
            }),
            Err(e) => r == Err::<Option<Box<Type>>, ParseError>(e),
        },
    decreases old(parser).stream().len() - old(parser).pos(), 4int,
{
    if parser.position() >= parser.len() {
        return error_here(parser, ParseErrorKind::UnexpectedEnd);
    }
    if parser.current_is(TokenKind::Colon) {
        parser.advance();
        match parse_type(parser, BindingPower::Default) {
            Ok(t) => Ok(Some(Box::new(t))),
            Err(e) => Err(e),
        }
    } else {
        Ok(None)
    }
}

/// Parses `= value ;`.
pub fn initializer(parser: &mut Parser) -> (r: Result<Expr, ParseError>)
    ensures
        yields(
            old(parser),
            final(parser),
            r,
            spec_initializer(old(parser).grammar(), old(parser).stream(), old(parser).pos()),
        ),
    decreases old(parser).stream().len() - old(parser).pos(), 4int,
{
    match parser.expect_kind(TokenKind::Assignment) {
        Ok(_) => {},
        Err(e) => {
            return Err(e);
        },
    }
    let value = match parse_expression(parser, BindingPower::Default) {
        Ok(e) => e,
        Err(e) => {
            return Err(e);
        },
    };
    match parser.expect_kind(TokenKind::Semicolon) {
        Ok(_) => Ok(value),
        Err(e) => Err(e),
    }
}

/// Parses the declaration of a variable.
pub fn parse_var_decl(parser: &mut Parser) -> (r: Result<Stmt, ParseError>)
    ensures
        yields(
            old(parser),
            final(parser),
            r,
            spec_parse_var_decl(old(parser).grammar(), old(parser).stream(), old(parser).pos()),
        ),
    decreases old(parser).stream().len() - old(parser).pos(), 0int,
{
    if parser.position() >= parser.len() {
        return error_here(parser, ParseErrorKind::UnexpectedEnd);
    }
    let mutable = parser.current_is(TokenKind::Mut);
    parser.advance();
    let name = match take_identifier(parser) {
        Ok(n) => n,
        Err(e) => {
            return Err(e);
        },
    };
    let explicit_type = match stated_type(parser) {
        Ok(t) => t,
        Err(e) => {
            return Err(e);
        },
    };
    match initializer(parser) {
        Ok(value) => Ok(Stmt::VariableDeclaration { name, mutable, explicit_type, value: Box::new(value) }),
        Err(e) => Err(e),
    }
}

/// Parses the name that an external function is linked under, where the
/// declaration states one behind `[`; gives `name` otherwise.
pub fn linked_symbol(parser: &mut Parser, name: &String) -> (r: Result<String, ParseError>)
    ensures
        final(parser).same_input(old(parser)),
        match spec_linked_symbol(old(parser).stream(), old(parser).pos(), name@) {
            Ok((symbol, p)) => r is Ok && r->Ok_0@ == symbol && final(parser).pos() == p && old(parser).pos()
                <= p <= old(parser).stream().len(),
            Err(e) => r == Err::<String, ParseError>(e),
        },
{
    if parser.position() >= parser.len() {
        return error_here(parser, ParseErrorKind::UnexpectedEnd);
    }
    if parser.current_is(TokenKind::OpenBracket) {
        parser.advance();
        take_identifier(parser)
    } else {
        Ok(name.clone())
    }
}

/// Parses the parameters of an external function, up to the closing
/// parenthesis.
pub fn extern_parameters(parser: &mut Parser) -> (r: Result<Vec<Stmt>, ParseError>)
    ensures
        final(parser).same_input(old(parser)),
        match spec_extern_parameters(
            old(parser).grammar(),
            old(parser).stream(),
            old(parser).pos(),
            Seq::empty(),
        ) {
            Ok((items, p)) => r is Ok && stmts_view(r->Ok_0@) == items && final(parser).pos() == p && old(
                parser,
            ).pos() <= p,
            Err(e) => r == Err::<Vec<Stmt>, ParseError>(e),
        },
    decreases old(parser).stream().len() - old(parser).pos(), 6int,
{
    let ghost g = parser.grammar();
    let ghost ts = parser.stream();
    let ghost start = parser.pos();
    let mut arguments: Vec<Stmt> = Vec::new();
    while parser.list_goes_on(TokenKind::CloseParen)
        invariant
            parser.grammar() == g,
            parser.stream() == ts,
            g == old(parser).grammar(),
            ts == old(parser).stream(),
            start == old(parser).pos(),
            start <= parser.pos(),
            spec_extern_parameters(g, ts, start, Seq::empty()) == spec_extern_parameters(
                g,
                ts,
                parser.pos(),
                stmts_view(arguments@),
            ),
        decreases ts.len() - parser.pos(),
    {
        let param_name = match parser.advance() {
            Token::Identifier(n) => n.clone(),
            _ => {
                return Err(
                    ParseError { kind: ParseErrorKind::ExpectedParameter, position: parser.position() - 1 },
                );
            },
        };
        let t = match annotation(parser) {
            Ok(t) => t,
            Err(e) => {
                return Err(e);
            },
        };
        match separator(parser, TokenKind::CloseParen) {
            Ok(_) => {},
            Err(e) => {
                return Err(e);
            },
        }
        let item = Stmt::Field { name: param_name, _type: Box::new(t) };
        proof {
            lemma_stmts_view_push(arguments@, item);
        }
        arguments.push(item);
    }
    Ok(arguments)
}

/// Parses `( parameter , ... )` of an external function.
pub fn extern_parameter_list(parser: &mut Parser) -> (r: Result<Vec<Stmt>, ParseError>)
    ensures
        final(parser).same_input(old(parser)),
        match spec_extern_parameter_list(old(parser).grammar(), old(parser).stream(), old(parser).pos()) {
            Ok((items, p)) => r is Ok && stmts_view(r->Ok_0@) == items && final(parser).pos() == p && old(
                parser,
            ).pos() < p <= old(parser).stream().len(),
            Err(e) => r == Err::<Vec<Stmt>, ParseError>(e),
        },
    decreases old(parser).stream().len() - old(parser).pos(), 7int,
{
    match parser.expect_kind(TokenKind::OpenParen) {
        Ok(_) => {},
        Err(e) => {
            return Err(e);
        },
    }
    let arguments = match extern_parameters(parser) {
        Ok(a) => a,
        Err(e) => {
            return Err(e);
        },
    };
    match parser.expect_kind(TokenKind::CloseParen) {
        Ok(_) => Ok(arguments),
        Err(e) => Err(e),
    }
}

/// Parses the declaration of an external function, from behind its
/// keyword on.
pub fn parse_extern(parser: &mut Parser, name: String) -> (r: Result<Stmt, ParseError>)
    ensures
        yields(
            old(parser),
            final(parser),
            r,
            spec_parse_extern(old(parser).grammar(), old(parser).stream(), old(parser).pos(), name@),
        ),
    decreases old(parser).stream().len() - old(parser).pos(), 8int,
{
    let symbol = match linked_symbol(parser, &name) {
        Ok(s) => s,
        Err(e) => {
            return Err(e);
        },
    };
    let arguments = match extern_parameter_list(parser) {
        Ok(a) => a,
        Err(e) => {
            return Err(e);
        },
    };
    let return_type = match return_type(parser) {
        Ok(t) => t,
        Err(e) => {
            return Err(e);
        },
    };
    match parser.expect_kind(TokenKind::Semicolon) {
        Ok(_) => Ok(Stmt::Extern { name, symbol, return_type: Box::new(return_type), arguments }),
        Err(e) => Err(e),
    }
}

/// Parses `linklib "name"`.
pub fn parse_link_lib(parser: &mut Parser) -> (r: Result<Stmt, ParseError>)
    ensures
        yields(old(parser), final(parser), r, spec_parse_link_lib(old(parser).stream(), old(parser).pos())),
{
    if parser.position() >= parser.len() {
        return error_here(parser, ParseErrorKind::UnexpectedEnd);
    }
    parser.advance();
    match take_string(parser) {
        Ok(library) => Ok(Stmt::Link { library, _static: false }),
        Err(e) => Err(e),
    }
}

/// Parses `linkstatic "path"`.
pub fn parse_link_static(parser: &mut Parser) -> (r: Result<Stmt, ParseError>)
    ensures
        yields(old(parser), final(parser), r, spec_parse_link_static(old(parser).stream(), old(parser).pos())),
{
    if parser.position() >= parser.len() {
        return error_here(parser, ParseErrorKind::UnexpectedEnd);
    }
    parser.advance();
    match take_string(parser) {
        Ok(library) => Ok(Stmt::Link { library, _static: true }),
        Err(e) => Err(e),
    }
}

/// Parses `return value ;`.
pub fn parse_return(parser: &mut Parser) -> (r: Result<Stmt, ParseError>)
    ensures
        yields(
            old(parser),
            final(parser),
            r,
            spec_parse_return(old(parser).grammar(), old(parser).stream(), old(parser).pos()),
        ),
    decreases old(parser).stream().len() - old(parser).pos(), 0int,
{
    if parser.position() >= parser.len() {
        return error_here(parser, ParseErrorKind::UnexpectedEnd);
    }
    parser.advance();
    let value = match parse_expression(parser, BindingPower::Default) {
        Ok(e) => e,
        Err(e) => {
            return Err(e);
        },
    };
    match parser.expect_kind(TokenKind::Semicolon) {
        Ok(_) => Ok(Stmt::Return { value: Box::new(value) }),
        Err(e) => Err(e),
    }
}

/// Parses the directive that names a source file to compile and splice in.
pub fn parse_include(parser: &mut Parser) -> (r: Result<Stmt, ParseError>)
    ensures
        yields(old(parser), final(parser), r, spec_parse_include(old(parser).stream(), old(parser).pos())),
{
    if parser.position() >= parser.len() {
        return error_here(parser, ParseErrorKind::UnexpectedEnd);
    }
    parser.advance();
    match take_string(parser) {
        Ok(path) => Ok(Stmt::Include { path }),
        Err(e) => Err(e),
    }
}

} // verus!
