use ignis::lexer::{Token, TokenKind};
use ignis::parser::ast::{Expr, Stmt, Type};
use ignis::parser::handlers::expression::{
    parse_access_expression, parse_arrow_expression, parse_assignment_expression, parse_binary_expression,
    parse_bool_expression, parse_call_expression, parse_expression, parse_grouped_expression,
    parse_op_equals_expression, parse_prefix_expression, parse_primary_expression,
    parse_struct_create_expression,
};
use ignis::parser::handlers::statement::{
    parse_extern, parse_function_declaration, parse_if, parse_include, parse_link_lib, parse_link_static,
    parse_return, parse_stmt, parse_struct_declaration, parse_var_decl,
};
use ignis::parser::handlers::types::{parse_array_type, parse_ref_type, parse_symbol_type, parse_type};
use ignis::parser::pratt::{
    BindingPower, LedHandler, NudHandler, PrattLookups, StmtHandler, TypeLedHandler, TypeNudHandler,
};
use ignis::parser::{ParseError, ParseErrorKind, Parser};

fn id(name: &str) -> Token {
    Token::Identifier(name.to_string())
}

fn sym(name: &str) -> Expr {
    Expr::Symbol(name.to_string())
}

fn ty(name: &str) -> Box<Type> {
    Box::new(Type::Symbol(name.to_string()))
}

fn bin(left: Expr, op: Token, right: Expr) -> Expr {
    Expr::Binary { left: Box::new(left), op, right: Box::new(right) }
}

fn field(name: &str, t: &str) -> Stmt {
    Stmt::Field { name: name.to_string(), _type: ty(t) }
}

fn err(kind: ParseErrorKind, position: usize) -> ParseError {
    ParseError { kind, position }
}

fn expression(tokens: Vec<Token>) -> Result<Expr, ParseError> {
    let mut parser = Parser::new(tokens);
    parse_expression(&mut parser, BindingPower::Default)
}

#[test]
fn new_parser_starts_at_the_first_token() {
    let parser = Parser::new(vec![Token::Integer(1), Token::EOF]);
    assert_eq!(parser.position(), 0);
    assert_eq!(parser.len(), 2);
    assert_eq!(parser.current(), &Token::Integer(1));
    assert!(parser.has_tokens());
}

#[test]
fn advance_reads_one_token() {
    let mut parser = Parser::new(vec![Token::Integer(1), Token::Plus, Token::EOF]);
    assert_eq!(parser.advance(), &Token::Integer(1));
    assert_eq!(parser.position(), 1);
    assert_eq!(parser.current(), &Token::Plus);
    assert_eq!(parser.last(), &Token::Integer(1));
    assert_eq!(parser.advance(), &Token::Plus);
    assert!(!parser.has_tokens());
    assert_eq!(parser.advance(), &Token::EOF);
    assert!(!parser.has_tokens());
    assert_eq!(parser.position(), 3);
}

#[test]
fn expect_reads_a_token_of_the_kind_only() {
    let mut parser = Parser::new(vec![id("x"), Token::Semicolon]);
    assert_eq!(parser.expect(Token::Identifier(String::new())), Ok(&id("x")));
    assert_eq!(parser.position(), 1);
    assert_eq!(parser.expect(Token::Comma), Err(err(ParseErrorKind::Expected(TokenKind::Comma), 1)));
    assert_eq!(parser.position(), 1);
    assert_eq!(parser.expect_error(Token::Comma, ParseErrorKind::NotPrimary), Err(err(ParseErrorKind::NotPrimary, 1)));
    assert_eq!(parser.expect_kind(TokenKind::Semicolon), Ok(&Token::Semicolon));
    assert_eq!(parser.expect(Token::Semicolon), Err(err(ParseErrorKind::UnexpectedEnd, 2)));
}

#[test]
fn is_current_kind_ignores_payload() {
    let parser = Parser::new(vec![Token::Integer(42)]);
    assert!(parser.is_current_kind(Token::Integer(0)));
    assert!(!parser.is_current_kind(Token::Decimel(0)));
    assert!(parser.current_is(TokenKind::Integer));
    assert!(parser.list_goes_on(TokenKind::CloseParen));
    assert!(!parser.list_goes_on(TokenKind::Integer));
}

#[test]
fn parser_tables_hold_the_language() {
    let parser = Parser::new(vec![]);
    assert_eq!(parser.get_nud(&Token::Integer(5)), Some(&NudHandler::Primary));
    assert_eq!(parser.get_nud(&Token::Decimel(5)), Some(&NudHandler::Primary));
    assert_eq!(parser.get_nud(&id("a")), Some(&NudHandler::Primary));
    assert_eq!(parser.get_nud(&Token::String("s".to_string())), Some(&NudHandler::Primary));
    assert_eq!(parser.get_nud(&Token::True), Some(&NudHandler::Bool));
    assert_eq!(parser.get_nud(&Token::False), Some(&NudHandler::Bool));
    assert_eq!(parser.get_nud(&Token::OpenParen), Some(&NudHandler::Grouped));
    assert_eq!(parser.get_nud(&Token::Minus), Some(&NudHandler::Prefix));
    assert_eq!(parser.get_nud(&Token::Not), Some(&NudHandler::Prefix));
    assert_eq!(parser.get_nud(&Token::New), Some(&NudHandler::StructCreate));
    assert_eq!(parser.get_nud(&Token::Plus), None);
    assert_eq!(parser.get_led(&Token::Plus), Some(&LedHandler::Binary));
    assert_eq!(parser.get_led(&Token::Assignment), Some(&LedHandler::Assignment));
    assert_eq!(parser.get_led(&Token::Arrow), Some(&LedHandler::Arrow));
    assert_eq!(parser.get_led(&Token::Dot), Some(&LedHandler::Access));
    assert_eq!(parser.get_led(&Token::OpenParen), Some(&LedHandler::Call));
    assert_eq!(parser.get_led(&Token::PlusEquals), Some(&LedHandler::OpEquals));
    assert_eq!(parser.get_led(&Token::MinusEquals), Some(&LedHandler::OpEquals));
    assert_eq!(parser.get_led(&Token::Semicolon), None);
    assert_eq!(parser.get_bp(&Token::And), Some(&BindingPower::Logical));
    assert_eq!(parser.get_bp(&Token::Equals), Some(&BindingPower::Relational));
    assert_eq!(parser.get_bp(&Token::Minus), Some(&BindingPower::Additive));
    assert_eq!(parser.get_bp(&Token::Divide), Some(&BindingPower::Multiplicative));
    assert_eq!(parser.get_bp(&Token::Assignment), Some(&BindingPower::Assignment));
    assert_eq!(parser.get_bp(&Token::Arrow), Some(&BindingPower::Primary));
    assert_eq!(parser.get_bp(&Token::Dot), Some(&BindingPower::Member));
    assert_eq!(parser.get_bp(&Token::OpenParen), Some(&BindingPower::Call));
    assert_eq!(parser.get_bp(&Token::If), Some(&BindingPower::Default));
    assert_eq!(parser.get_bp(&Token::Semicolon), None);
    assert_eq!(parser.get_stmt(&Token::If), Some(&StmtHandler::If));
    assert_eq!(parser.get_stmt(&Token::Mut), Some(&StmtHandler::VarDecl));
    assert_eq!(parser.get_stmt(&Token::Immut), Some(&StmtHandler::VarDecl));
    assert_eq!(parser.get_stmt(&Token::Return), Some(&StmtHandler::Return));
    assert_eq!(parser.get_stmt(&Token::LinkStatic), Some(&StmtHandler::LinkStatic));
    assert_eq!(parser.get_stmt(&Token::LinkLib), Some(&StmtHandler::LinkLib));
    assert_eq!(parser.get_stmt(&Token::Include), Some(&StmtHandler::Include));
    assert_eq!(parser.get_stmt(&Token::While), None);
    assert_eq!(parser.get_type_nud(&id("i32")), Some(&TypeNudHandler::Symbol));
    assert_eq!(parser.get_type_nud(&Token::OpenBracket), Some(&TypeNudHandler::Array));
    assert_eq!(parser.get_type_nud(&Token::Reference), Some(&TypeNudHandler::Ref));
    assert_eq!(parser.get_type_nud(&Token::Integer(1)), None);
    assert_eq!(parser.get_type_led(&Token::Plus), None);
    assert_eq!(parser.get_type_bp(&Token::Assignment), None);
}

#[test]
fn primary_expressions() {
    assert_eq!(expression(vec![Token::Integer(-3), Token::EOF]), Ok(Expr::Int(-3)));
    assert_eq!(expression(vec![Token::Decimel(2.5f64.to_bits()), Token::EOF]), Ok(Expr::Float(2.5f64.to_bits())));
    assert_eq!(
        expression(vec![Token::String("\"hi\"".to_string()), Token::EOF]),
        Ok(Expr::String("\"hi\"".to_string()))
    );
    assert_eq!(expression(vec![id("x"), Token::EOF]), Ok(sym("x")));
    let mut parser = Parser::new(vec![Token::Plus]);
    assert_eq!(parse_primary_expression(&mut parser), Err(err(ParseErrorKind::NotPrimary, 0)));
}

#[test]
fn bool_expressions() {
    assert_eq!(expression(vec![Token::True, Token::EOF]), Ok(Expr::Bool(true)));
    assert_eq!(expression(vec![Token::False, Token::EOF]), Ok(Expr::Bool(false)));
    let mut parser = Parser::new(vec![Token::True]);
    assert_eq!(parse_bool_expression(&mut parser), Ok(Expr::Bool(true)));
    assert_eq!(parser.position(), 1);
}

#[test]
fn operators_of_one_power_group_from_the_left() {
    let tokens = vec![Token::Integer(1), Token::Plus, Token::Integer(2), Token::Plus, Token::Integer(3), Token::EOF];
    assert_eq!(
        expression(tokens),
        Ok(bin(bin(Expr::Int(1), Token::Plus, Expr::Int(2)), Token::Plus, Expr::Int(3)))
    );
    let tokens = vec![Token::Integer(7), Token::Minus, Token::Integer(2), Token::Minus, Token::Integer(1), Token::EOF];
    assert_eq!(
        expression(tokens),
        Ok(bin(bin(Expr::Int(7), Token::Minus, Expr::Int(2)), Token::Minus, Expr::Int(1)))
    );
}

fn binary_levels() -> Vec<Vec<Token>> {
    vec![
        vec![Token::And, Token::Or, Token::Range],
        vec![
            Token::Less,
            Token::LessOrEqual,
            Token::Greater,
            Token::GreaterOrEqual,
            Token::Equals,
            Token::NotEquals,
        ],
        vec![Token::Plus, Token::Minus],
        vec![Token::Multiply, Token::Divide, Token::Power, Token::Mod],
    ]
}

#[test]
fn first_operator_groups_first_unless_the_second_binds_tighter() {
    let levels = binary_levels();
    let mut pairs = 0;
    for first in 0..levels.len() {
        for second in 0..=first {
            for op1 in levels[first].iter() {
                for op2 in levels[second].iter() {
                    let tokens = vec![id("a"), op1.clone(), id("b"), op2.clone(), id("c"), Token::Semicolon];
                    assert_eq!(
                        expression(tokens),
                        Ok(bin(bin(sym("a"), op1.clone(), sym("b")), op2.clone(), sym("c")))
                    );
                    pairs += 1;
                }
            }
        }
    }
    assert_eq!(pairs, 3 * 3 + 6 * (3 + 6) + 2 * (3 + 6 + 2) + 4 * (3 + 6 + 2 + 4));
}

#[test]
fn product_is_formed_before_the_sum_behind_it() {
    let tokens = vec![
        Token::Integer(1),
        Token::Multiply,
        Token::Integer(2),
        Token::Plus,
        Token::Integer(3),
        Token::Semicolon,
        Token::EOF,
    ];
    let mut parser = Parser::new(tokens);
    assert_eq!(
        parse_expression(&mut parser, BindingPower::Default),
        Ok(bin(bin(Expr::Int(1), Token::Multiply, Expr::Int(2)), Token::Plus, Expr::Int(3)))
    );
    assert_eq!(parser.position(), 5);
    // a < b + c * d && e  is  ((a < (b + (c * d))) && e)
    let tokens = vec![
        id("a"),
        Token::Less,
        id("b"),
        Token::Plus,
        id("c"),
        Token::Multiply,
        id("d"),
        Token::And,
        id("e"),
        Token::EOF,
    ];
    let product = bin(sym("c"), Token::Multiply, sym("d"));
    let sum = bin(sym("b"), Token::Plus, product);
    let comparison = bin(sym("a"), Token::Less, sum);
    assert_eq!(expression(tokens), Ok(bin(comparison, Token::And, sym("e"))));
}

#[test]
fn tighter_operator_groups_first_for_every_pair_of_levels() {
    let levels = binary_levels();
    let mut pairs = 0;
    for low in 0..levels.len() {
        for high in (low + 1)..levels.len() {
            for op1 in levels[low].iter() {
                for op2 in levels[high].iter() {
                    let tokens = vec![id("a"), op1.clone(), id("b"), op2.clone(), id("c"), Token::EOF];
                    assert_eq!(
                        expression(tokens),
                        Ok(bin(sym("a"), op1.clone(), bin(sym("b"), op2.clone(), sym("c"))))
                    );
                    pairs += 1;
                }
            }
        }
    }
    assert_eq!(pairs, 3 * 6 + 3 * 2 + 3 * 4 + 6 * 2 + 6 * 4 + 2 * 4);
}

#[test]
fn additive_then_multiplicative() {
    let tokens = vec![Token::Integer(1), Token::Plus, Token::Integer(2), Token::Multiply, Token::Integer(3), Token::EOF];
    assert_eq!(
        expression(tokens),
        Ok(bin(Expr::Int(1), Token::Plus, bin(Expr::Int(2), Token::Multiply, Expr::Int(3))))
    );
}

#[test]
fn expression_stops_at_the_threshold() {
    let mut parser = Parser::new(vec![id("a"), Token::Plus, id("b"), Token::EOF]);
    assert_eq!(parse_expression(&mut parser, BindingPower::Additive), Ok(sym("a")));
    assert_eq!(parser.position(), 1);
    let mut parser = Parser::new(vec![id("a"), Token::Plus, id("b"), Token::Equals, id("c"), Token::EOF]);
    assert_eq!(
        parse_expression(&mut parser, BindingPower::Relational),
        Ok(bin(sym("a"), Token::Plus, sym("b")))
    );
    assert_eq!(parser.position(), 3);
    let mut parser = Parser::new(vec![id("a"), Token::Plus, id("b"), Token::Multiply, id("c"), Token::EOF]);
    assert_eq!(
        parse_expression(&mut parser, BindingPower::Relational),
        Ok(bin(sym("a"), Token::Plus, bin(sym("b"), Token::Multiply, sym("c"))))
    );
    assert_eq!(parser.position(), 5);
}

#[test]
fn right_operand_is_parsed_under_the_power_of_the_operator() {
    // The handler is given the lowest threshold; the operand ends at `+`
    // all the same, for `+` binds no tighter than `*`.
    let mut parser = Parser::new(vec![Token::Multiply, id("b"), Token::Plus, id("c"), Token::EOF]);
    assert_eq!(
        parse_binary_expression(&mut parser, sym("a"), BindingPower::Default),
        Ok(bin(sym("a"), Token::Multiply, sym("b")))
    );
    assert_eq!(parser.position(), 2);
    let mut parser = Parser::new(vec![Token::Plus, id("b"), Token::Multiply, id("c"), Token::EOF]);
    assert_eq!(
        parse_binary_expression(&mut parser, sym("a"), BindingPower::Default),
        Ok(bin(sym("a"), Token::Plus, bin(sym("b"), Token::Multiply, sym("c"))))
    );
    assert_eq!(parser.position(), 4);
}

#[test]
fn binary_handler_on_its_own() {
    let mut parser = Parser::new(vec![Token::Minus, Token::Integer(2), Token::EOF]);
    assert_eq!(
        parse_binary_expression(&mut parser, Expr::Int(1), BindingPower::Default),
        Ok(bin(Expr::Int(1), Token::Minus, Expr::Int(2)))
    );
    assert_eq!(parser.position(), 2);
}

#[test]
fn grouped_expression() {
    let tokens = vec![
        Token::OpenParen,
        Token::Integer(1),
        Token::Plus,
        Token::Integer(2),
        Token::CloseParen,
        Token::Multiply,
        Token::Integer(3),
        Token::EOF,
    ];
    assert_eq!(
        expression(tokens),
        Ok(bin(bin(Expr::Int(1), Token::Plus, Expr::Int(2)), Token::Multiply, Expr::Int(3)))
    );
    let mut parser = Parser::new(vec![Token::OpenParen, Token::Integer(1), Token::EOF]);
    assert_eq!(
        parse_grouped_expression(&mut parser),
        Err(err(ParseErrorKind::Expected(TokenKind::CloseParen), 2))
    );
}

#[test]
fn prefix_expression() {
    let tokens = vec![Token::Minus, Token::Integer(5), Token::EOF];
    assert_eq!(expression(tokens), Ok(Expr::Prefix { op: Token::Minus, right: Box::new(Expr::Int(5)) }));
    let tokens = vec![Token::Not, id("done"), Token::EOF];
    assert_eq!(expression(tokens), Ok(Expr::Prefix { op: Token::Not, right: Box::new(sym("done")) }));
    let mut parser = Parser::new(vec![Token::Minus, Token::Plus]);
    assert_eq!(parse_prefix_expression(&mut parser), Err(err(ParseErrorKind::NoPrefixHandler, 1)));
    let mut parser = Parser::new(vec![Token::Minus]);
    assert_eq!(parse_prefix_expression(&mut parser), Err(err(ParseErrorKind::UnexpectedEnd, 1)));
}

#[test]
fn assignment_expression() {
    let tokens = vec![id("x"), Token::Assignment, Token::Integer(1), Token::Plus, Token::Integer(2), Token::EOF];
    assert_eq!(
        expression(tokens),
        Ok(Expr::Assignment {
            assignee: Box::new(sym("x")),
            right: Box::new(bin(Expr::Int(1), Token::Plus, Expr::Int(2))),
        })
    );
    let mut parser = Parser::new(vec![Token::Assignment, Token::Integer(7), Token::EOF]);
    assert_eq!(
        parse_assignment_expression(&mut parser, sym("y"), BindingPower::Default),
        Ok(Expr::Assignment { assignee: Box::new(sym("y")), right: Box::new(Expr::Int(7)) })
    );
}

#[test]
fn compound_assignment_duplicates_the_assignee() {
    let tokens = vec![id("x"), Token::PlusEquals, Token::Integer(1), Token::EOF];
    assert_eq!(
        expression(tokens),
        Ok(Expr::Assignment {
            assignee: Box::new(sym("x")),
            right: Box::new(bin(sym("x"), Token::Plus, Expr::Int(1))),
        })
    );
    let tokens = vec![id("x"), Token::MinusEquals, id("y"), Token::EOF];
    assert_eq!(
        expression(tokens),
        Ok(Expr::Assignment {
            assignee: Box::new(sym("x")),
            right: Box::new(bin(sym("x"), Token::Minus, sym("y"))),
        })
    );
    let mut parser = Parser::new(vec![Token::PlusEquals, Token::Integer(1)]);
    assert_eq!(
        parse_op_equals_expression(&mut parser, Expr::Int(1), BindingPower::Default),
        Err(err(ParseErrorKind::OpAssignTargetNotSymbol, 0))
    );
    let mut parser = Parser::new(vec![Token::Plus, Token::Integer(1)]);
    assert_eq!(
        parse_op_equals_expression(&mut parser, sym("x"), BindingPower::Default),
        Err(err(ParseErrorKind::InvalidOpAssign, 0))
    );
}

#[test]
fn call_expression() {
    let tokens = vec![
        id("add"),
        Token::OpenParen,
        Token::Integer(2),
        Token::Comma,
        Token::Integer(3),
        Token::CloseParen,
        Token::EOF,
    ];
    assert_eq!(
        expression(tokens),
        Ok(Expr::Call { name: "add".to_string(), args: vec![Expr::Int(2), Expr::Int(3)] })
    );
    let tokens = vec![id("f"), Token::OpenParen, Token::CloseParen, Token::EOF];
    assert_eq!(expression(tokens), Ok(Expr::Call { name: "f".to_string(), args: vec![] }));
    let mut parser = Parser::new(vec![Token::OpenParen, Token::CloseParen]);
    assert_eq!(
        parse_call_expression(&mut parser, Expr::Int(1), BindingPower::Default),
        Err(err(ParseErrorKind::CalleeNotSymbol, 0))
    );
    let tokens = vec![id("f"), Token::OpenParen, Token::Integer(1), Token::Integer(2), Token::CloseParen, Token::EOF];
    assert_eq!(expression(tokens), Err(err(ParseErrorKind::Expected(TokenKind::Comma), 3)));
    let tokens = vec![id("f"), Token::OpenParen, Token::Integer(1), Token::EOF];
    assert_eq!(expression(tokens), Err(err(ParseErrorKind::Expected(TokenKind::Comma), 3)));
}

#[test]
fn access_expression() {
    let tokens = vec![id("p"), Token::Dot, id("x"), Token::EOF];
    assert_eq!(expression(tokens), Ok(Expr::Access { lhs: Box::new(sym("p")), rhs: Box::new(sym("x")) }));
    let mut parser = Parser::new(vec![Token::Dot, Token::Integer(1)]);
    assert_eq!(
        parse_access_expression(&mut parser, sym("p"), BindingPower::Default),
        Err(err(ParseErrorKind::Expected(TokenKind::Identifier), 1))
    );
}

#[test]
fn struct_create_expression() {
    let tokens = vec![
        Token::New,
        id("Point"),
        Token::OpenCurly,
        id("x"),
        Token::Colon,
        Token::Integer(1),
        Token::Comma,
        id("y"),
        Token::Colon,
        Token::Integer(2),
        Token::CloseCurly,
        Token::EOF,
    ];
    let expected = Expr::StructInitialize {
        name: "Point".to_string(),
        fields: vec![
            Stmt::StructInitField { name: "x".to_string(), value: Box::new(Expr::Int(1)) },
            Stmt::StructInitField { name: "y".to_string(), value: Box::new(Expr::Int(2)) },
        ],
    };
    assert_eq!(expression(tokens), Ok(expected));
    let mut parser = Parser::new(vec![Token::New, Token::Integer(1)]);
    assert_eq!(
        parse_struct_create_expression(&mut parser),
        Err(err(ParseErrorKind::Expected(TokenKind::Identifier), 1))
    );
    let mut parser = Parser::new(vec![Token::New, id("P"), Token::OpenCurly, id("x"), Token::Integer(1)]);
    assert_eq!(
        parse_struct_create_expression(&mut parser),
        Err(err(ParseErrorKind::Expected(TokenKind::Colon), 4))
    );
}

#[test]
fn missing_handlers_are_errors() {
    assert_eq!(expression(vec![Token::Plus, Token::EOF]), Err(err(ParseErrorKind::NoPrefixHandler, 0)));
    assert_eq!(expression(vec![Token::EOF]), Err(err(ParseErrorKind::NoPrefixHandler, 0)));
    assert_eq!(expression(vec![]), Err(err(ParseErrorKind::UnexpectedEnd, 0)));
    assert_eq!(expression(vec![Token::Integer(1)]), Err(err(ParseErrorKind::UnexpectedEnd, 1)));
    // `if` binds at the lowest power, so it ends an expression at the
    // lowest threshold; `mut` likewise.
    assert_eq!(expression(vec![Token::Integer(1), Token::If]), Ok(Expr::Int(1)));
}

#[test]
fn types() {
    let mut parser = Parser::new(vec![id("i32"), Token::EOF]);
    assert_eq!(parse_type(&mut parser, BindingPower::Default), Ok(Type::Symbol("i32".to_string())));
    let mut parser = Parser::new(vec![Token::Reference, id("Point"), Token::EOF]);
    assert_eq!(
        parse_type(&mut parser, BindingPower::Default),
        Ok(Type::Ref(Box::new(Type::Symbol("Point".to_string()))))
    );
    let mut parser = Parser::new(vec![Token::OpenBracket, Token::CloseBracket, id("i8"), Token::EOF]);
    assert_eq!(
        parse_type(&mut parser, BindingPower::Default),
        Ok(Type::Array(Box::new(Type::Symbol("i8".to_string()))))
    );
    let mut parser = Parser::new(vec![Token::Integer(1), Token::EOF]);
    assert_eq!(parse_type(&mut parser, BindingPower::Default), Err(err(ParseErrorKind::NoTypePrefixHandler, 0)));
    let mut parser = Parser::new(vec![id("i32")]);
    assert_eq!(parse_type(&mut parser, BindingPower::Default), Err(err(ParseErrorKind::UnexpectedEnd, 1)));
    let mut parser = Parser::new(vec![id("i32"), Token::EOF]);
    assert_eq!(parse_symbol_type(&mut parser), Ok(Type::Symbol("i32".to_string())));
    let mut parser = Parser::new(vec![Token::OpenBracket, id("i32"), Token::EOF]);
    assert_eq!(parse_array_type(&mut parser), Err(err(ParseErrorKind::Expected(TokenKind::CloseBracket), 1)));
    let mut parser = Parser::new(vec![Token::Reference, Token::Reference, id("T"), Token::EOF]);
    assert_eq!(
        parse_ref_type(&mut parser),
        Ok(Type::Ref(Box::new(Type::Ref(Box::new(Type::Symbol("T".to_string()))))))
    );
}

#[test]
fn a_type_is_followed_by_an_assignment_sign() {
    let tokens = vec![
        Token::Mut,
        id("x"),
        Token::Colon,
        id("i32"),
        Token::Assignment,
        Token::Integer(5),
        Token::Semicolon,
        Token::EOF,
    ];
    let mut parser = Parser::new(tokens);
    assert_eq!(
        parse_var_decl(&mut parser),
        Ok(Stmt::VariableDeclaration {
            name: "x".to_string(),
            mutable: true,
            explicit_type: Some(ty("i32")),
            value: Box::new(Expr::Int(5)),
        })
    );
    assert_eq!(parser.position(), 7);
}

#[test]
fn variable_declarations() {
    let tokens = vec![Token::Immut, id("x"), Token::Assignment, Token::Integer(5), Token::Semicolon, Token::EOF];
    assert_eq!(
        Parser::parse(tokens),
        Ok(Stmt::Block(vec![Stmt::VariableDeclaration {
            name: "x".to_string(),
            mutable: false,
            explicit_type: None,
            value: Box::new(Expr::Int(5)),
        }]))
    );
    let mut parser = Parser::new(vec![Token::Mut, Token::Integer(1)]);
    assert_eq!(parse_var_decl(&mut parser), Err(err(ParseErrorKind::Expected(TokenKind::Identifier), 1)));
    let mut parser = Parser::new(vec![Token::Mut, id("x"), Token::Semicolon]);
    assert_eq!(parse_var_decl(&mut parser), Err(err(ParseErrorKind::Expected(TokenKind::Assignment), 2)));
    let mut parser = Parser::new(vec![Token::Mut, id("x"), Token::Assignment, Token::Integer(1), Token::EOF]);
    assert_eq!(parse_var_decl(&mut parser), Err(err(ParseErrorKind::Expected(TokenKind::Semicolon), 4)));
}

fn add_function_tokens() -> Vec<Token> {
    vec![
        id("add"),
        Token::Arrow,
        Token::Subroutine,
        Token::OpenParen,
        id("a"),
        Token::Colon,
        id("i32"),
        Token::Comma,
        id("b"),
        Token::Colon,
        id("i32"),
        Token::CloseParen,
        id("i32"),
        Token::OpenCurly,
        Token::Return,
        id("a"),
        Token::Plus,
        id("b"),
        Token::Semicolon,
        Token::CloseCurly,
    ]
}

fn add_function() -> Stmt {
    Stmt::FunctionDeclaration {
        name: "add".to_string(),
        return_type: ty("i32"),
        arguments: vec![field("a", "i32"), field("b", "i32")],
        body: Box::new(Stmt::Block(vec![Stmt::Return {
            value: Box::new(bin(sym("a"), Token::Plus, sym("b"))),
        }])),
    }
}

#[test]
fn function_declaration() {
    let mut tokens = add_function_tokens();
    tokens.push(Token::EOF);
    assert_eq!(Parser::parse(tokens), Ok(Stmt::Block(vec![add_function()])));
}

#[test]
fn function_without_return_type_returns_void() {
    let tokens = vec![
        id("main"),
        Token::Arrow,
        Token::Subroutine,
        Token::OpenParen,
        Token::CloseParen,
        Token::OpenCurly,
        Token::CloseCurly,
        Token::EOF,
    ];
    assert_eq!(
        Parser::parse(tokens),
        Ok(Stmt::Block(vec![Stmt::FunctionDeclaration {
            name: "main".to_string(),
            return_type: ty("void"),
            arguments: vec![],
            body: Box::new(Stmt::Block(vec![])),
        }]))
    );
}

#[test]
fn receiver_parameters() {
    let tokens = vec![
        Token::OpenParen,
        id("this"),
        Token::Comma,
        id("n"),
        Token::Colon,
        id("i32"),
        Token::CloseParen,
        Token::OpenCurly,
        Token::CloseCurly,
        Token::EOF,
    ];
    let mut parser = Parser::new(tokens);
    assert_eq!(
        parse_function_declaration(&mut parser, "get".to_string()),
        Ok(Stmt::FunctionDeclaration {
            name: "get".to_string(),
            return_type: ty("void"),
            arguments: vec![field("this", "this"), field("n", "i32")],
            body: Box::new(Stmt::Block(vec![])),
        })
    );
    let tokens = vec![
        Token::OpenParen,
        Token::Reference,
        id("this"),
        Token::CloseParen,
        Token::OpenCurly,
        Token::CloseCurly,
        Token::EOF,
    ];
    let mut parser = Parser::new(tokens);
    assert_eq!(
        parse_function_declaration(&mut parser, "set".to_string()),
        Ok(Stmt::FunctionDeclaration {
            name: "set".to_string(),
            return_type: ty("void"),
            arguments: vec![Stmt::Field {
                name: "this".to_string(),
                _type: Box::new(Type::Ref(ty("this"))),
            }],
            body: Box::new(Stmt::Block(vec![])),
        })
    );
    let mut parser = Parser::new(vec![Token::OpenParen, Token::Reference, id("that"), Token::CloseParen]);
    assert_eq!(
        parse_function_declaration(&mut parser, "f".to_string()),
        Err(err(ParseErrorKind::ReceiverNotThis, 2))
    );
    let mut parser = Parser::new(vec![Token::OpenParen, Token::Integer(1), Token::CloseParen]);
    assert_eq!(
        parse_function_declaration(&mut parser, "f".to_string()),
        Err(err(ParseErrorKind::ExpectedParameter, 1))
    );
    let mut parser = Parser::new(vec![Token::OpenParen, id("a"), id("i32"), Token::CloseParen]);
    assert_eq!(
        parse_function_declaration(&mut parser, "f".to_string()),
        Err(err(ParseErrorKind::Expected(TokenKind::Colon), 2))
    );
}

#[test]
fn struct_declaration() {
    let tokens = vec![
        id("Point"),
        Token::Arrow,
        Token::Struct,
        Token::OpenCurly,
        id("x"),
        Token::Colon,
        id("i32"),
        Token::Comma,
        id("norm"),
        Token::Arrow,
        Token::Subroutine,
        Token::OpenParen,
        id("this"),
        Token::CloseParen,
        id("i32"),
        Token::OpenCurly,
        Token::CloseCurly,
        id("y"),
        Token::Colon,
        id("i32"),
        Token::CloseCurly,
        Token::EOF,
    ];
    assert_eq!(
        Parser::parse(tokens),
        Ok(Stmt::Block(vec![Stmt::StructDeclaration {
            name: "Point".to_string(),
            fields: vec![field("x", "i32"), field("y", "i32")],
            functions: vec![Stmt::FunctionDeclaration {
                name: "norm".to_string(),
                return_type: ty("i32"),
                arguments: vec![field("this", "this")],
                body: Box::new(Stmt::Block(vec![])),
            }],
        }]))
    );
    let mut parser = Parser::new(vec![Token::OpenCurly, id("x"), Token::Colon, id("i32"), Token::EOF]);
    assert_eq!(
        parse_struct_declaration(&mut parser, "P".to_string()),
        Err(err(ParseErrorKind::Expected(TokenKind::Comma), 4))
    );
    let mut parser = Parser::new(vec![Token::OpenCurly, Token::EOF]);
    assert_eq!(
        parse_struct_declaration(&mut parser, "P".to_string()),
        Err(err(ParseErrorKind::Expected(TokenKind::CloseCurly), 1))
    );
}

#[test]
fn extern_declaration() {
    let tokens = vec![
        id("print"),
        Token::Arrow,
        Token::Extern,
        Token::OpenBracket,
        id("puts"),
        Token::OpenParen,
        id("s"),
        Token::Colon,
        id("string"),
        Token::CloseParen,
        id("i32"),
        Token::Semicolon,
        Token::EOF,
    ];
    assert_eq!(
        Parser::parse(tokens),
        Ok(Stmt::Block(vec![Stmt::Extern {
            name: "print".to_string(),
            symbol: "puts".to_string(),
            return_type: ty("i32"),
            arguments: vec![field("s", "string")],
        }]))
    );
    let tokens = vec![Token::OpenParen, Token::CloseParen, Token::Semicolon, Token::EOF];
    let mut parser = Parser::new(tokens);
    assert_eq!(
        parse_extern(&mut parser, "exit".to_string()),
        Ok(Stmt::Extern {
            name: "exit".to_string(),
            symbol: "exit".to_string(),
            return_type: ty("void"),
            arguments: vec![],
        })
    );
    let mut parser = Parser::new(vec![Token::OpenParen, Token::Integer(1), Token::CloseParen]);
    assert_eq!(parse_extern(&mut parser, "f".to_string()), Err(err(ParseErrorKind::ExpectedParameter, 1)));
}

#[test]
fn arrow_expression_errors() {
    let mut parser = Parser::new(vec![Token::Arrow, Token::Subroutine]);
    assert_eq!(
        parse_arrow_expression(&mut parser, Expr::Int(1), BindingPower::Default),
        Err(err(ParseErrorKind::ArrowTargetNotSymbol, 0))
    );
    let mut parser = Parser::new(vec![Token::Arrow, Token::If]);
    assert_eq!(
        parse_arrow_expression(&mut parser, sym("f"), BindingPower::Default),
        Err(err(ParseErrorKind::ExpectedDeclaration, 1))
    );
    let mut parser = Parser::new(vec![Token::Plus]);
    assert_eq!(
        parse_arrow_expression(&mut parser, sym("f"), BindingPower::Default),
        Err(err(ParseErrorKind::Expected(TokenKind::Arrow), 0))
    );
}

#[test]
fn if_else_chain() {
    let tokens = vec![
        Token::If,
        id("a"),
        Token::OpenCurly,
        Token::CloseCurly,
        Token::Else,
        Token::If,
        id("b"),
        Token::OpenCurly,
        Token::CloseCurly,
        Token::Else,
        Token::OpenCurly,
        Token::Return,
        Token::Integer(1),
        Token::Semicolon,
        Token::CloseCurly,
        Token::EOF,
    ];
    let expected = Stmt::If {
        condition: Box::new(sym("a")),
        body: Box::new(Stmt::Block(vec![])),
        _else: Some(Box::new(Stmt::If {
            condition: Box::new(sym("b")),
            body: Box::new(Stmt::Block(vec![])),
            _else: Some(Box::new(Stmt::Block(vec![Stmt::Return { value: Box::new(Expr::Int(1)) }]))),
        })),
    };
    assert_eq!(Parser::parse(tokens), Ok(Stmt::Block(vec![expected])));
    let tokens = vec![Token::If, Token::True, Token::OpenCurly, Token::CloseCurly, Token::EOF];
    let mut parser = Parser::new(tokens);
    assert_eq!(
        parse_if(&mut parser),
        Ok(Stmt::If { condition: Box::new(Expr::Bool(true)), body: Box::new(Stmt::Block(vec![])), _else: None })
    );
    let mut parser = Parser::new(vec![Token::If, Token::True, Token::OpenCurly, Token::CloseCurly]);
    assert_eq!(parse_if(&mut parser), Err(err(ParseErrorKind::UnexpectedEnd, 4)));
}

#[test]
fn link_and_include_directives() {
    let tokens = vec![
        Token::LinkLib,
        Token::String("m".to_string()),
        Token::LinkStatic,
        Token::String("libx.a".to_string()),
        Token::Include,
        Token::String("util.ig".to_string()),
        Token::EOF,
    ];
    assert_eq!(
        Parser::parse(tokens),
        Ok(Stmt::Block(vec![
            Stmt::Link { library: "m".to_string(), _static: false },
            Stmt::Link { library: "libx.a".to_string(), _static: true },
            Stmt::Include { path: "util.ig".to_string() },
        ]))
    );
    let mut parser = Parser::new(vec![Token::LinkLib, id("m")]);
    assert_eq!(parse_link_lib(&mut parser), Err(err(ParseErrorKind::Expected(TokenKind::String), 1)));
    let mut parser = Parser::new(vec![Token::LinkStatic]);
    assert_eq!(parse_link_static(&mut parser), Err(err(ParseErrorKind::UnexpectedEnd, 1)));
    let mut parser = Parser::new(vec![Token::Include, Token::Integer(1)]);
    assert_eq!(parse_include(&mut parser), Err(err(ParseErrorKind::Expected(TokenKind::String), 1)));
}

#[test]
fn return_statement() {
    let mut parser = Parser::new(vec![Token::Return, Token::Integer(0), Token::Semicolon, Token::EOF]);
    assert_eq!(parse_return(&mut parser), Ok(Stmt::Return { value: Box::new(Expr::Int(0)) }));
    let mut parser = Parser::new(vec![Token::Return, Token::Integer(0), Token::EOF]);
    assert_eq!(parse_return(&mut parser), Err(err(ParseErrorKind::Expected(TokenKind::Semicolon), 2)));
}

#[test]
fn expression_statement_needs_a_semicolon() {
    let tokens = vec![id("f"), Token::OpenParen, Token::CloseParen, Token::Semicolon, Token::EOF];
    let mut parser = Parser::new(tokens);
    assert_eq!(
        parse_stmt(&mut parser),
        Ok(Stmt::Expression(Box::new(Expr::Call { name: "f".to_string(), args: vec![] })))
    );
    let tokens = vec![id("f"), Token::OpenParen, Token::CloseParen, Token::EOF];
    assert_eq!(Parser::parse(tokens), Err(err(ParseErrorKind::Expected(TokenKind::Semicolon), 3)));
}

#[test]
fn parser_with_registries_of_its_own() {
    let mut lookup: PrattLookups<NudHandler, LedHandler, StmtHandler> = PrattLookups::new();
    lookup.nud(Token::Integer(0), NudHandler::Primary);
    lookup.led(Token::Plus, BindingPower::Additive, LedHandler::Binary);
    // A statement handler gives `?` the lowest binding power and no
    // infix handler.
    lookup.stmt(Token::Question, StmtHandler::Return);
    let mut types: PrattLookups<TypeNudHandler, TypeLedHandler, StmtHandler> = PrattLookups::new();
    types.nud(Token::Identifier(String::new()), TypeNudHandler::Symbol);
    types.led(Token::Less, BindingPower::Call, TypeLedHandler::Unsupported);
    types.stmt(Token::Comma, StmtHandler::Return);

    let tokens = vec![Token::Integer(1), Token::Plus, Token::Integer(2), Token::Question, Token::EOF];
    let mut parser = Parser::with_lookups(tokens, lookup, types);
    assert_eq!(parser.position(), 0);
    // At the lowest threshold `?` ends the expression.
    assert_eq!(
        parse_expression(&mut parser, BindingPower::Default),
        Ok(bin(Expr::Int(1), Token::Plus, Expr::Int(2)))
    );
    assert_eq!(parser.position(), 3);
    // The other registries are empty: `-` has no handler of any kind.
    assert_eq!(parser.get_led(&Token::Minus), None);
    assert_eq!(parser.get_bp(&Token::Minus), None);
    assert_eq!(parser.get_type_bp(&Token::Less), Some(&BindingPower::Call));
    assert_eq!(parser.get_type_led(&Token::Less), Some(&TypeLedHandler::Unsupported));
}

#[test]
fn type_that_is_continued_is_an_error() {
    let lookup: PrattLookups<NudHandler, LedHandler, StmtHandler> = PrattLookups::new();
    let mut types: PrattLookups<TypeNudHandler, TypeLedHandler, StmtHandler> = PrattLookups::new();
    types.nud(Token::Identifier(String::new()), TypeNudHandler::Symbol);
    types.led(Token::Less, BindingPower::Call, TypeLedHandler::Unsupported);
    let tokens = vec![id("List"), Token::Less, id("i32"), Token::EOF];
    let mut parser = Parser::with_lookups(tokens, lookup, types);
    assert_eq!(parse_type(&mut parser, BindingPower::Default), Err(err(ParseErrorKind::NoTypeInfixHandler, 1)));
    let lookup: PrattLookups<NudHandler, LedHandler, StmtHandler> = PrattLookups::new();
    let mut types: PrattLookups<TypeNudHandler, TypeLedHandler, StmtHandler> = PrattLookups::new();
    types.nud(Token::Identifier(String::new()), TypeNudHandler::Symbol);
    types.led(Token::Less, BindingPower::Call, TypeLedHandler::Unsupported);
    let tokens = vec![id("List"), Token::Less, id("i32"), Token::EOF];
    let mut parser = Parser::with_lookups(tokens, lookup, types);
    assert_eq!(parse_type(&mut parser, BindingPower::Call), Ok(Type::Symbol("List".to_string())));
    assert_eq!(parser.position(), 1);
}

#[test]
fn token_without_binding_power_ends_the_expression() {
    let tokens = vec![Token::Integer(1), Token::Question, Token::EOF];
    assert_eq!(expression(tokens), Ok(Expr::Int(1)));
}

#[test]
fn two_function_program() {
    let mut tokens = add_function_tokens();
    tokens.extend(vec![
        id("main"),
        Token::Arrow,
        Token::Subroutine,
        Token::OpenParen,
        Token::CloseParen,
        Token::OpenCurly,
        Token::Return,
        id("add"),
        Token::OpenParen,
        Token::Integer(2),
        Token::Comma,
        Token::Integer(3),
        Token::CloseParen,
        Token::Semicolon,
        Token::CloseCurly,
        Token::EOF,
    ]);
    let main = Stmt::FunctionDeclaration {
        name: "main".to_string(),
        return_type: ty("void"),
        arguments: vec![],
        body: Box::new(Stmt::Block(vec![Stmt::Return {
            value: Box::new(Expr::Call { name: "add".to_string(), args: vec![Expr::Int(2), Expr::Int(3)] }),
        }])),
    };
    assert_eq!(Parser::parse(tokens), Ok(Stmt::Block(vec![add_function(), main])));
}

#[test]
fn parsing_twice_gives_the_same_tree() {
    let mut tokens = add_function_tokens();
    tokens.push(Token::EOF);
    let mut again = add_function_tokens();
    again.push(Token::EOF);
    assert_eq!(Parser::parse(tokens), Parser::parse(again));
    let bad = vec![id("x"), Token::Plus, Token::EOF];
    let bad_again = vec![id("x"), Token::Plus, Token::EOF];
    assert_eq!(Parser::parse(bad), Parser::parse(bad_again));
}

#[test]
fn copy_of_a_tree_is_the_same_tree() {
    let declaration = Stmt::VariableDeclaration {
        name: "p".to_string(),
        mutable: true,
        explicit_type: Some(Box::new(Type::Array(Box::new(Type::Ref(ty("Point")))))),
        value: Box::new(Expr::StructInitialize {
            name: "Point".to_string(),
            fields: vec![
                Stmt::StructInitField { name: "x".to_string(), value: Box::new(Expr::Float(1.5f64.to_bits())) },
                Stmt::StructInitField {
                    name: "y".to_string(),
                    value: Box::new(Expr::Prefix { op: Token::Not, right: Box::new(Expr::Bool(false)) }),
                },
            ],
        }),
    };
    let record = Stmt::StructDeclaration {
        name: "Point".to_string(),
        fields: vec![field("x", "f32"), field("y", "bool")],
        functions: vec![add_function()],
    };
    let branch = Stmt::If {
        condition: Box::new(bin(sym("a"), Token::Less, Expr::Int(3))),
        body: Box::new(Stmt::Block(vec![Stmt::Expression(Box::new(Expr::Assignment {
            assignee: Box::new(Expr::Access { lhs: Box::new(sym("p")), rhs: Box::new(sym("x")) }),
            right: Box::new(Expr::Array(vec![Expr::String("s".to_string()), Expr::Int(-1)])),
        }))])),
        _else: Some(Box::new(Stmt::While {
            condition: Box::new(Expr::Bool(true)),
            body: Box::new(Stmt::Block(vec![Stmt::Return {
                value: Box::new(Expr::Call { name: "f".to_string(), args: vec![sym("a"), Expr::Int(2)] }),
            }])),
        })),
    };
    let outside = Stmt::Extern {
        name: "print".to_string(),
        symbol: "puts".to_string(),
        return_type: ty("void"),
        arguments: vec![field("text", "string")],
    };
    let program = Stmt::Block(vec![
        Stmt::Include { path: "b.ig".to_string() },
        Stmt::Link { library: "m".to_string(), _static: true },
        record,
        outside,
        declaration,
        branch,
        Stmt::Expression(Box::new(Expr::StmtHack(add_function()))),
    ]);
    let copy = program.clone();
    assert_eq!(copy, program);
    let Stmt::Block(items) = copy else { unreachable!() };
    assert_eq!(items.len(), 7);
    assert_eq!(items[6], Stmt::Expression(Box::new(Expr::StmtHack(add_function()))));
    let t = Type::Array(Box::new(Type::Ref(ty("i32"))));
    assert_eq!(t.clone(), t);
    assert_ne!(t.clone(), Type::Ref(Box::new(Type::Array(ty("i32")))));
}

#[test]
fn parsing_stops_at_the_end_marker() {
    let tokens = vec![Token::Return, Token::Integer(1), Token::Semicolon, Token::EOF, Token::Plus];
    assert_eq!(
        Parser::parse(tokens),
        Ok(Stmt::Block(vec![Stmt::Return { value: Box::new(Expr::Int(1)) }]))
    );
    assert_eq!(Parser::parse(vec![]), Ok(Stmt::Block(vec![])));
    assert_eq!(Parser::parse(vec![Token::EOF]), Ok(Stmt::Block(vec![])));
}

#[test]
fn stream_without_end_marker_is_an_error() {
    let tokens = vec![Token::Return, Token::Integer(1)];
    assert_eq!(Parser::parse(tokens), Err(err(ParseErrorKind::UnexpectedEnd, 2)));
}
