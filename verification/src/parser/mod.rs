//! The parser: a cursor over the tokens, driven by the registries of the
//! language.

use vstd::prelude::*;
use crate::lexer::{Token, TokenKind, TokenV};
use ast::{lemma_stmts_view_push, stmts_view, Stmt};
use grammar::{language, spec_expect, spec_has_tokens, spec_parse, spec_program_items, Grammar, Parsed};
use handlers::statement::parse_stmt;
use pratt::{BindingPower, LedHandler, NudHandler, PrattLookups, StmtHandler, TypeLedHandler, TypeNudHandler};

pub mod ast;
pub mod grammar;
pub mod handlers;
pub mod lookup;
pub mod pratt;
pub mod precedence;
pub mod progress;

verus! {

/// Why a parse stopped.
#[derive(Clone, Copy, PartialEq, Eq, Structural, Debug)]
pub enum ParseErrorKind {
    /// The stream ended where a token was needed.
    UnexpectedEnd,
    /// No prefix handler is registered for the token.
    NoPrefixHandler,
    /// The token binds tighter than the threshold, and no infix handler is
    /// registered for it.
    NoInfixHandler,
    /// No prefix handler of types is registered for the token.
    NoTypePrefixHandler,
    /// The token binds tighter than the threshold behind a type.
    NoTypeInfixHandler,
    /// A token of the given kind was needed.
    Expected(TokenKind),
    /// The token is neither a literal nor a name.
    NotPrimary,
    /// The left side of `->` is not a name.
    ArrowTargetNotSymbol,
    /// Behind `->` stands none of `sub`, `struct` and the keyword of
    /// external functions.
    ExpectedDeclaration,
    /// What is called is not a name.
    CalleeNotSymbol,
    /// The left side of `+=` or `-=` is not a name.
    OpAssignTargetNotSymbol,
    /// The operator is neither `+=` nor `-=`.
    InvalidOpAssign,
    /// `ref` stands before a parameter other than `this`.
    ReceiverNotThis,
    /// A parameter starts with a token that is neither a name nor `ref`.
    ExpectedParameter,
}

/// The error that stopped a parse, and the index of the offending token.
#[derive(Clone, Copy, PartialEq, Eq, Structural, Debug)]
pub struct ParseError {
    pub kind: ParseErrorKind,
    pub position: usize,
}

/// A parser: the registries of the language, the tokens, and the index of
/// the token that is read next.
pub struct Parser {
    lookup: PrattLookups<NudHandler, LedHandler, StmtHandler>,
    type_lookup: PrattLookups<TypeNudHandler, TypeLedHandler, StmtHandler>,
    tokens: Vec<Token>,
    position: usize,
}

impl Parser {
    /// The registries of this parser.
    pub closed spec fn grammar(&self) -> Grammar {
        Grammar { exprs: self.lookup@, types: self.type_lookup@ }
    }

    /// The tokens of this parser.
    pub closed spec fn stream(&self) -> Seq<TokenV> {
        self.tokens.deep_view()
    }

    /// The index of the token that is read next.
    pub closed spec fn pos(&self) -> nat {
        self.position as nat
    }

    /// Whether `self` reads the same tokens under the same registries as `other`.
    pub open spec fn same_input(&self, other: &Parser) -> bool {
        self.grammar() == other.grammar() && self.stream() == other.stream()
    }

    /// A parser of the language at the start of `tokens`.
    pub fn new(tokens: Vec<Token>) -> (p: Self)
        ensures
            p.grammar() == language(),
            p.stream() == tokens.deep_view(),
            p.pos() == 0,
    {
        let mut lu: PrattLookups<NudHandler, LedHandler, StmtHandler> = PrattLookups::new();
        let mut tlu: PrattLookups<TypeNudHandler, TypeLedHandler, StmtHandler> = PrattLookups::new();

        lu.led(Token::And, BindingPower::Logical, LedHandler::Binary);
        lu.led(Token::Or, BindingPower::Logical, LedHandler::Binary);
        lu.led(Token::Range, BindingPower::Logical, LedHandler::Binary);

        lu.led(Token::Less, BindingPower::Relational, LedHandler::Binary);
        lu.led(Token::LessOrEqual, BindingPower::Relational, LedHandler::Binary);
        lu.led(Token::Greater, BindingPower::Relational, LedHandler::Binary);
        lu.led(Token::GreaterOrEqual, BindingPower::Relational, LedHandler::Binary);
        lu.led(Token::Equals, BindingPower::Relational, LedHandler::Binary);
        lu.led(Token::NotEquals, BindingPower::Relational, LedHandler::Binary);

        lu.led(Token::Plus, BindingPower::Additive, LedHandler::Binary);
        lu.led(Token::Minus, BindingPower::Additive, LedHandler::Binary);

        lu.led(Token::Assignment, BindingPower::Assignment, LedHandler::Assignment);

        lu.led(Token::Multiply, BindingPower::Multiplicative, LedHandler::Binary);
        lu.led(Token::Divide, BindingPower::Multiplicative, LedHandler::Binary);
        lu.led(Token::Power, BindingPower::Multiplicative, LedHandler::Binary);
        lu.led(Token::Mod, BindingPower::Multiplicative, LedHandler::Binary);

        lu.led(Token::Arrow, BindingPower::Primary, LedHandler::Arrow);

        lu.led(Token::Dot, BindingPower::Member, LedHandler::Access);
        lu.led(Token::OpenParen, BindingPower::Call, LedHandler::Call);

        lu.led(Token::PlusEquals, BindingPower::Call, LedHandler::OpEquals);
        lu.led(Token::MinusEquals, BindingPower::Call, LedHandler::OpEquals);

        lu.nud(Token::New, NudHandler::StructCreate);

        lu.nud(Token::Integer(0), NudHandler::Primary);
        lu.nud(Token::Decimel(0), NudHandler::Primary);
        lu.nud(Token::String(String::new()), NudHandler::Primary);
        lu.nud(Token::Identifier(String::new()), NudHandler::Primary);
        lu.nud(Token::True, NudHandler::Bool);
        lu.nud(Token::False, NudHandler::Bool);

        lu.nud(Token::OpenParen, NudHandler::Grouped);

        lu.nud(Token::Minus, NudHandler::Prefix);
        lu.nud(Token::Not, NudHandler::Prefix);

        lu.stmt(Token::If, StmtHandler::If);
        lu.stmt(Token::Mut, StmtHandler::VarDecl);
        lu.stmt(Token::Immut, StmtHandler::VarDecl);
        lu.stmt(Token::Return, StmtHandler::Return);
        lu.stmt(Token::LinkStatic, StmtHandler::LinkStatic);
        lu.stmt(Token::LinkLib, StmtHandler::LinkLib);
        lu.stmt(Token::Include, StmtHandler::Include);

        tlu.nud(Token::Identifier(String::new()), TypeNudHandler::Symbol);
        tlu.nud(Token::OpenBracket, TypeNudHandler::Array);
        tlu.nud(Token::Reference, TypeNudHandler::Ref);

        proof {
            assert(lu@.bp =~= language().exprs.bp);
            assert(lu@.nud =~= language().exprs.nud);
            assert(lu@.led =~= language().exprs.led);
            assert(lu@.stmt =~= language().exprs.stmt);
            assert(tlu@.nud =~= language().types.nud);
        }
        Self { lookup: lu, type_lookup: tlu, tokens, position: 0 }
    }

    /// A parser at the start of `tokens` that is driven by the given
    /// registries: `lookup` for expressions and statements, `type_lookup`
    /// for types.
    pub fn with_lookups(
        tokens: Vec<Token>,
        lookup: PrattLookups<NudHandler, LedHandler, StmtHandler>,
        type_lookup: PrattLookups<TypeNudHandler, TypeLedHandler, StmtHandler>,
    ) -> (p: Self)
        ensures
            p.grammar() == (Grammar { exprs: lookup@, types: type_lookup@ }),
            p.stream() == tokens.deep_view(),
            p.pos() == 0,
    {
        Self { lookup, type_lookup, tokens, position: 0 }
    }

    /// Parses a whole program: the block of the statements of `tokens`, up
    /// to the end marker.
    pub fn parse(tokens: Vec<Token>) -> (r: Result<Stmt, ParseError>)
        ensures
            match spec_parse(language(), tokens.deep_view()) {
                Ok(program) => r is Ok && r->Ok_0.deep_view() == program,
                Err(e) => r == Err::<Stmt, ParseError>(e),
            },
    {
        let ghost ts = tokens.deep_view();
        let mut body: Vec<Stmt> = Vec::new();
        let mut parser = Parser::new(tokens);
        while parser.has_tokens()
            invariant
                ts == tokens.deep_view(),
                parser.grammar() == language(),
                parser.stream() == ts,
                spec_program_items(language(), ts, 0, Seq::empty()) == spec_program_items(
                    language(),
                    ts,
                    parser.pos(),
                    stmts_view(body@),
                ),
            decreases ts.len() - parser.pos(),
        {
            let item = match parse_stmt(&mut parser) {
                Ok(s) => s,
                Err(e) => {
                    return Err(e);
                },
            };
            proof {
                lemma_stmts_view_push(body@, item);
            }
            body.push(item);
        }
        Ok(Stmt::Block(body))
    }

    /// The token that is read next.
    pub fn current(&self) -> (t: &Token)
        requires
            self.pos() < self.stream().len(),
        ensures
            t.deep_view() == self.stream()[self.pos() as int],
    {
        &self.tokens[self.position]
    }

    /// The token that was read last.
    pub fn last(&self) -> (t: &Token)
        requires
            0 < self.pos() <= self.stream().len(),
        ensures
            t.deep_view() == self.stream()[self.pos() - 1],
    {
        &self.tokens[self.position - 1]
    }

    /// Reads one token.
    pub fn advance(&mut self) -> (t: &Token)
        requires
            old(self).pos() < old(self).stream().len(),
        ensures
            final(self).same_input(old(self)),
            final(self).pos() == old(self).pos() + 1,
            t.deep_view() == old(self).stream()[old(self).pos() as int],
    {
        let n = self.tokens.len();
        assert(self.position < n);
        self.position += 1;
        &self.tokens[self.position - 1]
    }

    /// Whether a token other than the end marker is left to read.
    pub fn has_tokens(&self) -> (b: bool)
        ensures
            b == spec_has_tokens(self.stream(), self.pos()),
    {
        self.position < self.tokens.len() && !self.is_current_kind(Token::EOF)
    }

    /// The number of tokens, read or not.
    pub fn len(&self) -> (n: usize)
        ensures
            n == self.stream().len(),
    {
        self.tokens.len()
    }

    /// The index of the token that is read next.
    pub fn position(&self) -> (n: usize)
        ensures
            n == self.pos(),
    {
        self.position
    }

    pub fn get_stmt(&self, token: &Token) -> (r: Option<&StmtHandler>)
        ensures
            match r {
                Some(h) => self.grammar().exprs.stmt.dom().contains(token.kind())
                    && self.grammar().exprs.stmt[token.kind()] == *h,
                None => !self.grammar().exprs.stmt.dom().contains(token.kind()),
            },
    {
        self.lookup.get_stmt(token)
    }

    pub fn get_nud(&self, token: &Token) -> (r: Option<&NudHandler>)
        ensures
            match r {
                Some(h) => self.grammar().exprs.nud.dom().contains(token.kind())
                    && self.grammar().exprs.nud[token.kind()] == *h,
                None => !self.grammar().exprs.nud.dom().contains(token.kind()),
            },
    {
        self.lookup.get_nud(token)
    }

    pub fn get_type_nud(&self, token: &Token) -> (r: Option<&TypeNudHandler>)
        ensures
            match r {
                Some(h) => self.grammar().types.nud.dom().contains(token.kind())
                    && self.grammar().types.nud[token.kind()] == *h,
                None => !self.grammar().types.nud.dom().contains(token.kind()),
            },
    {
        self.type_lookup.get_nud(token)
    }

    pub fn get_led(&self, token: &Token) -> (r: Option<&LedHandler>)
        ensures
            match r {
                Some(h) => self.grammar().exprs.led.dom().contains(token.kind())
                    && self.grammar().exprs.led[token.kind()] == *h,
                None => !self.grammar().exprs.led.dom().contains(token.kind()),
            },
    {
        self.lookup.get_led(token)
    }

    pub fn get_type_led(&self, token: &Token) -> (r: Option<&TypeLedHandler>)
        ensures
            match r {
                Some(h) => self.grammar().types.led.dom().contains(token.kind())
                    && self.grammar().types.led[token.kind()] == *h,
                None => !self.grammar().types.led.dom().contains(token.kind()),
            },
    {
        self.type_lookup.get_led(token)
    }

    /// The binding power of `token` among expressions.
    pub fn get_bp(&self, token: &Token) -> (r: Option<&BindingPower>)
        ensures
            match r {
                Some(p) => self.grammar().exprs.bp.dom().contains(token.kind())
                    && self.grammar().exprs.bp[token.kind()] == *p,
                None => !self.grammar().exprs.bp.dom().contains(token.kind()),
            },
    {
        self.lookup.get_bp(token)
    }

    /// The binding power of `token` among types.
    pub fn get_type_bp(&self, token: &Token) -> (r: Option<&BindingPower>)
        ensures
            match r {
                Some(p) => self.grammar().types.bp.dom().contains(token.kind())
                    && self.grammar().types.bp[token.kind()] == *p,
                None => !self.grammar().types.bp.dom().contains(token.kind()),
            },
    {
        self.type_lookup.get_bp(token)
    }

    /// Reads a token of kind `kind`, or fails and reads nothing.
    pub fn expect_kind(&mut self, kind: TokenKind) -> (r: Result<&Token, ParseError>)
        ensures
            final(self).same_input(old(self)),
            match spec_expect(old(self).stream(), old(self).pos(), kind) {
                Ok(p) => final(self).pos() == p && r is Ok && r->Ok_0.deep_view() == old(self).stream()[old(
                    self,
                ).pos() as int],
                Err(e) => final(self).pos() == old(self).pos() && r == Err::<&Token, ParseError>(e),
            },
    {
        if self.position >= self.tokens.len() {
            return Err(ParseError { kind: ParseErrorKind::UnexpectedEnd, position: self.position });
        }
        if self.tokens[self.position].kind() == kind {
            return Ok(self.advance());
        }
        Err(ParseError { kind: ParseErrorKind::Expected(kind), position: self.position })
    }

    /// Whether the token that is read next is of kind `kind`.
    pub fn current_is(&self, kind: TokenKind) -> (b: bool)
        requires
            self.pos() < self.stream().len(),
        ensures
            b == (self.stream()[self.pos() as int].kind() == kind),
    {
        self.tokens[self.position].kind() == kind
    }

    /// Whether a list that a token of kind `close` ends goes on at the
    /// token that is read next.
    pub fn list_goes_on(&self, close: TokenKind) -> (b: bool)
        ensures
            b == grammar::list_goes_on(self.stream(), self.pos(), close),
    {
        if self.position >= self.tokens.len() {
            return false;
        }
        let kind = self.tokens[self.position].kind();
        kind != TokenKind::EOF && kind != close
    }

    /// Reads a token of the kind of `token`, or fails and reads nothing.
    pub fn expect(&mut self, token: Token) -> (r: Result<&Token, ParseError>)
        ensures
            final(self).same_input(old(self)),
            match spec_expect(old(self).stream(), old(self).pos(), token.kind()) {
                Ok(p) => final(self).pos() == p && r is Ok && r->Ok_0.deep_view() == old(self).stream()[old(
                    self,
                ).pos() as int],
                Err(e) => final(self).pos() == old(self).pos() && r == Err::<&Token, ParseError>(e),
            },
    {
        let kind = token.kind();
        self.expect_error(token, ParseErrorKind::Expected(kind))
    }

    /// Reads a token of the kind of `token`, or fails with the error
    /// `error` and reads nothing. Where no token is left the error is
    /// `UnexpectedEnd`.
    pub fn expect_error(&mut self, token: Token, error: ParseErrorKind) -> (r: Result<&Token, ParseError>)
        ensures
            final(self).same_input(old(self)),
            match r {
                Ok(t) => old(self).pos() < old(self).stream().len() && t.deep_view() == old(self).stream()[old(
                    self,
                ).pos() as int] && t.deep_view().kind() == token.kind() && final(self).pos() == old(self).pos()
                    + 1,
                Err(e) => final(self).pos() == old(self).pos() && e.position == old(self).pos() && (if old(
                    self,
                ).pos() < old(self).stream().len() {
                    old(self).stream()[old(self).pos() as int].kind() != token.kind() && e.kind == error
                } else {
                    e.kind == ParseErrorKind::UnexpectedEnd
                }),
            },
    {
        if self.position >= self.tokens.len() {
            return Err(ParseError { kind: ParseErrorKind::UnexpectedEnd, position: self.position });
        }
        if self.is_current_kind(token) {
            return Ok(self.advance());
        }
        Err(ParseError { kind: error, position: self.position })
    }

    /// Whether the token that is read next has the kind of `token`.
    pub fn is_current_kind(&self, token: Token) -> (b: bool)
        requires
            self.pos() < self.stream().len(),
        ensures
            b == (self.stream()[self.pos() as int].kind() == token.kind()),
    {
        is_kind(self.tokens[self.position].clone(), token)
    }
}

/// Whether `r`, which a parsing function returned that found the parser as
/// `before` and left it as `after`, is what the grammar gives as
/// `expected`. On success the parser stands behind the node, which is at
/// least one token long; on failure the error is the expected one.
pub open spec fn yields<T: DeepView>(
    before: &Parser,
    after: &Parser,
    r: Result<T, ParseError>,
    expected: Parsed<T::V>,
) -> bool {
    &&& after.same_input(before)
    &&& match expected {
        Ok((v, p)) => r is Ok && r->Ok_0.deep_view() == v && after.pos() == p && before.pos() < p
            <= before.stream().len(),
        Err(e) => r == Err::<T, ParseError>(e),
    }
}

/// A value that is of one of several kinds, and may carry more.
pub trait Kinded {
    /// Whether `self` and `other` are of one kind, whatever they carry.
    spec fn same_kind(&self, other: &Self) -> bool;

    /// Whether `self` and `other` are of one kind, whatever they carry.
    fn is_of_kind(&self, other: &Self) -> (b: bool)
        ensures
            b == self.same_kind(other),
    ;
}

impl Kinded for Token {
    open spec fn same_kind(&self, other: &Self) -> bool {
        self.kind() == other.kind()
    }

    fn is_of_kind(&self, other: &Self) -> (b: bool) {
        self.kind() == other.kind()
    }
}

impl Kinded for TokenKind {
    open spec fn same_kind(&self, other: &Self) -> bool {
        *self == *other
    }

    fn is_of_kind(&self, other: &Self) -> (b: bool) {
        *self == *other
    }
}

/// Whether two values are of one kind, whatever they carry.
pub fn is_kind<T: Kinded>(lhs: T, rhs: T) -> (b: bool)
    ensures
        b == lhs.same_kind(&rhs),
{
    lhs.is_of_kind(&rhs)
}

} // verus!
