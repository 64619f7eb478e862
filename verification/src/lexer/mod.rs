//! The tokens of the language. The lexer itself is not part of the
//! library: a stream of tokens is what the parser starts from.

use vstd::prelude::*;

verus! {

/// The kind of a token: what is left of it once its payload is dropped.
/// The parser's tables are keyed by kind.
#[derive(Clone, Copy, PartialEq, Eq, Structural, Debug)]
pub enum TokenKind {
    Integer,
    Decimel,
    String,
    Identifier,
    OpenBracket,
    CloseBracket,
    OpenCurly,
    CloseCurly,
    OpenParen,
    CloseParen,
    Assignment,
    Equals,
    NotEquals,
    Less,
    LessOrEqual,
    Greater,
    GreaterOrEqual,
    Not,
    Or,
    And,
    Dot,
    Range,
    Semicolon,
    Colon,
    Question,
    Comma,
    PlusPlus,
    MinusMinus,
    PlusEquals,
    MinusEquals,
    Plus,
    Minus,
    Multiply,
    Divide,
    Mod,
    Power,
    Arrow,
    Reference,
    Include,
    Subroutine,
    Return,
    Struct,
    New,
    If,
    Else,
    For,
    While,
    Sizeof,
    Mut,
    Immut,
    LinkStatic,
    LinkLib,
    Extern,
    True,
    False,
    EOF,
}

/// One lexical unit. `Decimel` holds the IEEE-754 binary64 bit pattern of
/// the literal, so that a token is made of integers and text only.
#[derive(Debug, PartialEq)]
pub enum Token {
    Integer(isize),
    Decimel(u64),
    String(String),
    Identifier(String),
    OpenBracket,
    CloseBracket,
    OpenCurly,
    CloseCurly,
    OpenParen,
    CloseParen,
    Assignment,
    Equals,
    NotEquals,
    Less,
    LessOrEqual,
    Greater,
    GreaterOrEqual,
    Not,
    Or,
    And,
    Dot,
    Range,
    Semicolon,
    Colon,
    Question,
    Comma,
    PlusPlus,
    MinusMinus,
    PlusEquals,
    MinusEquals,
    Plus,
    Minus,
    Multiply,
    Divide,
    Mod,
    Power,
    Arrow,
    Reference,
    Include,
    Subroutine,
    Return,
    Struct,
    New,
    If,
    Else,
    For,
    While,
    Sizeof,
    Mut,
    Immut,
    LinkStatic,
    LinkLib,
    Extern,
    True,
    False,
    EOF,
}

/// The mathematical value of a token: payload text is a sequence of
/// characters, and every token without a payload is `Fixed` of its kind.
pub enum TokenV {
    Integer(isize),
    Decimel(u64),
    String(Seq<char>),
    Identifier(Seq<char>),
    Fixed(TokenKind),
}

impl TokenV {
    pub open spec fn kind(self) -> TokenKind {
        match self {
            TokenV::Integer(_) => TokenKind::Integer,
            TokenV::Decimel(_) => TokenKind::Decimel,
            TokenV::String(_) => TokenKind::String,
            TokenV::Identifier(_) => TokenKind::Identifier,
            TokenV::Fixed(k) => k,
        }
    }
}

impl DeepView for Token {
    type V = TokenV;

    open spec fn deep_view(&self) -> TokenV {
        match self {
            Token::Integer(v) => TokenV::Integer(*v),
            Token::Decimel(v) => TokenV::Decimel(*v),
            Token::String(s) => TokenV::String(s@),
            Token::Identifier(s) => TokenV::Identifier(s@),
            Token::OpenBracket => TokenV::Fixed(TokenKind::OpenBracket),
            Token::CloseBracket => TokenV::Fixed(TokenKind::CloseBracket),
            Token::OpenCurly => TokenV::Fixed(TokenKind::OpenCurly),
            Token::CloseCurly => TokenV::Fixed(TokenKind::CloseCurly),
            Token::OpenParen => TokenV::Fixed(TokenKind::OpenParen),
            Token::CloseParen => TokenV::Fixed(TokenKind::CloseParen),
            Token::Assignment => TokenV::Fixed(TokenKind::Assignment),
            Token::Equals => TokenV::Fixed(TokenKind::Equals),
            Token::NotEquals => TokenV::Fixed(TokenKind::NotEquals),
            Token::Less => TokenV::Fixed(TokenKind::Less),
            Token::LessOrEqual => TokenV::Fixed(TokenKind::LessOrEqual),
            Token::Greater => TokenV::Fixed(TokenKind::Greater),
            Token::GreaterOrEqual => TokenV::Fixed(TokenKind::GreaterOrEqual),
            Token::Not => TokenV::Fixed(TokenKind::Not),
            Token::Or => TokenV::Fixed(TokenKind::Or),
            Token::And => TokenV::Fixed(TokenKind::And),
            Token::Dot => TokenV::Fixed(TokenKind::Dot),
            Token::Range => TokenV::Fixed(TokenKind::Range),
            Token::Semicolon => TokenV::Fixed(TokenKind::Semicolon),
            Token::Colon => TokenV::Fixed(TokenKind::Colon),
            Token::Question => TokenV::Fixed(TokenKind::Question),
            Token::Comma => TokenV::Fixed(TokenKind::Comma),
            Token::PlusPlus => TokenV::Fixed(TokenKind::PlusPlus),
            Token::MinusMinus => TokenV::Fixed(TokenKind::MinusMinus),
            Token::PlusEquals => TokenV::Fixed(TokenKind::PlusEquals),
            Token::MinusEquals => TokenV::Fixed(TokenKind::MinusEquals),
            Token::Plus => TokenV::Fixed(TokenKind::Plus),
            Token::Minus => TokenV::Fixed(TokenKind::Minus),
            Token::Multiply => TokenV::Fixed(TokenKind::Multiply),
            Token::Divide => TokenV::Fixed(TokenKind::Divide),
            Token::Mod => TokenV::Fixed(TokenKind::Mod),
            Token::Power => TokenV::Fixed(TokenKind::Power),
            Token::Arrow => TokenV::Fixed(TokenKind::Arrow),
            Token::Reference => TokenV::Fixed(TokenKind::Reference),
            Token::Include => TokenV::Fixed(TokenKind::Include),
            Token::Subroutine => TokenV::Fixed(TokenKind::Subroutine),
            Token::Return => TokenV::Fixed(TokenKind::Return),
            Token::Struct => TokenV::Fixed(TokenKind::Struct),
            Token::New => TokenV::Fixed(TokenKind::New),
            Token::If => TokenV::Fixed(TokenKind::If),
            Token::Else => TokenV::Fixed(TokenKind::Else),
            Token::For => TokenV::Fixed(TokenKind::For),
            Token::While => TokenV::Fixed(TokenKind::While),
            Token::Sizeof => TokenV::Fixed(TokenKind::Sizeof),
            Token::Mut => TokenV::Fixed(TokenKind::Mut),
            Token::Immut => TokenV::Fixed(TokenKind::Immut),
            Token::LinkStatic => TokenV::Fixed(TokenKind::LinkStatic),
            Token::LinkLib => TokenV::Fixed(TokenKind::LinkLib),
            Token::Extern => TokenV::Fixed(TokenKind::Extern),
            Token::True => TokenV::Fixed(TokenKind::True),
            Token::False => TokenV::Fixed(TokenKind::False),
            Token::EOF => TokenV::Fixed(TokenKind::EOF),
        }
    }
}

impl Token {
    /// The kind of this token, as a specification.
    pub open spec fn spec_kind(&self) -> TokenKind {
        self.deep_view().kind()
    }

    /// The kind of this token.
    #[verifier::when_used_as_spec(spec_kind)]
    pub fn kind(&self) -> (k: TokenKind)
        ensures
            k == self.spec_kind(),
    {
        match self {
            Token::Integer(_) => TokenKind::Integer,
            Token::Decimel(_) => TokenKind::Decimel,
            Token::String(_) => TokenKind::String,
            Token::Identifier(_) => TokenKind::Identifier,
            Token::OpenBracket => TokenKind::OpenBracket,
            Token::CloseBracket => TokenKind::CloseBracket,
            Token::OpenCurly => TokenKind::OpenCurly,
            Token::CloseCurly => TokenKind::CloseCurly,
            Token::OpenParen => TokenKind::OpenParen,
            Token::CloseParen => TokenKind::CloseParen,
            Token::Assignment => TokenKind::Assignment,
            Token::Equals => TokenKind::Equals,
            Token::NotEquals => TokenKind::NotEquals,
            Token::Less => TokenKind::Less,
            Token::LessOrEqual => TokenKind::LessOrEqual,
            Token::Greater => TokenKind::Greater,
            Token::GreaterOrEqual => TokenKind::GreaterOrEqual,
            Token::Not => TokenKind::Not,
            Token::Or => TokenKind::Or,
            Token::And => TokenKind::And,
            Token::Dot => TokenKind::Dot,
            Token::Range => TokenKind::Range,
            Token::Semicolon => TokenKind::Semicolon,
            Token::Colon => TokenKind::Colon,
            Token::Question => TokenKind::Question,
            Token::Comma => TokenKind::Comma,
            Token::PlusPlus => TokenKind::PlusPlus,
            Token::MinusMinus => TokenKind::MinusMinus,
            Token::PlusEquals => TokenKind::PlusEquals,
            Token::MinusEquals => TokenKind::MinusEquals,
            Token::Plus => TokenKind::Plus,
            Token::Minus => TokenKind::Minus,
            Token::Multiply => TokenKind::Multiply,
            Token::Divide => TokenKind::Divide,
            Token::Mod => TokenKind::Mod,
            Token::Power => TokenKind::Power,
            Token::Arrow => TokenKind::Arrow,
            Token::Reference => TokenKind::Reference,
            Token::Include => TokenKind::Include,
            Token::Subroutine => TokenKind::Subroutine,
            Token::Return => TokenKind::Return,
            Token::Struct => TokenKind::Struct,
            Token::New => TokenKind::New,
            Token::If => TokenKind::If,
            Token::Else => TokenKind::Else,
            Token::For => TokenKind::For,
            Token::While => TokenKind::While,
            Token::Sizeof => TokenKind::Sizeof,
            Token::Mut => TokenKind::Mut,
            Token::Immut => TokenKind::Immut,
            Token::LinkStatic => TokenKind::LinkStatic,
            Token::LinkLib => TokenKind::LinkLib,
            Token::Extern => TokenKind::Extern,
            Token::True => TokenKind::True,
            Token::False => TokenKind::False,
            Token::EOF => TokenKind::EOF,
        }
    }
}

impl Clone for Token {
    fn clone(&self) -> (t: Token)
        ensures
            t == *self,
    {
        match self {
            Token::Integer(v) => Token::Integer(*v),
            Token::Decimel(v) => Token::Decimel(*v),
            Token::String(s) => Token::String(s.clone()),
            Token::Identifier(s) => Token::Identifier(s.clone()),
            Token::OpenBracket => Token::OpenBracket,
            Token::CloseBracket => Token::CloseBracket,
            Token::OpenCurly => Token::OpenCurly,
            Token::CloseCurly => Token::CloseCurly,
            Token::OpenParen => Token::OpenParen,
            Token::CloseParen => Token::CloseParen,
            Token::Assignment => Token::Assignment,
            Token::Equals => Token::Equals,
            Token::NotEquals => Token::NotEquals,
            Token::Less => Token::Less,
            Token::LessOrEqual => Token::LessOrEqual,
            Token::Greater => Token::Greater,
            Token::GreaterOrEqual => Token::GreaterOrEqual,
            Token::Not => Token::Not,
            Token::Or => Token::Or,
            Token::And => Token::And,
            Token::Dot => Token::Dot,
            Token::Range => Token::Range,
            Token::Semicolon => Token::Semicolon,
            Token::Colon => Token::Colon,
            Token::Question => Token::Question,
            Token::Comma => Token::Comma,
            Token::PlusPlus => Token::PlusPlus,
            Token::MinusMinus => Token::MinusMinus,
            Token::PlusEquals => Token::PlusEquals,
            Token::MinusEquals => Token::MinusEquals,
            Token::Plus => Token::Plus,
            Token::Minus => Token::Minus,
            Token::Multiply => Token::Multiply,
            Token::Divide => Token::Divide,
            Token::Mod => Token::Mod,
            Token::Power => Token::Power,
            Token::Arrow => Token::Arrow,
            Token::Reference => Token::Reference,
            Token::Include => Token::Include,
            Token::Subroutine => Token::Subroutine,
            Token::Return => Token::Return,
            Token::Struct => Token::Struct,
            Token::New => Token::New,
            Token::If => Token::If,
            Token::Else => Token::Else,
            Token::For => Token::For,
            Token::While => Token::While,
            Token::Sizeof => Token::Sizeof,
            Token::Mut => Token::Mut,
            Token::Immut => Token::Immut,
            Token::LinkStatic => Token::LinkStatic,
            Token::LinkLib => Token::LinkLib,
            Token::Extern => Token::Extern,
            Token::True => Token::True,
            Token::False => Token::False,
            Token::EOF => Token::EOF,
        }
    }
}

} // verus!
