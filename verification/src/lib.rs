//! A small compiler front end: a token model, a table-driven Pratt parser
//! and a code generator that lowers the syntax tree to the instructions
//! for a backend.
//!
//! - [`lexer`]: the tokens and their kinds.
//! - [`parser`]: the registries, the grammar as mathematics, and the
//!   parsing functions, each proved to yield what the grammar says.
//! - [`compiler`]: the scopes, the instructions, the lowering as
//!   mathematics, and the generator, each step proved to do what the
//!   lowering says.

pub mod lexer;
pub mod parser;
pub mod compiler;
