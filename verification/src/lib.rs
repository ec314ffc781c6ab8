//! Lexer for a small interface-definition language: source text in, located
//! tokens or the first lexical error out.

pub mod grammar;
pub mod laws;
pub mod lexer;
pub mod scan;
pub mod stdlib;
pub mod token;

pub use lexer::tokenize;
pub use token::{Loc, Token, TokenizeError, TokenizeResult, TAB_SIZE};
