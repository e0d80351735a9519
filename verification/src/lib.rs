//! A tokenizer for preprocessed C source text.
//!
//! The crate turns source text into a chain of classified tokens. Every
//! executable function carries a contract over a mathematical model of its
//! data, and the contracts are proved.

pub mod chars;
pub mod text;
pub mod numbers;
pub mod error;
pub mod escape;
pub mod keywords;
pub mod symbols;
pub mod token;
pub mod number_literal;
pub mod literals;
pub mod operator;
pub mod directive;
pub mod lexer;
pub mod laws;
pub mod parser;
pub mod syntax;
pub mod report;

pub use error::{LexError, LexErrorKind};
pub use keywords::Keyword;
pub use lexer::lexer_start;
pub use parser::{parser_start, ParserState};
pub use syntax::AstNode;
pub use token::{Token, TokenStream, TokenType};
