//! Tokens, the scanner that produces them, and the statement layer above it.
pub mod chars;
pub mod grammar;
pub mod laws;
pub mod lexer;
pub mod parser;
pub mod syntax;
pub mod text;
pub mod token;

pub use self::grammar::{CharClass, LexError};
pub use self::lexer::{next_token, peek_char, pull_keywords, tokenise, Lexer};
pub use self::parser::{
    parse_let_statement, parse_statement, peek_token, substring_to_outer_semicolon, text_to_ast,
    token_to_ast,
};
pub use self::syntax::{Expression, ParseError, Statement, SyntaxError};
pub use self::token::Token;
