//! Lexical front end of the neyman language: source text in, typed tokens out.
pub mod parse;
