//! The statement layer: reads statements off a token sequence.
use vstd::prelude::*;
use vstd::slice::slice_subrange;
use crate::parse::grammar::tokens_of;
use crate::parse::lexer::tokenise;
use crate::parse::syntax::{
    expression_to_semicolon, first_failure, let_statement_at, statement_at, token_ahead,
    Expression, ParseError, Statement, SyntaxError,
};
use crate::parse::text::chars_of;
use crate::parse::token::{views, Token, TokenView};

verus! {

/// The token `step` places after `read_pos`, if the sequence reaches that
/// far.
pub fn peek_token(tokens: &Vec<Token>, read_pos: &usize, step: usize) -> (ahead: Option<Token>)
    ensures
        match token_ahead(views(tokens@), *read_pos as int, step as int) {
            Some(token) => ahead matches Some(found) && found@ == token,
            None => ahead is None,
        },
{
    if *read_pos < tokens.len() && step < tokens.len() - *read_pos {
        Some(tokens[*read_pos + step].clone())
    } else {
        None
    }
}

/// Reads the expression that ends at the first semicolon of `tokens`.
///
/// Expressions are not taken apart yet: what comes back is the closing
/// semicolon itself as a value.
pub fn substring_to_outer_semicolon(tokens: &[Token]) -> (r: Result<Expression, SyntaxError>)
    ensures
        match expression_to_semicolon(views(tokens@)) {
            Ok(expression) => r matches Ok(found) && found@ == expression,
            Err(e) => r == Err::<Expression, SyntaxError>(e),
        },
{
    let mut index: usize = 0;
    while index < tokens.len()
        invariant
            index <= tokens.len(),
            forall|i: int| 0 <= i < index ==> views(tokens@)[i] != TokenView::Semicolon,
        decreases tokens.len() - index,
    {
        if matches!(tokens[index], Token::Semicolon) {
            assert(views(tokens@)[index as int] == TokenView::Semicolon);
            return Ok(Expression::Value { value: tokens[index].clone() });
        }
        index += 1;
    }
    Err(SyntaxError::MissingSemicolon)
}

/// Reads the `let` statement that starts at `read_pos`: the next token is
/// what it binds, and the expression starts three tokens after `read_pos`.
pub fn parse_let_statement(tokens: &Vec<Token>, read_pos: &usize) -> (r: Result<
    Statement,
    SyntaxError,
>)
    ensures
        match let_statement_at(views(tokens@), *read_pos as int) {
            Ok(statement) => r matches Ok(found) && found@ == statement,
            Err(e) => r == Err::<Statement, SyntaxError>(e),
        },
{
    let len: usize = tokens.len();
    if *read_pos > len || len - *read_pos < 3 {
        return Err(SyntaxError::UnexpectedEnd);
    }
    let left: Token = match peek_token(tokens, read_pos, 1) {
        Some(token) => token,
        None => {
            return Err(SyntaxError::UnexpectedEnd);
        },
    };
    let rest: &[Token] = slice_subrange(tokens.as_slice(), *read_pos + 3, len);
    assert(views(rest@) =~= views(tokens@).subrange(*read_pos + 3, len as int));
    match substring_to_outer_semicolon(rest) {
        Ok(right) => Ok(Statement::LetStatement { left, right }),
        Err(e) => Err(e),
    }
}

/// Reads the statement that starts at `read_pos`.
pub fn parse_statement(tokens: &Vec<Token>, read_pos: &usize) -> (r: Result<
    Statement,
    SyntaxError,
>)
    ensures
        match statement_at(views(tokens@), *read_pos as int) {
            Ok(statement) => r matches Ok(found) && found@ == statement,
            Err(e) => r == Err::<Statement, SyntaxError>(e),
        },
{
    if *read_pos >= tokens.len() {
        return Err(SyntaxError::UnexpectedEnd);
    }
    match tokens[*read_pos] {
        Token::LetToken => parse_let_statement(tokens, read_pos),
        _ => Err(SyntaxError::UnsupportedStatement),
    }
}

/// Checks that a statement can be read at every position of `tokens`, in
/// order, and fails with what the first position that has none reports.
///
/// The statements read are not kept yet: the program that comes back is
/// empty.
pub fn token_to_ast(tokens: Vec<Token>) -> (r: Result<Vec<Statement>, SyntaxError>)
    ensures
        match first_failure(views(tokens@), 0) {
            Some(e) => r == Err::<Vec<Statement>, SyntaxError>(e),
            None => r matches Ok(program) && program@.len() == 0,
        },
{
    let program: Vec<Statement> = Vec::new();
    let mut read: usize = 0;
    while read < tokens.len()
        invariant
            read <= tokens.len(),
            program@.len() == 0,
            first_failure(views(tokens@), 0) == first_failure(views(tokens@), read as int),
        decreases tokens.len() - read,
    {
        match parse_statement(&tokens, &read) {
            Ok(_) => {},
            Err(e) => {
                return Err(e);
            },
        }
        read += 1;
    }
    Ok(program)
}

/// Turns a text into a program: first into tokens, then into statements.
pub fn text_to_ast(input: String) -> (r: Result<Vec<Statement>, ParseError>)
    ensures
        match tokens_of(input@) {
            Err(e) => r == Err::<Vec<Statement>, ParseError>(ParseError::Lexical(e)),
            Ok(tokens) => match first_failure(tokens, 0) {
                Some(e) => r == Err::<Vec<Statement>, ParseError>(ParseError::Syntax(e)),
                None => r matches Ok(program) && program@.len() == 0,
            },
        },
{
    let tokens: Vec<Token> = match tokenise(chars_of(input.as_str())) {
        Ok(tokens) => tokens,
        Err(e) => {
            return Err(ParseError::Lexical(e));
        },
    };
    match token_to_ast(tokens) {
        Ok(program) => Ok(program),
        Err(e) => Err(ParseError::Syntax(e)),
    }
}

} // verus!
