//! The syntax tree and the statement forms recognised so far, stated over
//! sequences of tokens.
use vstd::prelude::*;
use crate::parse::grammar::LexError;
use crate::parse::token::{Token, TokenView};

verus! {

/// Something that yields a value.
#[derive(Debug)]
pub enum Expression {
    /// A single token standing for its own value.
    Value { value: Token },
    /// The sum of two expressions.
    AdditionExp { left: Box<Expression>, right: Box<Expression> },
}

/// What an [`Expression`] denotes.
pub ghost enum ExpressionView {
    Value { value: TokenView },
    AdditionExp { left: Box<ExpressionView>, right: Box<ExpressionView> },
}

/// What `e` denotes.
pub open spec fn expression_view(e: Expression) -> ExpressionView
    decreases e,
{
    match e {
        Expression::Value { value } => ExpressionView::Value { value: value@ },
        Expression::AdditionExp { left, right } => ExpressionView::AdditionExp {
            left: Box::new(expression_view(*left)),
            right: Box::new(expression_view(*right)),
        },
    }
}

impl View for Expression {
    type V = ExpressionView;

    open spec fn view(&self) -> ExpressionView {
        expression_view(*self)
    }
}

/// Something that is executed.
#[derive(Debug)]
pub enum Statement {
    /// `let` with the token it binds and the expression bound to it.
    LetStatement { left: Token, right: Expression },
    /// A statement guarded by a condition.
    IfStatement { condition: Expression, true_path: Box<Statement> },
    /// `return` with the expression it hands back.
    ReturnStatement { return_output: Expression },
    /// Statements grouped in a block.
    BlockStatement { statements: Vec<Box<Statement>> },
}

/// What a [`Statement`] denotes.
pub ghost enum StatementView {
    LetStatement { left: TokenView, right: ExpressionView },
    IfStatement { condition: ExpressionView, true_path: Box<StatementView> },
    ReturnStatement { return_output: ExpressionView },
    BlockStatement { statements: Seq<StatementView> },
}

/// What `s` denotes.
pub open spec fn statement_view(s: Statement) -> StatementView
    decreases s,
{
    match s {
        Statement::LetStatement { left, right } => StatementView::LetStatement {
            left: left@,
            right: right@,
        },
        Statement::IfStatement { condition, true_path } => StatementView::IfStatement {
            condition: condition@,
            true_path: Box::new(statement_view(*true_path)),
        },
        Statement::ReturnStatement { return_output } => StatementView::ReturnStatement {
            return_output: return_output@,
        },
        Statement::BlockStatement { statements } => StatementView::BlockStatement {
            statements: Seq::new(
                statements.len() as nat,
                |i: int|
                    if 0 <= i < statements.len() {
                        statement_view(*statements[i])
                    } else {
                        arbitrary()
                    },
            ),
        },
    }
}

impl View for Statement {
    type V = StatementView;

    open spec fn view(&self) -> StatementView {
        statement_view(*self)
    }
}

/// Why a token sequence is not a program.
#[derive(Debug, Clone, Copy, PartialEq, Eq, Structural)]
pub enum SyntaxError {
    /// The tokens end where a statement still needs some.
    UnexpectedEnd,
    /// No semicolon closes the expression.
    MissingSemicolon,
    /// The token starts no statement form that is recognised.
    UnsupportedStatement,
}

/// Why a text is not a program.
#[derive(Debug, Clone, Copy, PartialEq, Eq, Structural)]
pub enum ParseError {
    /// The text has no token sequence.
    Lexical(LexError),
    /// The token sequence is not a program.
    Syntax(SyntaxError),
}

/// The token `step` places after `pos`, if the sequence reaches that far.
pub open spec fn token_ahead(tokens: Seq<TokenView>, pos: int, step: int) -> Option<TokenView> {
    if 0 <= pos + step < tokens.len() {
        Some(tokens[pos + step])
    } else {
        None
    }
}

/// The expression that `tokens` holds up to its first semicolon. For now
/// that expression is the semicolon itself, taken as a value.
pub open spec fn expression_to_semicolon(tokens: Seq<TokenView>) -> Result<
    ExpressionView,
    SyntaxError,
> {
    if tokens.contains(TokenView::Semicolon) {
        Ok(ExpressionView::Value { value: TokenView::Semicolon })
    } else {
        Err(SyntaxError::MissingSemicolon)
    }
}

/// The `let` statement that starts at `pos`: the token after `pos` is bound
/// to the expression that starts three tokens after `pos`.
pub open spec fn let_statement_at(tokens: Seq<TokenView>, pos: int) -> Result<
    StatementView,
    SyntaxError,
> {
    if pos < 0 || pos + 3 > tokens.len() {
        Err(SyntaxError::UnexpectedEnd)
    } else {
        match expression_to_semicolon(tokens.subrange(pos + 3, tokens.len() as int)) {
            Ok(right) => Ok(StatementView::LetStatement { left: tokens[pos + 1], right }),
            Err(e) => Err(e),
        }
    }
}

/// The statement that starts at `pos`. Only `let` starts one.
pub open spec fn statement_at(tokens: Seq<TokenView>, pos: int) -> Result<
    StatementView,
    SyntaxError,
> {
    if pos < 0 || pos >= tokens.len() {
        Err(SyntaxError::UnexpectedEnd)
    } else if tokens[pos] == TokenView::LetToken {
        let_statement_at(tokens, pos)
    } else {
        Err(SyntaxError::UnsupportedStatement)
    }
}

/// The first failure met when a statement is read at each position from
/// `pos` on, in order; `None` where a statement starts at every one of them.
pub open spec fn first_failure(tokens: Seq<TokenView>, pos: int) -> Option<SyntaxError>
    decreases tokens.len() - pos,
{
    if pos < 0 || pos >= tokens.len() {
        None
    } else {
        match statement_at(tokens, pos) {
            Err(e) => Some(e),
            Ok(_) => first_failure(tokens, pos + 1),
        }
    }
}

} // verus!
