//! The token taxonomy and its mathematical model.
use vstd::prelude::*;

verus! {

/// One classified unit of source text.
///
/// Punctuation, operators and keywords carry no payload; comments,
/// identifiers and literals carry their text.
#[derive(Debug, Eq, PartialEq)]
pub enum Token {
    /// `{`
    LeftBrace,
    /// `}`
    RightBrace,
    /// `[`
    LeftBracket,
    /// `]`
    RightBracket,
    /// `(`
    LeftParen,
    /// `)`
    RightParen,
    /// `;`
    Semicolon,
    /// `:`
    Colon,
    /// `.`
    Period,
    /// `->`
    RightArrow,
    /// A line comment, with its text up to the end of the line.
    Comment(String),
    /// `<=`
    LeqComparator,
    /// `>=`
    GeqComparator,
    /// `<`
    LeComparator,
    /// `>`
    GeComparator,
    /// `==`
    EqComparator,
    /// `!=`
    NeqComparator,
    /// `&&`
    AndOperation,
    /// `||`
    OrOperation,
    /// `=`
    Assign,
    /// `*`
    Asterisk,
    /// `&`
    Ampersand,
    /// `-`
    Dash,
    /// `/`
    Slash,
    /// `?`
    QuestionMark,
    /// `+`
    Plus,
    /// `|`
    Pipe,
    /// `!`
    ExclamationMark,
    /// `_`
    Underscore,
    /// `if`
    IfToken,
    /// `else`
    ElseToken,
    /// `while`
    WhileToken,
    /// `in`
    InToken,
    /// `fn`
    FnToken,
    /// `return`
    ReturnToken,
    /// `let`
    LetToken,
    /// An identifier, with its text.
    ID(String),
    /// A numeric or string literal, with its text as written.
    Literal(String),
    /// a line feed
    EOL,
    /// reserved for text that fits no other category; the scanner never produces it
    Illegal,
}

/// What a [`Token`] denotes: the same categories, with text as a sequence of
/// characters.
pub ghost enum TokenView {
    LeftBrace,
    RightBrace,
    LeftBracket,
    RightBracket,
    LeftParen,
    RightParen,
    Semicolon,
    Colon,
    Period,
    RightArrow,
    Comment(Seq<char>),
    LeqComparator,
    GeqComparator,
    LeComparator,
    GeComparator,
    EqComparator,
    NeqComparator,
    AndOperation,
    OrOperation,
    Assign,
    Asterisk,
    Ampersand,
    Dash,
    Slash,
    QuestionMark,
    Plus,
    Pipe,
    ExclamationMark,
    Underscore,
    IfToken,
    ElseToken,
    WhileToken,
    InToken,
    FnToken,
    ReturnToken,
    LetToken,
    ID(Seq<char>),
    Literal(Seq<char>),
    EOL,
    Illegal,
}

impl View for Token {
    type V = TokenView;

    open spec fn view(&self) -> TokenView {
        match self {
            Token::LeftBrace => TokenView::LeftBrace,
            Token::RightBrace => TokenView::RightBrace,
            Token::LeftBracket => TokenView::LeftBracket,
            Token::RightBracket => TokenView::RightBracket,
            Token::LeftParen => TokenView::LeftParen,
            Token::RightParen => TokenView::RightParen,
            Token::Semicolon => TokenView::Semicolon,
            Token::Colon => TokenView::Colon,
            Token::Period => TokenView::Period,
            Token::RightArrow => TokenView::RightArrow,
            Token::Comment(text) => TokenView::Comment(text@),
            Token::LeqComparator => TokenView::LeqComparator,
            Token::GeqComparator => TokenView::GeqComparator,
            Token::LeComparator => TokenView::LeComparator,
            Token::GeComparator => TokenView::GeComparator,
            Token::EqComparator => TokenView::EqComparator,
            Token::NeqComparator => TokenView::NeqComparator,
            Token::AndOperation => TokenView::AndOperation,
            Token::OrOperation => TokenView::OrOperation,
            Token::Assign => TokenView::Assign,
            Token::Asterisk => TokenView::Asterisk,
            Token::Ampersand => TokenView::Ampersand,
            Token::Dash => TokenView::Dash,
            Token::Slash => TokenView::Slash,
            Token::QuestionMark => TokenView::QuestionMark,
            Token::Plus => TokenView::Plus,
            Token::Pipe => TokenView::Pipe,
            Token::ExclamationMark => TokenView::ExclamationMark,
            Token::Underscore => TokenView::Underscore,
            Token::IfToken => TokenView::IfToken,
            Token::ElseToken => TokenView::ElseToken,
            Token::WhileToken => TokenView::WhileToken,
            Token::InToken => TokenView::InToken,
            Token::FnToken => TokenView::FnToken,
            Token::ReturnToken => TokenView::ReturnToken,
            Token::LetToken => TokenView::LetToken,
            Token::ID(text) => TokenView::ID(text@),
            Token::Literal(text) => TokenView::Literal(text@),
            Token::EOL => TokenView::EOL,
            Token::Illegal => TokenView::Illegal,
        }
    }
}

impl Clone for Token {
    /// An independent token that denotes the same thing.
    fn clone(&self) -> (copy: Token)
        ensures
            copy@ == self@,
    {
        match self {
            Token::LeftBrace => Token::LeftBrace,
            Token::RightBrace => Token::RightBrace,
            Token::LeftBracket => Token::LeftBracket,
            Token::RightBracket => Token::RightBracket,
            Token::LeftParen => Token::LeftParen,
            Token::RightParen => Token::RightParen,
            Token::Semicolon => Token::Semicolon,
            Token::Colon => Token::Colon,
            Token::Period => Token::Period,
            Token::RightArrow => Token::RightArrow,
            Token::Comment(text) => Token::Comment(text.clone()),
            Token::LeqComparator => Token::LeqComparator,
            Token::GeqComparator => Token::GeqComparator,
            Token::LeComparator => Token::LeComparator,
            Token::GeComparator => Token::GeComparator,
            Token::EqComparator => Token::EqComparator,
            Token::NeqComparator => Token::NeqComparator,
            Token::AndOperation => Token::AndOperation,
            Token::OrOperation => Token::OrOperation,
            Token::Assign => Token::Assign,
            Token::Asterisk => Token::Asterisk,
            Token::Ampersand => Token::Ampersand,
            Token::Dash => Token::Dash,
            Token::Slash => Token::Slash,
            Token::QuestionMark => Token::QuestionMark,
            Token::Plus => Token::Plus,
            Token::Pipe => Token::Pipe,
            Token::ExclamationMark => Token::ExclamationMark,
            Token::Underscore => Token::Underscore,
            Token::IfToken => Token::IfToken,
            Token::ElseToken => Token::ElseToken,
            Token::WhileToken => Token::WhileToken,
            Token::InToken => Token::InToken,
            Token::FnToken => Token::FnToken,
            Token::ReturnToken => Token::ReturnToken,
            Token::LetToken => Token::LetToken,
            Token::ID(text) => Token::ID(text.clone()),
            Token::Literal(text) => Token::Literal(text.clone()),
            Token::EOL => Token::EOL,
            Token::Illegal => Token::Illegal,
        }
    }
}

/// The denotations of a sequence of tokens, in order.
pub open spec fn views(tokens: Seq<Token>) -> Seq<TokenView> {
    Seq::new(tokens.len(), |i: int| tokens[i]@)
}

} // verus!
