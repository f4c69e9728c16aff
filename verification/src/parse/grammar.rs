//! The lexical grammar, stated over sequences of characters.
//!
//! Nothing here runs: these definitions say which tokens a text denotes, and
//! the scanner is proved against them.
use vstd::prelude::*;
use crate::parse::chars::{is_alphabetic, is_blank, is_digit, is_identifier_part};
use crate::parse::token::TokenView;

verus! {

/// Why a text has no token sequence.
#[derive(Debug, Clone, Copy, PartialEq, Eq, Structural)]
pub enum LexError {
    /// A character that starts no token.
    IllegalCharacter,
    /// `//` with no line feed after it.
    UnterminatedComment,
    /// An opening `"` with no closing `"` after it.
    UnterminatedString,
}

/// A set of characters that a run is made of.
#[derive(Debug, Clone, Copy, PartialEq, Eq, Structural)]
pub enum CharClass {
    /// Every character but the given one.
    Except(char),
    /// Letters, digits and the underscore.
    IdentifierPart,
    /// Decimal digits.
    Digit,
}

impl CharClass {
    /// Whether `c` belongs to the class.
    pub open spec fn has(self, c: char) -> bool {
        match self {
            CharClass::Except(stop) => c != stop,
            CharClass::IdentifierPart => is_identifier_part(c),
            CharClass::Digit => is_digit(c),
        }
    }
}

/// The length of the longest run of characters of `class` that starts at
/// `from`. The run stops at the first character outside the class, or at the
/// end of the input.
pub open spec fn run_len(input: Seq<char>, from: int, class: CharClass) -> nat
    decreases input.len() - from,
{
    if 0 <= from < input.len() && class.has(input[from]) {
        1 + run_len(input, from + 1, class)
    } else {
        0
    }
}

/// The character after the one at `pos`, if there is one.
pub open spec fn lookahead(input: Seq<char>, pos: int) -> Option<char> {
    if 0 <= pos + 1 < input.len() {
        Some(input[pos + 1])
    } else {
        None
    }
}

/// The token that the single character `c` stands for when no
/// two-character form applies.
pub open spec fn single_token(c: char) -> Option<TokenView> {
    if c == '{' {
        Some(TokenView::LeftBrace)
    } else if c == '}' {
        Some(TokenView::RightBrace)
    } else if c == '[' {
        Some(TokenView::LeftBracket)
    } else if c == ']' {
        Some(TokenView::RightBracket)
    } else if c == '(' {
        Some(TokenView::LeftParen)
    } else if c == ')' {
        Some(TokenView::RightParen)
    } else if c == ';' {
        Some(TokenView::Semicolon)
    } else if c == ':' {
        Some(TokenView::Colon)
    } else if c == '.' {
        Some(TokenView::Period)
    } else if c == '*' {
        Some(TokenView::Asterisk)
    } else if c == '?' {
        Some(TokenView::QuestionMark)
    } else if c == '+' {
        Some(TokenView::Plus)
    } else if c == '_' {
        Some(TokenView::Underscore)
    } else if c == '\n' {
        Some(TokenView::EOL)
    } else if c == '-' {
        Some(TokenView::Dash)
    } else if c == '>' {
        Some(TokenView::GeComparator)
    } else if c == '<' {
        Some(TokenView::LeComparator)
    } else if c == '=' {
        Some(TokenView::Assign)
    } else if c == '!' {
        Some(TokenView::ExclamationMark)
    } else if c == '&' {
        Some(TokenView::Ampersand)
    } else if c == '|' {
        Some(TokenView::Pipe)
    } else if c == '/' {
        Some(TokenView::Slash)
    } else {
        None
    }
}

/// The operator spelled by `c` directly followed by `next`.
pub open spec fn double_token(c: char, next: char) -> Option<TokenView> {
    if c == '-' && next == '>' {
        Some(TokenView::RightArrow)
    } else if c == '>' && next == '=' {
        Some(TokenView::GeqComparator)
    } else if c == '<' && next == '=' {
        Some(TokenView::LeqComparator)
    } else if c == '=' && next == '=' {
        Some(TokenView::EqComparator)
    } else if c == '!' && next == '=' {
        Some(TokenView::NeqComparator)
    } else if c == '&' && next == '&' {
        Some(TokenView::AndOperation)
    } else if c == '|' && next == '|' {
        Some(TokenView::OrOperation)
    } else {
        None
    }
}

/// Whether a line comment starts at `pos`.
pub open spec fn comment_starts(input: Seq<char>, pos: int) -> bool {
    input[pos] == '/' && lookahead(input, pos) == Some('/')
}

/// Whether a two-character operator starts at `pos`.
pub open spec fn operator_pair_at(input: Seq<char>, pos: int) -> bool {
    lookahead(input, pos) is Some && double_token(input[pos], input[pos + 1]) is Some
}

/// The token that starts at `pos`, paired with the position just after it.
///
/// A comment carries its text from the first `/` up to the line feed, which
/// is left for the next token. A string literal carries what stands between
/// its quotes and ends at the first `"` after the opening one. An identifier
/// or a number is the longest run of its characters; the end of the input
/// closes such a run as any other delimiter does.
pub open spec fn token_at(input: Seq<char>, pos: int) -> Result<(TokenView, int), LexError>
    recommends
        0 <= pos < input.len(),
{
    let c = input[pos];
    if comment_starts(input, pos) {
        let end = pos + 2 + run_len(input, pos + 2, CharClass::Except('\n'));
        if end < input.len() {
            Ok((TokenView::Comment(input.subrange(pos, end)), end))
        } else {
            Err(LexError::UnterminatedComment)
        }
    } else if operator_pair_at(input, pos) {
        Ok((double_token(c, input[pos + 1])->0, pos + 2))
    } else if single_token(c) is Some {
        Ok((single_token(c)->0, pos + 1))
    } else if c == '"' {
        let close = pos + 1 + run_len(input, pos + 1, CharClass::Except('"'));
        if close < input.len() {
            Ok((TokenView::Literal(input.subrange(pos + 1, close)), close + 1))
        } else {
            Err(LexError::UnterminatedString)
        }
    } else if is_alphabetic(c) {
        let end = pos + 1 + run_len(input, pos + 1, CharClass::IdentifierPart);
        Ok((TokenView::ID(input.subrange(pos, end)), end))
    } else if is_digit(c) {
        let end = pos + 1 + run_len(input, pos + 1, CharClass::Digit);
        Ok((TokenView::Literal(input.subrange(pos, end)), end))
    } else {
        Err(LexError::IllegalCharacter)
    }
}

/// `prefix` followed by the tokens of `rest`, or the error of `rest`.
pub open spec fn followed_by(
    prefix: Seq<TokenView>,
    rest: Result<Seq<TokenView>, LexError>,
) -> Result<Seq<TokenView>, LexError> {
    match rest {
        Ok(tail) => Ok(prefix + tail),
        Err(e) => Err(e),
    }
}

/// The tokens of the text from `pos` on, before keywords are told apart from
/// identifiers. Blanks between tokens are passed over; the first position at
/// which no token starts makes the whole text fail.
pub open spec fn scan(input: Seq<char>, pos: int) -> Result<Seq<TokenView>, LexError>
    decreases input.len() - pos,
    via scan_decreases
{
    if pos < 0 || pos >= input.len() {
        Ok(Seq::empty())
    } else if is_blank(input[pos]) {
        scan(input, pos + 1)
    } else {
        match token_at(input, pos) {
            Err(e) => Err(e),
            Ok((token, next)) => followed_by(seq![token], scan(input, next)),
        }
    }
}

#[via_fn]
proof fn scan_decreases(input: Seq<char>, pos: int) {
    if 0 <= pos < input.len() && !is_blank(input[pos]) {
        lemma_token_advances(input, pos);
    }
}

/// A run never reaches past the end of the input.
pub proof fn lemma_run_within(input: Seq<char>, from: int, class: CharClass)
    requires
        0 <= from <= input.len(),
    ensures
        from + run_len(input, from, class) <= input.len(),
    decreases input.len() - from,
{
    if from < input.len() && class.has(input[from]) {
        lemma_run_within(input, from + 1, class);
    }
}

/// A run is told by its end: every character before the end is in the
/// class, and the character at the end, if there is one, is not.
pub proof fn lemma_run_to(input: Seq<char>, from: int, end: int, class: CharClass)
    requires
        0 <= from <= end <= input.len(),
        forall|i: int| from <= i < end ==> class.has(#[trigger] input[i]),
        end < input.len() ==> !class.has(input[end]),
    ensures
        run_len(input, from, class) == end - from,
    decreases end - from,
{
    if from < end {
        lemma_run_to(input, from + 1, end, class);
    }
}

/// Every token is at least one character long and lies within the input.
pub proof fn lemma_token_advances(input: Seq<char>, pos: int)
    requires
        0 <= pos < input.len(),
    ensures
        token_at(input, pos) matches Ok((_, next)) ==> pos < next <= input.len(),
{
    lemma_run_within(input, pos + 1, CharClass::IdentifierPart);
    lemma_run_within(input, pos + 1, CharClass::Digit);
}

/// The keyword that `text` spells, if it is a reserved word.
pub open spec fn keyword(text: Seq<char>) -> Option<TokenView> {
    if text == seq!['i', 'f'] {
        Some(TokenView::IfToken)
    } else if text == seq!['e', 'l', 's', 'e'] {
        Some(TokenView::ElseToken)
    } else if text == seq!['w', 'h', 'i', 'l', 'e'] {
        Some(TokenView::WhileToken)
    } else if text == seq!['i', 'n'] {
        Some(TokenView::InToken)
    } else if text == seq!['f', 'n'] {
        Some(TokenView::FnToken)
    } else if text == seq!['r', 'e', 't', 'u', 'r', 'n'] {
        Some(TokenView::ReturnToken)
    } else if text == seq!['l', 'e', 't'] {
        Some(TokenView::LetToken)
    } else {
        None
    }
}

/// A token after keywords are told apart: an identifier that spells a
/// reserved word becomes that keyword, every other token stays as it is.
pub open spec fn reclassify(token: TokenView) -> TokenView {
    match token {
        TokenView::ID(text) => match keyword(text) {
            Some(word) => word,
            None => token,
        },
        _ => token,
    }
}

/// Each token of `tokens` reclassified, in the same order.
pub open spec fn reclassify_all(tokens: Seq<TokenView>) -> Seq<TokenView> {
    Seq::new(tokens.len(), |i: int| reclassify(tokens[i]))
}

/// The token sequence that `input` denotes, or the reason it has none.
pub open spec fn tokens_of(input: Seq<char>) -> Result<Seq<TokenView>, LexError> {
    match scan(input, 0) {
        Ok(tokens) => Ok(reclassify_all(tokens)),
        Err(e) => Err(e),
    }
}

} // verus!
