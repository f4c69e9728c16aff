//! The scanner: a cursor over the input and the classification of one token
//! at a time.
use vstd::prelude::*;
use crate::parse::chars::{alphabetic, blank, digit, identifier_part};
use crate::parse::grammar::{
    comment_starts, double_token, followed_by, lemma_token_advances, lookahead,
    operator_pair_at, reclassify, reclassify_all, run_len, scan, single_token, token_at,
    tokens_of, CharClass, LexError,
};
use crate::parse::text::{same_text, text_between};
use crate::parse::token::{views, Token, TokenView};

verus! {

impl CharClass {
    /// Decides whether `c` belongs to the class.
    pub fn contains(&self, c: char) -> (r: bool)
        ensures
            r == self.has(c),
    {
        match self {
            CharClass::Except(stop) => c != *stop,
            CharClass::IdentifierPart => identifier_part(c),
            CharClass::Digit => digit(c),
        }
    }
}

/// Where the longest run of characters of `class` that starts at `from`
/// stops: the index of the first character outside the class, or the length
/// of the input.
pub fn run_end(input: &Vec<char>, from: usize, class: CharClass) -> (end: usize)
    requires
        from <= input.len(),
    ensures
        end == from + run_len(input@, from as int, class),
        from <= end <= input.len(),
{
    let mut end: usize = from;
    while end < input.len() && class.contains(input[end])
        invariant
            from <= end <= input.len(),
            end + run_len(input@, end as int, class) == from + run_len(input@, from as int, class),
        decreases input.len() - end,
    {
        end += 1;
    }
    end
}

/// The scanner's state: the text and the position of the next character to
/// classify. The lookahead position is always one past `position`, so it is
/// derived, never stored.
#[derive(Debug, PartialEq, Eq)]
pub struct Lexer {
    /// The text, fixed for the whole scan.
    pub input: Vec<char>,
    /// The index of the next character to classify.
    pub position: usize,
}

impl Lexer {
    /// The position of the lookahead character.
    pub open spec fn read_position(&self) -> int {
        self.position + 1
    }

    /// A scanner at the start of `input`.
    pub fn new(input: Vec<char>) -> (lexer: Lexer)
        ensures
            lexer.input == input,
            lexer.position == 0,
    {
        Lexer { input, position: 0 }
    }
}

/// The character after the cursor, if there is one. The cursor stays where
/// it is.
pub fn peek_char(lexer: &Lexer) -> (ahead: Option<char>)
    ensures
        ahead == lookahead(lexer.input@, lexer.position as int),
        ahead is Some <==> lexer.read_position() < lexer.input.len(),
{
    if lexer.position < lexer.input.len() && lexer.position + 1 < lexer.input.len() {
        Some(lexer.input[lexer.position + 1])
    } else {
        None
    }
}

/// The token of the single character `c`, if it has one.
pub fn single(c: char) -> (found: Option<Token>)
    ensures
        match single_token(c) {
            Some(token) => found matches Some(t) && t@ == token,
            None => found is None,
        },
{
    match c {
        '{' => Some(Token::LeftBrace),
        '}' => Some(Token::RightBrace),
        '[' => Some(Token::LeftBracket),
        ']' => Some(Token::RightBracket),
        '(' => Some(Token::LeftParen),
        ')' => Some(Token::RightParen),
        ';' => Some(Token::Semicolon),
        ':' => Some(Token::Colon),
        '.' => Some(Token::Period),
        '*' => Some(Token::Asterisk),
        '?' => Some(Token::QuestionMark),
        '+' => Some(Token::Plus),
        '_' => Some(Token::Underscore),
        '\n' => Some(Token::EOL),
        '-' => Some(Token::Dash),
        '>' => Some(Token::GeComparator),
        '<' => Some(Token::LeComparator),
        '=' => Some(Token::Assign),
        '!' => Some(Token::ExclamationMark),
        '&' => Some(Token::Ampersand),
        '|' => Some(Token::Pipe),
        '/' => Some(Token::Slash),
        _ => None,
    }
}

/// The operator that `c` directly followed by `next` spells, if any.
pub fn paired(c: char, next: char) -> (found: Option<Token>)
    ensures
        match double_token(c, next) {
            Some(token) => found matches Some(t) && t@ == token,
            None => found is None,
        },
{
    if c == '-' && next == '>' {
        Some(Token::RightArrow)
    } else if c == '>' && next == '=' {
        Some(Token::GeqComparator)
    } else if c == '<' && next == '=' {
        Some(Token::LeqComparator)
    } else if c == '=' && next == '=' {
        Some(Token::EqComparator)
    } else if c == '!' && next == '=' {
        Some(Token::NeqComparator)
    } else if c == '&' && next == '&' {
        Some(Token::AndOperation)
    } else if c == '|' && next == '|' {
        Some(Token::OrOperation)
    } else {
        None
    }
}

/// Classifies the token that starts at the cursor and moves the cursor just
/// past it.
///
/// On failure the cursor stays where it was.
pub fn next_token(lexer: &mut Lexer) -> (r: Result<Token, LexError>)
    requires
        old(lexer).position < old(lexer).input.len(),
    ensures
        final(lexer).input == old(lexer).input,
        match token_at(old(lexer).input@, old(lexer).position as int) {
            Ok((token, next)) => r matches Ok(found) && found@ == token && final(lexer).position
                == next,
            Err(e) => r == Err::<Token, LexError>(e) && final(lexer).position == old(
                lexer,
            ).position,
        },
        final(lexer).position <= final(lexer).input.len(),
        r is Ok ==> final(lexer).position > old(lexer).position,
{
    let pos: usize = lexer.position;
    let len: usize = lexer.input.len();
    let c: char = lexer.input[pos];
    let ahead: Option<char> = peek_char(lexer);
    proof {
        lemma_token_advances(lexer.input@, pos as int);
    }
    let pair: Option<Token> = match ahead {
        Some(next) => paired(c, next),
        None => None,
    };
    let slashes: bool = match ahead {
        Some(next) => c == '/' && next == '/',
        None => false,
    };
    assert(slashes == comment_starts(lexer.input@, pos as int));
    assert(pair is Some == operator_pair_at(lexer.input@, pos as int));
    if slashes {
        let end: usize = run_end(&lexer.input, pos + 2, CharClass::Except('\n'));
        if end < len {
            let text: String = text_between(&lexer.input, pos, end);
            lexer.position = end;
            Ok(Token::Comment(text))
        } else {
            Err(LexError::UnterminatedComment)
        }
    } else if let Some(token) = pair {
        lexer.position = pos + 2;
        Ok(token)
    } else if let Some(token) = single(c) {
        lexer.position = pos + 1;
        Ok(token)
    } else if c == '"' {
        let close: usize = run_end(&lexer.input, pos + 1, CharClass::Except('"'));
        if close < len {
            let text: String = text_between(&lexer.input, pos + 1, close);
            lexer.position = close + 1;
            Ok(Token::Literal(text))
        } else {
            Err(LexError::UnterminatedString)
        }
    } else if alphabetic(c) {
        let end: usize = run_end(&lexer.input, pos + 1, CharClass::IdentifierPart);
        let text: String = text_between(&lexer.input, pos, end);
        lexer.position = end;
        Ok(Token::ID(text))
    } else if digit(c) {
        let end: usize = run_end(&lexer.input, pos + 1, CharClass::Digit);
        let text: String = text_between(&lexer.input, pos, end);
        lexer.position = end;
        Ok(Token::Literal(text))
    } else {
        Err(LexError::IllegalCharacter)
    }
}

/// Tells keywords apart from identifiers: an identifier that spells a
/// reserved word gives that keyword; any other token gives an independent
/// copy of itself.
pub fn pull_keywords(token: &Token) -> (r: Token)
    ensures
        r@ == reclassify(token@),
{
    proof {
        reveal_strlit("if");
        reveal_strlit("else");
        reveal_strlit("while");
        reveal_strlit("in");
        reveal_strlit("fn");
        reveal_strlit("return");
        reveal_strlit("let");
        assert("if"@ =~= seq!['i', 'f']);
        assert("else"@ =~= seq!['e', 'l', 's', 'e']);
        assert("while"@ =~= seq!['w', 'h', 'i', 'l', 'e']);
        assert("in"@ =~= seq!['i', 'n']);
        assert("fn"@ =~= seq!['f', 'n']);
        assert("return"@ =~= seq!['r', 'e', 't', 'u', 'r', 'n']);
        assert("let"@ =~= seq!['l', 'e', 't']);
    }
    match token {
        Token::ID(text) => {
            let word: &str = text.as_str();
            if same_text(word, "if") {
                Token::IfToken
            } else if same_text(word, "else") {
                Token::ElseToken
            } else if same_text(word, "while") {
                Token::WhileToken
            } else if same_text(word, "in") {
                Token::InToken
            } else if same_text(word, "fn") {
                Token::FnToken
            } else if same_text(word, "return") {
                Token::ReturnToken
            } else if same_text(word, "let") {
                Token::LetToken
            } else {
                Token::ID(text.clone())
            }
        },
        other => other.clone(),
    }
}

/// Turns a text into its tokens.
///
/// Spaces and carriage returns separate tokens and produce none; a line
/// feed produces an end-of-line token. Keywords are told apart from
/// identifiers once the whole text is scanned. The result is all or
/// nothing: the first position at which no token starts fails the call.
pub fn tokenise(input: Vec<char>) -> (r: Result<Vec<Token>, LexError>)
    ensures
        match tokens_of(input@) {
            Ok(expected) => r matches Ok(found) && views(found@) == expected,
            Err(e) => r == Err::<Vec<Token>, LexError>(e),
        },
{
    let mut lexer: Lexer = Lexer::new(input);
    let ghost text: Seq<char> = lexer.input@;
    let mut tokens: Vec<Token> = Vec::new();
    assert(views(tokens@) + scan(text, 0)->Ok_0 =~= scan(text, 0)->Ok_0);
    while lexer.position < lexer.input.len()
        invariant
            input@ == text,
            lexer.input@ == text,
            lexer.position <= text.len(),
            scan(text, 0) == followed_by(views(tokens@), scan(text, lexer.position as int)),
        decreases text.len() - lexer.position,
    {
        if blank(lexer.input[lexer.position]) {
            lexer.position += 1;
        } else {
            let ghost before: Seq<TokenView> = views(tokens@);
            let ghost at: int = lexer.position as int;
            proof {
                lemma_token_advances(text, at);
            }
            match next_token(&mut lexer) {
                Ok(token) => {
                    tokens.push(token);
                    proof {
                        let rest = scan(text, lexer.position as int);
                        assert(views(tokens@) =~= before.push(token@));
                        if rest is Ok {
                            assert(before + (seq![token@] + rest->Ok_0) =~= before.push(token@)
                                + rest->Ok_0);
                        }
                    }
                },
                Err(e) => {
                    assert(scan(text, at) == Err::<Seq<TokenView>, LexError>(e));
                    return Err(e);
                },
            }
        }
    }
    let ghost scanned: Seq<TokenView> = views(tokens@);
    assert(scanned + Seq::<TokenView>::empty() =~= scanned);
    let mut index: usize = 0;
    while index < tokens.len()
        invariant
            index <= tokens.len(),
            tokens.len() == scanned.len(),
            forall|i: int| 0 <= i < index ==> (#[trigger] tokens[i])@ == reclassify(scanned[i]),
            forall|i: int| index <= i < tokens.len() ==> (#[trigger] tokens[i])@ == scanned[i],
        decreases tokens.len() - index,
    {
        let upgraded: Token = pull_keywords(&tokens[index]);
        tokens.set(index, upgraded);
        index += 1;
    }
    assert(views(tokens@) =~= reclassify_all(scanned));
    Ok(tokens)
}

} // verus!
