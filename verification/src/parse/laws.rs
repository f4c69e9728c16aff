//! What holds of every text: general facts about the token sequence that a
//! text denotes, proved from the grammar.
use vstd::prelude::*;
use crate::parse::chars::{is_alphabetic, is_blank, is_identifier_part};
use crate::parse::grammar::{
    double_token, followed_by, keyword, lemma_run_to, reclassify, reclassify_all, scan,
    single_token, token_at, tokens_of, CharClass, LexError,
};
use crate::parse::syntax::{first_failure, statement_at};
use crate::parse::token::TokenView;

verus! {

/// A word shaped like an identifier: a letter, then letters, digits and
/// underscores.
pub open spec fn is_identifier(word: Seq<char>) -> bool {
    &&& word.len() > 0
    &&& is_alphabetic(word[0])
    &&& forall|i: int| 0 < i < word.len() ==> is_identifier_part(#[trigger] word[i])
}

/// `count` end-of-line tokens.
pub open spec fn line_ends(count: nat) -> Seq<TokenView> {
    Seq::new(count, |i: int| TokenView::EOL)
}

/// How many line feeds the text holds from `from` on.
pub open spec fn line_feeds(input: Seq<char>, from: int) -> nat
    decreases input.len() - from,
{
    if from < 0 || from >= input.len() {
        0
    } else if input[from] == '\n' {
        1 + line_feeds(input, from + 1)
    } else {
        line_feeds(input, from + 1)
    }
}

/// Every reserved word is shaped like an identifier.
pub proof fn lemma_reserved_is_identifier(word: Seq<char>)
    requires
        keyword(word) is Some,
    ensures
        is_identifier(word),
{
}

/// A word shaped like an identifier scans as one identifier token that
/// carries the whole word.
pub proof fn lemma_identifier_scans_whole(word: Seq<char>)
    requires
        is_identifier(word),
    ensures
        scan(word, 0) == Ok::<Seq<TokenView>, LexError>(seq![TokenView::ID(word)]),
{
    let n = word.len() as int;
    lemma_run_to(word, 1, n, CharClass::IdentifierPart);
    assert(word.subrange(0, n) =~= word);
    assert(token_at(word, 0) == Ok::<(TokenView, int), LexError>((TokenView::ID(word), n)));
    assert(scan(word, n) == Ok::<Seq<TokenView>, LexError>(Seq::empty()));
    assert(seq![TokenView::ID(word)] + Seq::<TokenView>::empty() =~= seq![TokenView::ID(word)]);
}

/// A reserved word standing alone denotes exactly one token, its keyword,
/// and never an identifier.
pub proof fn law_reserved_word_alone(word: Seq<char>)
    requires
        keyword(word) is Some,
    ensures
        tokens_of(word) == Ok::<Seq<TokenView>, LexError>(seq![keyword(word)->0]),
        !(keyword(word)->0 is ID),
{
    lemma_reserved_is_identifier(word);
    lemma_identifier_scans_whole(word);
    assert(reclassify_all(seq![TokenView::ID(word)]) =~= seq![keyword(word)->0]);
}

/// An identifier that is no reserved word, standing alone, denotes exactly
/// one identifier token that carries the word as written.
pub proof fn law_identifier_alone(word: Seq<char>)
    requires
        is_identifier(word),
        keyword(word) is None,
    ensures
        tokens_of(word) == Ok::<Seq<TokenView>, LexError>(seq![TokenView::ID(word)]),
{
    lemma_identifier_scans_whole(word);
    assert(reclassify_all(seq![TokenView::ID(word)]) =~= seq![TokenView::ID(word)]);
}

/// Where the character after an operator's first character completes a
/// two-character operator, the token is that operator and spans both
/// characters: the one-character token of the first is never produced there.
pub proof fn law_operator_pair_wins(input: Seq<char>, pos: int)
    requires
        0 <= pos,
        pos + 1 < input.len(),
        double_token(input[pos], input[pos + 1]) is Some,
    ensures
        token_at(input, pos) == Ok::<(TokenView, int), LexError>(
            (double_token(input[pos], input[pos + 1])->0, pos + 2),
        ),
        single_token(input[pos]) is Some,
        single_token(input[pos]) != double_token(input[pos], input[pos + 1]),
        scan(input, pos) == followed_by(
            seq![double_token(input[pos], input[pos + 1])->0],
            scan(input, pos + 2),
        ),
{
}

/// Two slashes start a comment or fail the text; a slash token is never
/// produced for the first of them.
pub proof fn law_comment_wins(input: Seq<char>, pos: int)
    requires
        0 <= pos,
        pos + 1 < input.len(),
        input[pos] == '/',
        input[pos + 1] == '/',
    ensures
        match token_at(input, pos) {
            Ok((token, _)) => token is Comment,
            Err(e) => e == LexError::UnterminatedComment,
        },
{
}

/// A two-character operator standing alone denotes exactly that operator.
pub proof fn law_operator_pair_alone(first: char, second: char)
    requires
        double_token(first, second) is Some,
    ensures
        tokens_of(seq![first, second]) == Ok::<Seq<TokenView>, LexError>(
            seq![double_token(first, second)->0],
        ),
{
    let input = seq![first, second];
    let token = double_token(first, second)->0;
    law_operator_pair_wins(input, 0);
    assert(scan(input, 2) == Ok::<Seq<TokenView>, LexError>(Seq::empty()));
    assert(seq![token] + Seq::<TokenView>::empty() =~= seq![token]);
    assert(reclassify_all(seq![token]) =~= seq![token]);
}

/// Whether `token` is one of the seven keywords.
pub open spec fn is_keyword(token: TokenView) -> bool {
    token is IfToken || token is ElseToken || token is WhileToken || token is InToken
        || token is FnToken || token is ReturnToken || token is LetToken
}

/// Scanning alone produces neither a keyword nor the illegal token: keywords
/// come only from identifiers, once the whole text is scanned.
pub proof fn law_scanner_produces_no_keyword(input: Seq<char>, pos: int)
    requires
        0 <= pos < input.len(),
    ensures
        token_at(input, pos) matches Ok((token, _)) ==> !is_keyword(token) && !(token is Illegal),
{
}

/// Telling keywords apart changes identifiers only, and only those that
/// spell a reserved word; doing it twice changes nothing more.
pub proof fn law_reclassify_touches_reserved_identifiers_only(token: TokenView)
    ensures
        reclassify(token) != token ==> token is ID && keyword(token->ID_0) == Some(
            reclassify(token),
        ),
        reclassify(reclassify(token)) == reclassify(token),
        reclassify(token) is ID ==> keyword(reclassify(token)->ID_0) is None,
{
}

/// The tokens of a text are those of the scan, one for one and in the same
/// order, each with keywords told apart: none is added, dropped or moved.
pub proof fn law_reclassification_keeps_order(input: Seq<char>)
    requires
        scan(input, 0) is Ok,
    ensures
        tokens_of(input) is Ok,
        tokens_of(input)->Ok_0.len() == scan(input, 0)->Ok_0.len(),
        forall|i: int|
            0 <= i < scan(input, 0)->Ok_0.len() ==> (#[trigger] tokens_of(input)->Ok_0[i])
                == reclassify(scan(input, 0)->Ok_0[i]),
{
}

/// A text fails exactly when its scan fails, and with the same error.
pub proof fn law_failure_comes_from_the_scan(input: Seq<char>)
    ensures
        tokens_of(input) is Err <==> scan(input, 0) is Err,
        scan(input, 0) matches Err(e) ==> tokens_of(input) == Err::<Seq<TokenView>, LexError>(e),
{
}

/// A space or a carriage return produces no token: the tokens from it on are
/// the tokens from the next position on.
pub proof fn law_blank_produces_nothing(input: Seq<char>, pos: int)
    requires
        0 <= pos < input.len(),
        is_blank(input[pos]),
    ensures
        scan(input, pos) == scan(input, pos + 1),
{
}

/// A line feed is never passed over: it produces an end-of-line token.
pub proof fn law_line_feed_produces_end_of_line(input: Seq<char>, pos: int)
    requires
        0 <= pos < input.len(),
        input[pos] == '\n',
    ensures
        scan(input, pos) == followed_by(seq![TokenView::EOL], scan(input, pos + 1)),
{
}

/// From `pos` on, a text of spaces, carriage returns and line feeds scans as
/// one end-of-line token for each line feed.
pub proof fn lemma_whitespace_from(input: Seq<char>, pos: int)
    requires
        0 <= pos <= input.len(),
        forall|i: int|
            pos <= i < input.len() ==> is_blank(#[trigger] input[i]) || input[i] == '\n',
    ensures
        scan(input, pos) == Ok::<Seq<TokenView>, LexError>(line_ends(line_feeds(input, pos))),
    decreases input.len() - pos,
{
    if pos < input.len() {
        lemma_whitespace_from(input, pos + 1);
        let rest = line_feeds(input, pos + 1);
        if input[pos] == '\n' {
            assert(seq![TokenView::EOL] + line_ends(rest) =~= line_ends(rest + 1));
        }
    } else {
        assert(line_ends(0) =~= Seq::<TokenView>::empty());
    }
}

/// A text made of whitespace alone denotes one end-of-line token for each
/// of its line feeds and nothing else: spaces and carriage returns add no
/// token.
pub proof fn law_whitespace_only(input: Seq<char>)
    requires
        forall|i: int|
            0 <= i < input.len() ==> is_blank(#[trigger] input[i]) || input[i] == '\n',
    ensures
        tokens_of(input) == Ok::<Seq<TokenView>, LexError>(line_ends(line_feeds(input, 0))),
{
    lemma_whitespace_from(input, 0);
    let ends = line_ends(line_feeds(input, 0));
    assert(reclassify_all(ends) =~= ends);
}

/// A text of spaces and carriage returns alone denotes no token at all.
pub proof fn law_blanks_only(input: Seq<char>)
    requires
        forall|i: int| 0 <= i < input.len() ==> is_blank(#[trigger] input[i]),
    ensures
        tokens_of(input) == Ok::<Seq<TokenView>, LexError>(Seq::empty()),
{
    law_whitespace_only(input);
    lemma_no_line_feeds(input, 0);
    assert(line_ends(0) =~= Seq::<TokenView>::empty());
}

/// A text without line feeds from `from` on counts none.
pub proof fn lemma_no_line_feeds(input: Seq<char>, from: int)
    requires
        0 <= from <= input.len(),
        forall|i: int| from <= i < input.len() ==> #[trigger] input[i] != '\n',
    ensures
        line_feeds(input, from) == 0,
    decreases input.len() - from,
{
    if from < input.len() {
        lemma_no_line_feeds(input, from + 1);
    }
}

/// A position at which no statement starts is met by reading on from any
/// position before it.
pub proof fn lemma_failure_is_met(tokens: Seq<TokenView>, pos: int, bad: int)
    requires
        0 <= pos <= bad < tokens.len(),
        statement_at(tokens, bad) is Err,
    ensures
        first_failure(tokens, pos) is Some,
    decreases bad - pos,
{
    if pos < bad && statement_at(tokens, pos) is Ok {
        lemma_failure_is_met(tokens, pos + 1, bad);
    }
}

/// As long as `let` is the only statement form and a statement is read at
/// every position, only the empty token sequence passes: the last token of
/// any other starts no complete statement.
pub proof fn law_only_the_empty_sequence_passes(tokens: Seq<TokenView>)
    ensures
        first_failure(tokens, 0) is None <==> tokens.len() == 0,
{
    if tokens.len() > 0 {
        lemma_failure_is_met(tokens, 0, tokens.len() - 1);
    }
}

} // verus!
