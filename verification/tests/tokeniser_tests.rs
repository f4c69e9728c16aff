//! Tests of the tokeniser.
use neyman::parse::{tokenise, LexError, Token};

fn chars(text: &str) -> Vec<char> {
    text.chars().collect()
}

fn id(text: &str) -> Token {
    Token::ID(String::from(text))
}

fn literal(text: &str) -> Token {
    Token::Literal(String::from(text))
}

#[test]
fn parse_keywords() {
    let x: Vec<char> = "\
        if return test_var else_var else
        \
        ".chars().collect();
    let output: Vec<Token> = tokenise(x).unwrap();
    assert_eq!(output,
               vec![Token::IfToken,
                    Token::ReturnToken,
                    Token::ID(String::from("test_var")),
                    Token::ID(String::from("else_var")),
                    Token::ElseToken,
                    Token::EOL]
    )
}

#[test]
fn invalid_chars() {
    let x: Vec<char> = "~".chars().collect();
    let result = tokenise(x);
    assert!(result.is_err());
}

#[test]
fn parse_literals() {
    let x: Vec<char> = "\"Hello World+\" 1027384 \n".chars().collect();
    let result = tokenise(x).unwrap();
    assert_eq!(result,
    vec![
        Token::Literal(String::from("Hello World+")),
        Token::Literal(String::from("1027384")),
        Token::EOL
    ]);
}

#[test]
fn parse_ids() {
    let x: Vec<char> = "id_1 m1 1m _m\n".chars().collect();
    let result = tokenise(x).unwrap();
    assert_eq!(result,
               vec![
                   Token::ID(String::from("id_1")),
                   Token::ID(String::from("m1")),
                   Token::Literal(String::from("1")),
                   Token::ID(String::from("m")),
                   Token::Underscore,
                   Token::ID(String::from("m")),
                   Token::EOL
               ]);
}

#[test]
fn illegal_character_is_reported_as_such() {
    assert_eq!(tokenise(chars("~")), Err(LexError::IllegalCharacter));
    assert_eq!(tokenise(chars("let x = 3 # 4\n")), Err(LexError::IllegalCharacter));
    assert_eq!(tokenise(chars("a\tb")), Err(LexError::IllegalCharacter));
}

#[test]
fn empty_text_has_no_tokens() {
    assert_eq!(tokenise(Vec::new()), Ok(vec![]));
}

#[test]
fn each_reserved_word_alone_is_its_keyword() {
    assert_eq!(tokenise(chars("if")), Ok(vec![Token::IfToken]));
    assert_eq!(tokenise(chars("else")), Ok(vec![Token::ElseToken]));
    assert_eq!(tokenise(chars("while")), Ok(vec![Token::WhileToken]));
    assert_eq!(tokenise(chars("in")), Ok(vec![Token::InToken]));
    assert_eq!(tokenise(chars("fn")), Ok(vec![Token::FnToken]));
    assert_eq!(tokenise(chars("return")), Ok(vec![Token::ReturnToken]));
    assert_eq!(tokenise(chars("let")), Ok(vec![Token::LetToken]));
}

#[test]
fn words_near_reserved_words_stay_identifiers() {
    for word in ["iff", "i", "If", "LET", "else_", "whil", "returns", "fn1", "in_", "x", "Z9_a"] {
        assert_eq!(tokenise(chars(word)), Ok(vec![id(word)]), "{}", word);
    }
}

#[test]
fn end_of_input_closes_identifiers_and_numbers() {
    assert_eq!(tokenise(chars("abc")), Ok(vec![id("abc")]));
    assert_eq!(tokenise(chars("123")), Ok(vec![literal("123")]));
    assert_eq!(tokenise(chars("a 007")), Ok(vec![id("a"), literal("007")]));
    assert_eq!(tokenise(chars("x_")), Ok(vec![id("x_")]));
}

#[test]
fn two_character_operators_win_over_their_prefix() {
    assert_eq!(tokenise(chars("->")), Ok(vec![Token::RightArrow]));
    assert_eq!(tokenise(chars(">=")), Ok(vec![Token::GeqComparator]));
    assert_eq!(tokenise(chars("<=")), Ok(vec![Token::LeqComparator]));
    assert_eq!(tokenise(chars("==")), Ok(vec![Token::EqComparator]));
    assert_eq!(tokenise(chars("!=")), Ok(vec![Token::NeqComparator]));
    assert_eq!(tokenise(chars("&&")), Ok(vec![Token::AndOperation]));
    assert_eq!(tokenise(chars("||")), Ok(vec![Token::OrOperation]));
}

#[test]
fn operator_prefixes_stand_alone_when_the_partner_is_missing() {
    assert_eq!(tokenise(chars("-")), Ok(vec![Token::Dash]));
    assert_eq!(tokenise(chars(">")), Ok(vec![Token::GeComparator]));
    assert_eq!(tokenise(chars("<")), Ok(vec![Token::LeComparator]));
    assert_eq!(tokenise(chars("=")), Ok(vec![Token::Assign]));
    assert_eq!(tokenise(chars("!")), Ok(vec![Token::ExclamationMark]));
    assert_eq!(tokenise(chars("&")), Ok(vec![Token::Ampersand]));
    assert_eq!(tokenise(chars("|")), Ok(vec![Token::Pipe]));
    assert_eq!(tokenise(chars("/")), Ok(vec![Token::Slash]));
    assert_eq!(tokenise(chars("- >")), Ok(vec![Token::Dash, Token::GeComparator]));
    assert_eq!(tokenise(chars("-<")), Ok(vec![Token::Dash, Token::LeComparator]));
    assert_eq!(tokenise(chars("=>")), Ok(vec![Token::Assign, Token::GeComparator]));
    assert_eq!(tokenise(chars("/ /")), Ok(vec![Token::Slash, Token::Slash]));
}

#[test]
fn operator_runs_are_split_greedily_from_the_left() {
    assert_eq!(tokenise(chars("===")), Ok(vec![Token::EqComparator, Token::Assign]));
    assert_eq!(tokenise(chars("->=")), Ok(vec![Token::RightArrow, Token::Assign]));
    assert_eq!(tokenise(chars("&&&")), Ok(vec![Token::AndOperation, Token::Ampersand]));
    assert_eq!(tokenise(chars("|||")), Ok(vec![Token::OrOperation, Token::Pipe]));
    assert_eq!(tokenise(chars("!==")), Ok(vec![Token::NeqComparator, Token::Assign]));
    assert_eq!(tokenise(chars("<==")), Ok(vec![Token::LeqComparator, Token::Assign]));
}

#[test]
fn fixed_single_character_tokens() {
    assert_eq!(
        tokenise(chars("{}[]();:.*?+_")),
        Ok(vec![
            Token::LeftBrace,
            Token::RightBrace,
            Token::LeftBracket,
            Token::RightBracket,
            Token::LeftParen,
            Token::RightParen,
            Token::Semicolon,
            Token::Colon,
            Token::Period,
            Token::Asterisk,
            Token::QuestionMark,
            Token::Plus,
            Token::Underscore,
        ])
    );
}

#[test]
fn blanks_produce_no_tokens() {
    assert_eq!(tokenise(chars(" ")), Ok(vec![]));
    assert_eq!(tokenise(chars("\r")), Ok(vec![]));
    assert_eq!(tokenise(chars("  \r \r\r  ")), Ok(vec![]));
    assert_eq!(tokenise(chars("  a  \r b ")), Ok(vec![id("a"), id("b")]));
}

#[test]
fn every_line_feed_is_an_end_of_line() {
    assert_eq!(tokenise(chars("\n")), Ok(vec![Token::EOL]));
    assert_eq!(tokenise(chars("\r\n")), Ok(vec![Token::EOL]));
    assert_eq!(tokenise(chars(" \n \r\n\n ")), Ok(vec![Token::EOL, Token::EOL, Token::EOL]));
    assert_eq!(tokenise(chars("a\nb")), Ok(vec![id("a"), Token::EOL, id("b")]));
}

#[test]
fn comment_then_keyword() {
    assert_eq!(
        tokenise(chars("// a comment\nlet")),
        Ok(vec![Token::Comment(String::from("// a comment")), Token::EOL, Token::LetToken])
    );
}

#[test]
fn comment_keeps_its_text_verbatim_and_leaves_the_line_feed() {
    assert_eq!(
        tokenise(chars("x // if \"q\" ~ //\r\ny")),
        Ok(vec![
            id("x"),
            Token::Comment(String::from("// if \"q\" ~ //\r")),
            Token::EOL,
            id("y"),
        ])
    );
    assert_eq!(tokenise(chars("//\n")), Ok(vec![Token::Comment(String::from("//")), Token::EOL]));
}

#[test]
fn comment_without_line_feed_fails() {
    assert_eq!(tokenise(chars("// no end")), Err(LexError::UnterminatedComment));
    assert_eq!(tokenise(chars("//")), Err(LexError::UnterminatedComment));
    assert_eq!(tokenise(chars("a\n// b")), Err(LexError::UnterminatedComment));
}

#[test]
fn string_literal_is_the_text_between_the_quotes() {
    assert_eq!(tokenise(chars("\"\"")), Ok(vec![literal("")]));
    assert_eq!(tokenise(chars("\"a b\nc ~\"")), Ok(vec![literal("a b\nc ~")]));
    assert_eq!(tokenise(chars("\"if\"")), Ok(vec![literal("if")]));
    assert_eq!(tokenise(chars("\"a\"b")), Ok(vec![literal("a"), id("b")]));
    assert_eq!(tokenise(chars("\"a\"\"b\"")), Ok(vec![literal("a"), literal("b")]));
}

#[test]
fn string_without_closing_quote_fails() {
    assert_eq!(tokenise(chars("\"abc")), Err(LexError::UnterminatedString));
    assert_eq!(tokenise(chars("\"")), Err(LexError::UnterminatedString));
    assert_eq!(tokenise(chars("\"a\\\"b\"")), Err(LexError::UnterminatedString));
}

#[test]
fn first_failure_decides() {
    assert_eq!(tokenise(chars("~ \"abc")), Err(LexError::IllegalCharacter));
    assert_eq!(tokenise(chars("\"abc ~")), Err(LexError::UnterminatedString));
    assert_eq!(tokenise(chars("// ~ \"")), Err(LexError::UnterminatedComment));
}

#[test]
fn only_ascii_letters_and_digits_start_tokens() {
    assert_eq!(tokenise(chars("é")), Err(LexError::IllegalCharacter));
    assert_eq!(tokenise(chars("٣")), Err(LexError::IllegalCharacter));
    assert_eq!(tokenise(chars("aé")), Err(LexError::IllegalCharacter));
    assert_eq!(tokenise(chars("1٣")), Err(LexError::IllegalCharacter));
    assert_eq!(tokenise(chars("\"é٣\"")), Ok(vec![literal("é٣")]));
}

#[test]
fn numbers_and_identifiers_split_where_the_run_ends() {
    assert_eq!(tokenise(chars("12ab34")), Ok(vec![literal("12"), id("ab34")]));
    assert_eq!(tokenise(chars("1_2")), Ok(vec![literal("1"), Token::Underscore, literal("2")]));
    assert_eq!(tokenise(chars("a__1+b")), Ok(vec![id("a__1"), Token::Plus, id("b")]));
    assert_eq!(tokenise(chars("1.5")), Ok(vec![literal("1"), Token::Period, literal("5")]));
    assert_eq!(tokenise(chars("-7")), Ok(vec![Token::Dash, literal("7")]));
}

#[test]
fn a_small_program() {
    assert_eq!(
        tokenise(chars("fn f(x) -> y {\r\n  let z = x >= 1 && !x;\r\n}\n")),
        Ok(vec![
            Token::FnToken,
            id("f"),
            Token::LeftParen,
            id("x"),
            Token::RightParen,
            Token::RightArrow,
            id("y"),
            Token::LeftBrace,
            Token::EOL,
            Token::LetToken,
            id("z"),
            Token::Assign,
            id("x"),
            Token::GeqComparator,
            literal("1"),
            Token::AndOperation,
            Token::ExclamationMark,
            id("x"),
            Token::Semicolon,
            Token::EOL,
            Token::RightBrace,
            Token::EOL,
        ])
    );
}
