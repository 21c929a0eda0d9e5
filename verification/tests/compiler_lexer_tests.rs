use cfern::compiler::lexer::{
    consume, consume_next_token, consume_whitespace_comments, count_applicable, count_comment,
    count_to, count_whitespace, get_remaining, lex, LexingError,
};
use cfern::compiler::token::{Keyword, Symbol, Token, TokenKind};

fn consume_next_token_helper(
    data: &'static str,
    start_index: usize,
    expected_token: Token<'_>,
    expected_end_index: usize,
    expected_remaining: &'static str,
) {
    let mut index = start_index;
    assert_eq!(
        consume_next_token(data, &mut index).unwrap(),
        Some(expected_token)
    );
    assert_eq!(index, expected_end_index);
    assert_eq!(get_remaining(data, index), expected_remaining);
}

#[test]
fn lex_basic_c_code() {
    let my_program = "/*
 * This is my test program.
 * I hope it lexes properly!
 */
int main(void) {
    // It just returns 2 for now. Pretty simple.
    return 2; // This is the return value
}";
    let expected = [
        Token::new(TokenKind::Keyword(Keyword::Int), 64),
        Token::new(TokenKind::Identifier("main"), 68),
        Token::new(TokenKind::Symbol(Symbol::OpenParenthesis), 72),
        Token::new(TokenKind::Keyword(Keyword::Void), 73),
        Token::new(TokenKind::Symbol(Symbol::CloseParenthesis), 77),
        Token::new(TokenKind::Symbol(Symbol::OpenBrace), 79),
        Token::new(TokenKind::Keyword(Keyword::Return), 134),
        Token::new(TokenKind::Constant("2"), 141),
        Token::new(TokenKind::Symbol(Symbol::Semicolon), 142),
        Token::new(TokenKind::Symbol(Symbol::CloseBrace), 172),
    ];

    assert_eq!(&lex(my_program).unwrap()[..], expected);
}

#[test]
fn next_token_keyword() {
    consume_next_token_helper(
        "int my_val = 0;",
        0,
        Token::new(TokenKind::Keyword(Keyword::Int), 0),
        3,
        " my_val = 0;",
    );
}

#[test]
fn next_token_ident() {
    consume_next_token_helper(
        "int my_val = 0;",
        3,
        Token::new(TokenKind::Identifier("my_val"), 4),
        10,
        " = 0;",
    );
}

#[test]
fn next_token_const() {
    consume_next_token_helper(
        "int my_val = 0;",
        12,
        Token::new(TokenKind::Constant("0"), 13),
        14,
        ";",
    );
}

#[test]
fn next_token_semicolon() {
    consume_next_token_helper(
        "int my_val = 0;",
        14,
        Token::new(TokenKind::Symbol(Symbol::Semicolon), 14),
        15,
        "",
    );
}

#[test]
fn next_token_empty() {
    let mut index = 0;
    assert_eq!(consume_next_token("", &mut index).unwrap(), None);
}

#[test]
fn next_token_actually_ident() {
    consume_next_token_helper(
        "// Comment ça va?\ninti",
        0,
        Token::new(TokenKind::Identifier("inti"), 19),
        23,
        "",
    );
}

#[test]
fn next_token_no_number_start() {
    let mut index = 3;
    assert_eq!(
        consume_next_token("int 123bar = 0;", &mut index).unwrap_err(),
        LexingError::NoValidToken { index: 4 }
    );
}

#[test]
fn consume_whitespace_simple() {
    let data = "  \n  hello";
    let mut index = 0;
    let mut data_ref = data;

    consume_whitespace_comments(&mut data_ref, &mut index);
    assert_eq!(data_ref, "hello");
    assert_eq!(index, 5);
}

#[test]
fn consume_whitespace_comments_multiple() {
    let data = "   \t\r\n// comment\n/*\n * Multiline\n */\n  hello";
    let mut index = 0;
    let mut data_ref = data;

    consume_whitespace_comments(&mut data_ref, &mut index);
    assert_eq!(data_ref, "hello");
    assert_eq!(index, 39);
}

#[test]
fn check_consume() {
    let data = "hello";
    let mut index = 0;
    let mut data_ref = data;

    consume(&mut data_ref, &mut index, 1);
    assert_eq!(data_ref, "ello");
    assert_eq!(index, 1);

    consume(&mut data_ref, &mut index, 3);
    assert_eq!(data_ref, "o");
    assert_eq!(index, 4);
}

#[test]
fn count_whitespace_simple() {
    assert_eq!(count_whitespace("   \n\r\t\t"), 7);
}

#[test]
fn count_whitespace_none() {
    assert_eq!(count_whitespace("1  "), 0);
}

#[test]
fn count_whitespace_non_ascii() {
    // U+205F: medium mathematical space
    assert_eq!(count_whitespace("\t\u{205F} "), 5);
}

#[test]
fn count_comment_oneline() {
    let data = "// This is a comment\n//thisisanother\n#include <stdio.h>\n";
    assert_eq!(count_comment(data), 21);
}

#[test]
fn count_comment_online_no_newline() {
    let data = "// This is a comment with no newline";
    assert_eq!(count_comment(data), 0);
}

#[test]
fn count_comment_multiline() {
    let data = "/* \n * This is a multiline\n * comment\n */\n#include <stdio.h>\n";
    assert_eq!(count_comment(data), 41);
}

#[test]
fn count_comment_multiline_nested() {
    let data = "/* \n * Nested\n * /* \n *  * comment\n *  */\n */";
    assert_eq!(count_comment(data), 41);
}

#[test]
fn count_comment_multiline_no_end() {
    let data = "/* \n * not a comment\n * \n";
    assert_eq!(count_comment(data), 0);
}

#[test]
fn count_comment_none() {
    let data = "int hello = 1; // this is the start of the comment";
    assert_eq!(count_comment(data), 0);
}

#[test]
fn count_applicable_simple() {
    assert_eq!(count_applicable("hello there", |c| c.is_alphabetic()), 5);
}

#[test]
fn count_applicable_case() {
    assert_eq!(
        count_applicable("four score and Seven years ago", |c| !c
            .is_ascii_uppercase()),
        15
    );
}

#[test]
fn count_applicable_multibyte() {
    assert_eq!(count_applicable("我是Max", |c| !c.is_ascii()), 6);
}

#[test]
fn count_applicable_end() {
    let data = "Hullo! Nice to meet you";
    assert_eq!(count_applicable(data, |c| c.is_ascii()), data.len());
}

#[test]
fn count_applicable_empty() {
    assert_eq!(count_applicable("", |_| true), 0);
}

#[test]
fn count_to_simple() {
    assert_eq!(count_to("hello there\nnice to meet you!", "to"), Some(17));
}

#[test]
fn count_to_start() {
    assert_eq!(count_to("match immediately", "match"), Some(0));
}

#[test]
fn count_to_multibyte_chars() {
    assert_eq!(
        count_to("你好\n我是马克斯\nhello\nI'm Max", "hello"),
        Some(23)
    );
}

#[test]
fn count_to_multiple_matches() {
    assert_eq!(count_to("i am sam i am", "am"), Some(2));
}

#[test]
fn count_to_no_match() {
    assert_eq!(count_to("om nom nom", "am"), None);
}

#[test]
fn count_to_empty_data() {
    assert_eq!(count_to("", "blah"), None);
}

#[test]
fn count_to_empty_pattern() {
    assert_eq!(count_to("this is a test", ""), Some(0));
}

#[test]
fn count_to_both_empty() {
    assert_eq!(count_to("", ""), None);
}

// Further edge cases and laws on concrete values.

#[test]
fn lex_error_has_display_text() {
    let err = lex("int @").unwrap_err();
    assert_eq!(err, LexingError::NoValidToken { index: 4 });
    assert_eq!(err.index(), 4);
    assert_eq!(err.to_string(), "no valid token at index 4");
}

#[test]
fn lex_only_trivia() {
    assert_eq!(lex("  // nothing\n /* here */ ").unwrap(), vec![]);
}

#[test]
fn lex_keyword_prefix_is_identifier() {
    let tokens = lex("int_x int5 intx int").unwrap();
    assert_eq!(
        tokens,
        vec![
            Token::new(TokenKind::Identifier("int_x"), 0),
            Token::new(TokenKind::Identifier("int5"), 6),
            Token::new(TokenKind::Identifier("intx"), 11),
            Token::new(TokenKind::Keyword(Keyword::Int), 16),
        ]
    );
}

#[test]
fn lex_unterminated_comment_is_error() {
    assert_eq!(
        lex("int /* no end").unwrap_err(),
        LexingError::NoValidToken { index: 4 }
    );
}

#[test]
fn lex_multibyte_in_comment_keeps_byte_indices() {
    let tokens = lex("/* ça */ main").unwrap();
    assert_eq!(tokens, vec![Token::new(TokenKind::Identifier("main"), 10)]);
}

#[test]
fn lex_tokens_spell_the_source() {
    let data = "int main(void) {\n  return 42; /* c */\n}";
    for token in lex(data).unwrap() {
        let text: &str = token.kind().clone().into();
        assert_eq!(&data[token.index()..token.index() + token.len()], text);
    }
}

#[test]
fn consume_next_token_non_ascii_start_is_error() {
    let mut index = 0;
    assert_eq!(
        consume_next_token("你", &mut index).unwrap_err(),
        LexingError::NoValidToken { index: 0 }
    );
    assert_eq!(index, 0);
}

#[test]
fn lex_non_ascii_after_token_is_error_at_its_byte() {
    assert_eq!(
        lex("int é").unwrap_err(),
        LexingError::NoValidToken { index: 4 }
    );
}

#[test]
fn count_comment_block_close_searched_from_opener() {
    // The closing `*/` is looked for from the opening `/*` on, so `/*/` closes itself.
    assert_eq!(count_comment("/*/ x"), 3);
    assert_eq!(count_comment("/**/ x"), 4);
    assert_eq!(count_comment("/* x"), 0);
}

#[test]
fn lex_slash_star_slash_is_a_comment() {
    assert_eq!(lex("/*/ x").unwrap(), vec![Token::new(TokenKind::Identifier("x"), 4)]);
}

#[test]
fn consume_next_token_at_end_reaches_data_len() {
    let data = "x /* c */ \n";
    let mut index = 1;
    assert_eq!(consume_next_token(data, &mut index).unwrap(), None);
    assert_eq!(index, data.len());
}
