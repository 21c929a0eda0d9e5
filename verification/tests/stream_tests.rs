use cfern::lexer::stream::SourceStream;

#[test]
fn stream_basic_advance() {
    let mut ss = SourceStream::new("Hello, world!");
    assert_eq!(ss.position(), 0);
    assert_eq!(ss.remaining(), "Hello, world!");
    assert!(!ss.is_at_end());

    ss.advance(5);
    assert_eq!(ss.position(), 5);
    assert_eq!(ss.remaining(), ", world!");
    assert!(!ss.is_at_end());

    ss.advance(7);
    assert_eq!(ss.position(), 12);
    assert_eq!(ss.remaining(), "!");
    assert!(!ss.is_at_end());

    ss.advance(1);
    assert_eq!(ss.position(), 13);
    assert_eq!(ss.remaining(), "");
    assert!(ss.is_at_end());
}

#[test]
fn stream_advance_past_end() {
    let mut ss = SourceStream::new("Hello, world!");

    ss.advance(12);
    assert_eq!(ss.position(), 12);
    assert_eq!(ss.remaining(), "!");
    assert!(!ss.is_at_end());

    ss.advance(1);
    assert_eq!(ss.position(), 13);
    assert_eq!(ss.remaining(), "");
    assert!(ss.is_at_end());

    ss.advance(1);
    assert_eq!(ss.position(), 13);
    assert_eq!(ss.remaining(), "");
    assert!(ss.is_at_end());

    ss.advance(5);
    assert_eq!(ss.position(), 13);
    assert_eq!(ss.remaining(), "");
    assert!(ss.is_at_end());
}

#[test]
fn stream_advance_multibyte() {
    let mut ss = SourceStream::new("你好");

    ss.advance(1);
    assert_eq!(ss.position(), 3);
    assert_eq!(ss.remaining(), "好");
    assert!(!ss.is_at_end());

    ss.advance(1);
    assert_eq!(ss.position(), 6);
    assert_eq!(ss.remaining(), "");
    assert!(ss.is_at_end());

    ss.advance(1);
    assert_eq!(ss.position(), 6);
    assert_eq!(ss.remaining(), "");
    assert!(ss.is_at_end());
}

#[test]
fn stream_consume_whitespace() {
    let mut ss = SourceStream::new("   \t\n  hello");

    ss.consume_whitespace_and_comments();
    assert_eq!(ss.position(), 7);
    assert_eq!(ss.remaining(), "hello");
    assert!(!ss.is_at_end());
}

#[test]
fn stream_consume_line_comment() {
    let mut ss = SourceStream::new("// comment\nhello");

    ss.consume_whitespace_and_comments();
    assert_eq!(ss.position(), 11);
    assert_eq!(ss.remaining(), "hello");
    assert!(!ss.is_at_end());
}

#[test]
fn stream_consume_block_comment() {
    let mut ss =
        SourceStream::new("/* \n * This is a block\n * comment\n */\n#include <stdio.h>\n");

    ss.consume_whitespace_and_comments();
    assert_eq!(ss.position(), 38);
    assert_eq!(ss.remaining(), "#include <stdio.h>\n");
    assert!(!ss.is_at_end());
}

#[test]
fn stream_consume_nested_block_comment() {
    // You can't nest block comments in C!
    let mut ss = SourceStream::new("/* \n * Nested\n * /* \n *  * comment\n *  */\n */");

    ss.consume_whitespace_and_comments();
    assert_eq!(ss.position(), 43);
    assert_eq!(ss.remaining(), "*/");
    assert!(!ss.is_at_end());
}

#[test]
fn stream_block_comment_no_end() {
    let mut ss = SourceStream::new("/* \n * not a comment\n * \n");

    ss.consume_whitespace_and_comments();
    assert_eq!(ss.position(), 0);
    assert_eq!(ss.remaining(), "/* \n * not a comment\n * \n");
    assert!(!ss.is_at_end());
}

// Further edge cases and laws on concrete values.

#[test]
fn stream_count_until() {
    let mut ss = SourceStream::new("ab/*x*/cd");
    assert_eq!(ss.count_until("*/"), Some(5));
    ss.advance(2);
    assert_eq!(ss.count_until("*/"), Some(3));
    assert_eq!(ss.count_until("zz"), None);
}

#[test]
fn stream_empty_source() {
    let mut ss = SourceStream::new("");
    assert!(ss.is_at_end());
    assert_eq!(ss.remaining(), "");
    ss.consume_whitespace_and_comments();
    assert_eq!(ss.position(), 0);
}

#[test]
fn stream_consume_comment_with_multibyte_char() {
    let mut ss = SourceStream::new("// ça\nhello");
    ss.consume_whitespace_and_comments();
    assert_eq!(ss.position(), 7);
    assert_eq!(ss.remaining(), "hello");
    ss.consume_whitespace_and_comments();
    assert_eq!(ss.position(), 7);
}

#[test]
fn stream_consume_multibyte_whitespace() {
    // U+3000 is whitespace and takes three bytes.
    let mut ss = SourceStream::new("\u{3000} /* é */x");
    ss.consume_whitespace_and_comments();
    assert_eq!(ss.position(), 12);
    assert_eq!(ss.remaining(), "x");
}

#[test]
fn stream_slash_star_slash_is_a_comment() {
    let mut ss = SourceStream::new("/*/ x");
    ss.consume_whitespace_and_comments();
    assert_eq!(ss.position(), 4);
    assert_eq!(ss.remaining(), "x");
}
