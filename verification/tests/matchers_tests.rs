use cfern::lexer::matchers::{
    ConstantMatcher, IdentifierMatcher, KeywordMatcher, SymbolMatcher, TokenMatcher,
};
use cfern::token::{Keyword, Symbol, TokenKind};

#[test]
fn keyword_matcher_int() {
    let matcher = KeywordMatcher;
    let token = matcher.try_match("int main", 0).unwrap();
    assert_eq!(*token.kind(), TokenKind::Keyword(Keyword::Int));
    assert_eq!(token.len(), 3);
}

#[test]
fn keyword_matcher_not_keyword() {
    let matcher = KeywordMatcher;
    assert!(matcher.try_match("inti main", 0).is_none());
}

#[test]
fn identifier_matcher_simple() {
    let matcher = IdentifierMatcher;
    let token = matcher.try_match("my_var = 5;", 0).unwrap();
    assert_eq!(*token.kind(), TokenKind::Identifier("my_var"));
    assert_eq!(token.len(), 6);
}

#[test]
fn identifier_matcher_not_identifier() {
    let matcher = IdentifierMatcher;
    assert!(matcher.try_match("1hi", 0).is_none());
}

#[test]
fn identifier_matcher_non_ascii() {
    let matcher = IdentifierMatcher;
    assert!(matcher.try_match("你好吗 = \"good\";", 0).is_none());
}

#[test]
fn identifier_matcher_non_ascii_end() {
    let matcher = IdentifierMatcher;
    let token = matcher.try_match("test_1234五", 0).unwrap();
    assert_eq!(*token.kind(), TokenKind::Identifier("test_1234"));
    assert_eq!(token.len(), 9);
}

#[test]
fn constant_matcher_number() {
    let matcher = ConstantMatcher;
    let token = matcher.try_match("12345;", 0).unwrap();
    assert_eq!(*token.kind(), TokenKind::Constant("12345"));
    assert_eq!(token.len(), 5);
}

#[test]
fn constant_matcher_not_constant() {
    let matcher = ConstantMatcher;
    assert!(matcher.try_match("{", 0).is_none());
}

#[test]
fn symbol_matcher_semicolon() {
    let matcher = SymbolMatcher;
    let token = matcher.try_match(";", 10).unwrap();
    assert_eq!(*token.kind(), TokenKind::Symbol(Symbol::Semicolon));
    assert_eq!(token.index(), 10);
}

#[test]
fn symbol_matcher_no_match() {
    let matcher = SymbolMatcher;
    assert!(matcher.try_match("@", 0).is_none());
}

// Further edge cases and laws on concrete values.

#[test]
fn matchers_at_positions() {
    let token = KeywordMatcher.try_match("return 0;", 17).unwrap();
    assert_eq!(token.index(), 17);
    assert_eq!(token.len(), 6);
    assert!(KeywordMatcher.try_match("int_x", 0).is_none());
    assert!(ConstantMatcher.try_match("12ab", 0).is_none());
    assert!(SymbolMatcher.try_match("", 0).is_none());
    assert!(SymbolMatcher.try_match("é", 0).is_none());
    let token = SymbolMatcher.try_match("{}", 2).unwrap();
    assert_eq!(*token.kind(), TokenKind::Symbol(Symbol::OpenBrace));
}
