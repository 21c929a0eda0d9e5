use cfern::compiler::token::{match_constant, match_identifier, match_keyword};
use cfern::token::{Keyword, KeywordFromStrError, Symbol, Token, TokenKind};

#[test]
fn keyword_regex() {
    assert_eq!(
        match_keyword("static int my_fn() { return 0; }"),
        Some("static")
    );
}

#[test]
fn identifier_regex() {
    assert_eq!(match_identifier("my_var_123 = 6;"), Some("my_var_123"));
}

#[test]
fn constant_regex() {
    assert_eq!(match_constant("24637;"), Some("24637"));
}

#[test]
fn non_ascii_ident_regex() {
    assert_eq!(match_identifier("你好马 = \"good\";"), None);
}

#[test]
fn non_ascii_end_ident_regex() {
    assert_eq!(match_identifier("test_1234五"), Some("test_1234"));
}

#[test]
fn ident_regex_no_match() {
    assert_eq!(match_identifier("不好; int test = 0;"), None);
}

#[test]
fn token_try_keyword_from_str() {
    assert_eq!(
        Keyword::Typedef,
        String::from("typedef").as_str().try_into().unwrap()
    );
    assert_eq!(
        Keyword::Volatile,
        String::from("volatile").as_str().try_into().unwrap()
    );
    assert_eq!(
        Keyword::Continue,
        String::from("continue").as_str().try_into().unwrap()
    );
}

#[test]
fn token_try_keyword_from_str_no_match() {
    let s = String::from("hello");
    let result: Result<Keyword, KeywordFromStrError<'_>> = s.as_str().try_into();
    assert_eq!(KeywordFromStrError("hello"), result.unwrap_err());

    let s = String::from("Signed");
    let result: Result<Keyword, KeywordFromStrError<'_>> = s.as_str().try_into();
    assert_eq!(KeywordFromStrError("Signed"), result.unwrap_err());

    let s = String::from(" int");
    let result: Result<Keyword, KeywordFromStrError<'_>> = s.as_str().try_into();
    assert_eq!(KeywordFromStrError(" int"), result.unwrap_err());
}

#[test]
fn token_keyword_as_str() {
    let s: &'static str = Keyword::Int.into();
    assert_eq!(s, "int");
}

#[test]
fn token_verify_symbol_to_char_ok() {
    for symbol in Symbol::iter() {
        let _: char = symbol.into();
    }
}

// Further edge cases and laws on concrete values.

#[test]
fn regex_word_boundaries() {
    assert_eq!(match_keyword("int5"), None);
    assert_eq!(match_keyword("int_"), None);
    assert_eq!(match_keyword("int("), Some("int"));
    assert_eq!(match_keyword("int"), Some("int"));
    assert_eq!(match_keyword("intж"), Some("int"));
    assert_eq!(match_keyword(""), None);
    assert_eq!(match_constant("123bar"), None);
    assert_eq!(match_constant("123_"), None);
    assert_eq!(match_constant("123)"), Some("123"));
    assert_eq!(match_identifier("_x1 y"), Some("_x1"));
    assert_eq!(match_identifier("1x"), None);
}

#[test]
fn every_keyword_round_trips() {
    for keyword in Keyword::iter() {
        let s: &'static str = keyword.into();
        assert_eq!(Keyword::try_from(s), Ok(keyword));
        assert_eq!(keyword.to_string(), s);
    }
    assert_eq!(Keyword::iter().len(), 32);
}

#[test]
fn keyword_error_message() {
    assert_eq!(
        KeywordFromStrError("hello").to_string(),
        "str 'hello' does not match any C keyword"
    );
}

#[test]
fn symbol_spellings() {
    let spelled: Vec<&'static str> = Symbol::iter().into_iter().map(|s| s.into()).collect();
    assert_eq!(spelled, vec!["(", ")", "{", "}", ";"]);
    for symbol in Symbol::iter() {
        let c: char = symbol.into();
        let s: &'static str = (&symbol).into();
        assert_eq!(s, c.to_string());
        assert_eq!(symbol.to_string(), s);
    }
}

#[test]
fn token_constructors_and_getters() {
    let placeholder = Token::create_placeholder();
    assert!(placeholder.is_empty());
    assert_eq!(placeholder.len(), 0);
    assert_eq!(placeholder.index(), 0);
    assert_eq!(*placeholder.kind(), TokenKind::Identifier(""));

    let kw = Token::new(TokenKind::Keyword(Keyword::Unsigned), 7);
    assert_eq!(kw.len(), 8);
    assert_eq!(kw.index(), 7);
    assert!(!kw.is_empty());
    let ident = Token::new(TokenKind::Identifier("héllo"), 1);
    assert_eq!(ident.len(), 6);
    let sym = Token::new(TokenKind::Symbol(Symbol::Semicolon), 3);
    assert_eq!(sym.len(), 1);
}

#[test]
fn token_debug_strings() {
    assert_eq!(
        Token::new(TokenKind::Keyword(Keyword::Int), 4).to_debug_string(),
        "keyword \"int\" at index 4"
    );
    assert_eq!(
        Token::new(TokenKind::Identifier("main"), 12).to_debug_string(),
        "identifier \"main\" at index 12"
    );
    assert_eq!(
        Token::new(TokenKind::Constant("2"), 0).to_debug_string(),
        "constant `2` at index 0"
    );
    assert_eq!(
        Token::new(TokenKind::Symbol(Symbol::CloseBrace), 30).to_debug_string(),
        "symbol `}` at index 30"
    );
}

#[test]
fn try_update_keeps_longest() {
    let data = "integer";
    let mut token = Token::create_placeholder();
    token.try_update(data, 5, match_keyword, |s| {
        Keyword::try_from(s).ok().map(TokenKind::Keyword)
    });
    assert!(token.is_empty());
    token.try_update(data, 5, match_identifier, |s| Some(TokenKind::Identifier(s)));
    assert_eq!(token, Token::new(TokenKind::Identifier("integer"), 5));
    token.try_update(data, 9, |_| Some("in"), |s| Some(TokenKind::Identifier(s)));
    assert_eq!(token, Token::new(TokenKind::Identifier("integer"), 5));
}

#[test]
fn token_kind_into_str() {
    let s: &str = TokenKind::Keyword(Keyword::Return).into();
    assert_eq!(s, "return");
    let s: &str = TokenKind::Constant("12").into();
    assert_eq!(s, "12");
    let s: &str = TokenKind::Symbol(Symbol::OpenBrace).into();
    assert_eq!(s, "{");
}
