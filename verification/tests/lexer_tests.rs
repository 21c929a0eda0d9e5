use cfern::compiler::{
    lex,
    lexer::LexingError,
    token::{Keyword, Symbol, Token, TokenKind},
};

// The C programs these tests read are written out inline; each places its tokens
// at the byte indices that the assertions check.

#[test]
fn lexer_tests_return_2() {
    let data = "int main(void) {\nreturn 2;\n}\n";
    let expected = [
        Token::new(TokenKind::Keyword(Keyword::Int), 0),
        Token::new(TokenKind::Identifier("main"), 4),
        Token::new(TokenKind::Symbol(Symbol::OpenParenthesis), 8),
        Token::new(TokenKind::Keyword(Keyword::Void), 9),
        Token::new(TokenKind::Symbol(Symbol::CloseParenthesis), 13),
        Token::new(TokenKind::Symbol(Symbol::OpenBrace), 15),
        Token::new(TokenKind::Keyword(Keyword::Return), 17),
        Token::new(TokenKind::Constant("2"), 24),
        Token::new(TokenKind::Symbol(Symbol::Semicolon), 25),
        Token::new(TokenKind::Symbol(Symbol::CloseBrace), 27),
    ];
    assert_eq!(lex(data).unwrap(), &expected[..]);
}

#[test]
fn return_2_bad_token() {
    let data = "int 2main(void) {\n    return 2;\n}\n";
    assert_eq!(
        lex(data).unwrap_err(),
        LexingError::NoValidToken { index: 4 }
    );
}
