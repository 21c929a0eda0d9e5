use cfern::compiler::parser::{Expression, Function, ParseError, Program, Statement};
use cfern::compiler::token::{Keyword, Symbol, Token, TokenKind};
use cfern::compiler::{lex, parse};

fn return_2_tokens() -> Vec<Token<'static>> {
    vec![
        Token::new(TokenKind::Keyword(Keyword::Int), 64),
        Token::new(TokenKind::Identifier("main"), 68),
        Token::new(TokenKind::Symbol(Symbol::OpenParenthesis), 72),
        Token::new(TokenKind::Keyword(Keyword::Void), 73),
        Token::new(TokenKind::Symbol(Symbol::CloseParenthesis), 77),
        Token::new(TokenKind::Symbol(Symbol::OpenBrace), 79),
        Token::new(TokenKind::Keyword(Keyword::Return), 134),
        Token::new(TokenKind::Constant("2"), 141),
        Token::new(TokenKind::Symbol(Symbol::Semicolon), 142),
        Token::new(TokenKind::Symbol(Symbol::CloseBrace), 172),
    ]
}

#[test]
fn parse_simple() {
    let tokens = [
        Token::new(TokenKind::Keyword(Keyword::Int), 64),
        Token::new(TokenKind::Identifier("main"), 68),
        Token::new(TokenKind::Symbol(Symbol::OpenParenthesis), 72),
        Token::new(TokenKind::Keyword(Keyword::Void), 73),
        Token::new(TokenKind::Symbol(Symbol::CloseParenthesis), 77),
        Token::new(TokenKind::Symbol(Symbol::OpenBrace), 79),
        Token::new(TokenKind::Keyword(Keyword::Return), 134),
        Token::new(TokenKind::Constant("2"), 141),
        Token::new(TokenKind::Symbol(Symbol::Semicolon), 142),
        Token::new(TokenKind::Symbol(Symbol::CloseBrace), 172),
    ];
    let expected = Program {
        function: Function {
            name: "main",
            body: Statement::Return(Expression::Constant("2")),
        },
    };
    assert_eq!(parse(&tokens[..]).unwrap(), expected);
}

// The C programs these tests read are written out inline; each places its tokens
// at the byte indices that the assertions check.

#[test]
fn parser_tests_return_2() {
    let data = "int main(void) {\nreturn 2;\n}\n";
    let tokens = lex(data).unwrap();
    assert_eq!(
        parse(&tokens).unwrap(),
        Program {
            function: Function {
                name: "main",
                body: Statement::Return(Expression::Constant("2"))
            }
        }
    );
}

#[test]
fn return_2_repeated_keyword() {
    let data = "int int main(void) {\n    return 2;\n}\n";
    let tokens = lex(data).unwrap();
    assert_eq!(
        parse(&tokens).unwrap_err(),
        ParseError::ExpectedIdent {
            token_index: 4,
            actual: "keyword \"int\" at index 4".to_string()
        }
    );
}

#[test]
fn return_2_extra_junk() {
    let data = "int main(void) {\n    // A program that returns 2, followed by\n    // a stray word; parse rejects.\n    return 2;\n}\n\nfoo\n";
    assert_eq!(&data[115..118], "foo");
    let tokens = lex(data).unwrap();
    assert_eq!(
        parse(&tokens).unwrap_err(),
        ParseError::UnexpectedToken { token_index: 115 }
    );
}

#[test]
fn return_2_missing_close_brace() {
    let data = "int main(void) {\n    return 2;\n";
    let tokens = lex(data).unwrap();
    assert_eq!(
        parse(&tokens).unwrap_err(),
        ParseError::UnexpectedEofSymbol {
            expected: Symbol::CloseBrace
        },
    );
}

#[test]
fn return_2_missing_semicolon() {
    let data = "int main(void) {\n    return 2\n}\n";
    let tokens = lex(data).unwrap();
    assert_eq!(
        parse(&tokens).unwrap_err(),
        ParseError::ExpectedSymbol {
            token_index: 30,
            expected: Symbol::Semicolon,
            actual: "symbol `}` at index 30".to_string(),
        }
    );
}

// Further edge cases and laws on concrete values.

#[test]
fn parse_errors_of_each_kind() {
    let tokens = return_2_tokens();

    let mut bad = tokens.clone();
    bad[0] = Token::new(TokenKind::Keyword(Keyword::Void), 64);
    let err = parse(&bad).unwrap_err();
    assert_eq!(
        err,
        ParseError::ExpectedKeyword {
            token_index: 64,
            expected: Keyword::Int,
            actual: "keyword \"void\" at index 64".to_string()
        }
    );
    assert_eq!(
        err.to_string(),
        "expected keyword \"int\" at index 64, got keyword \"void\" at index 64"
    );

    let mut bad = tokens.clone();
    bad[7] = Token::new(TokenKind::Identifier("x"), 141);
    let err = parse(&bad).unwrap_err();
    assert_eq!(
        err,
        ParseError::ExpectedConst {
            token_index: 141,
            actual: "identifier \"x\" at index 141".to_string()
        }
    );
    assert_eq!(
        err.to_string(),
        "expected constant at index 141, got identifier \"x\" at index 141"
    );

    let err = parse(&tokens[..6]).unwrap_err();
    assert_eq!(
        err,
        ParseError::UnexpectedEofKeyword {
            expected: Keyword::Return
        }
    );
    assert_eq!(
        err.to_string(),
        "expected keyword \"return\", reached end of file"
    );
    assert_eq!(err.index("int main(void) {"), 15);

    let mut extra = tokens.clone();
    extra.push(Token::new(TokenKind::Symbol(Symbol::Semicolon), 173));
    let err = parse(&extra).unwrap_err();
    assert_eq!(err, ParseError::UnexpectedToken { token_index: 173 });
    assert_eq!(err.to_string(), "unexpected token at index 173");
    assert_eq!(err.index(""), 173);

    let err = ParseError::ExpectedSymbol {
        token_index: 30,
        expected: Symbol::Semicolon,
        actual: "symbol `}` at index 30".to_string(),
    };
    assert_eq!(
        err.to_string(),
        "expected symbol `;` at index 30, got symbol `}` at index 30"
    );
    let err = ParseError::ExpectedIdent {
        token_index: 4,
        actual: "keyword \"int\" at index 4".to_string(),
    };
    assert_eq!(
        err.to_string(),
        "expected identifier at index 4, got keyword \"int\" at index 4"
    );
    let err = ParseError::UnexpectedEofSymbol {
        expected: Symbol::CloseBrace,
    };
    assert_eq!(err.to_string(), "expected symbol `}`, reached end of file");
}
