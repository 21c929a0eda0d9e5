//! Parsing of [`Token`]s into the abstract syntax tree of a C program.

use crate::text::{decimal, push_decimal};
use crate::token::{
    debug_text, keyword_chars, symbol_char, Keyword, KindView, Symbol, Token, TokenKind, TokenView,
};
use vstd::prelude::*;
use vstd::string::StringExecFns;

verus! {

/// The root of the abstract syntax tree: a program of one function.
#[derive(Clone, Debug, PartialEq, Eq)]
pub struct Program<'a> {
    /// The program's only function.
    pub function: Function<'a>,
}

/// A function definition.
#[derive(Clone, Debug, PartialEq, Eq)]
pub struct Function<'a> {
    /// The function's name.
    pub name: &'a str,
    /// The function's body.
    pub body: Statement<'a>,
}

/// A statement.
#[derive(Clone, Debug, PartialEq, Eq)]
pub enum Statement<'a> {
    /// `return` of an expression.
    Return(Expression<'a>),
}

/// An expression.
#[derive(Clone, Debug, PartialEq, Eq)]
pub enum Expression<'a> {
    /// An integer constant, as written.
    Constant(&'a str),
}

/// The mathematical value of an [`Expression`].
pub enum ExpressionView {
    /// An integer constant with the given text.
    Constant(Seq<char>),
}

/// The mathematical value of a [`Statement`].
pub enum StatementView {
    /// `return` of an expression.
    Return(ExpressionView),
}

/// The mathematical value of a [`Function`].
pub struct FunctionView {
    /// The function's name.
    pub name: Seq<char>,
    /// The function's body.
    pub body: StatementView,
}

/// The mathematical value of a [`Program`].
pub struct ProgramView {
    /// The program's only function.
    pub function: FunctionView,
}

impl<'a> View for Expression<'a> {
    type V = ExpressionView;

    open spec fn view(&self) -> ExpressionView {
        match self {
            Expression::Constant(s) => ExpressionView::Constant(s@),
        }
    }
}

impl<'a> View for Statement<'a> {
    type V = StatementView;

    open spec fn view(&self) -> StatementView {
        match self {
            Statement::Return(e) => StatementView::Return(e@),
        }
    }
}

impl<'a> View for Function<'a> {
    type V = FunctionView;

    open spec fn view(&self) -> FunctionView {
        FunctionView { name: self.name@, body: self.body@ }
    }
}

impl<'a> View for Program<'a> {
    type V = ProgramView;

    open spec fn view(&self) -> ProgramView {
        ProgramView { function: self.function@ }
    }
}

/// An error that parsing can give.
#[derive(Clone, Debug, PartialEq, Eq)]
pub enum ParseError {
    /// A token other than the keyword that the grammar requires.
    ExpectedKeyword {
        /// Byte index of the token found.
        token_index: usize,
        /// The keyword required.
        expected: Keyword,
        /// A description of the token found.
        actual: String,
    },
    /// A token other than an identifier where the grammar requires one.
    ExpectedIdent {
        /// Byte index of the token found.
        token_index: usize,
        /// A description of the token found.
        actual: String,
    },
    /// A token other than a constant where the grammar requires one.
    ExpectedConst {
        /// Byte index of the token found.
        token_index: usize,
        /// A description of the token found.
        actual: String,
    },
    /// A token other than the symbol that the grammar requires.
    ExpectedSymbol {
        /// Byte index of the token found.
        token_index: usize,
        /// The symbol required.
        expected: Symbol,
        /// A description of the token found.
        actual: String,
    },
    /// The tokens end where the grammar requires a keyword.
    UnexpectedEofKeyword {
        /// The keyword required.
        expected: Keyword,
    },
    /// The tokens end where the grammar requires a symbol.
    UnexpectedEofSymbol {
        /// The symbol required.
        expected: Symbol,
    },
    /// A token after the end of the program.
    UnexpectedToken {
        /// Byte index of the token.
        token_index: usize,
    },
}

/// The mathematical value of a [`ParseError`].
pub enum ParseErrorView {
    /// See [`ParseError::ExpectedKeyword`].
    ExpectedKeyword { token_index: nat, expected: Keyword, actual: Seq<char> },
    /// See [`ParseError::ExpectedIdent`].
    ExpectedIdent { token_index: nat, actual: Seq<char> },
    /// See [`ParseError::ExpectedConst`].
    ExpectedConst { token_index: nat, actual: Seq<char> },
    /// See [`ParseError::ExpectedSymbol`].
    ExpectedSymbol { token_index: nat, expected: Symbol, actual: Seq<char> },
    /// See [`ParseError::UnexpectedEofKeyword`].
    UnexpectedEofKeyword { expected: Keyword },
    /// See [`ParseError::UnexpectedEofSymbol`].
    UnexpectedEofSymbol { expected: Symbol },
    /// See [`ParseError::UnexpectedToken`].
    UnexpectedToken { token_index: nat },
}

impl View for ParseError {
    type V = ParseErrorView;

    open spec fn view(&self) -> ParseErrorView {
        match self {
            ParseError::ExpectedKeyword { token_index, expected, actual } =>
                ParseErrorView::ExpectedKeyword {
                token_index: *token_index as nat,
                expected: *expected,
                actual: actual@,
            },
            ParseError::ExpectedIdent { token_index, actual } => ParseErrorView::ExpectedIdent {
                token_index: *token_index as nat,
                actual: actual@,
            },
            ParseError::ExpectedConst { token_index, actual } => ParseErrorView::ExpectedConst {
                token_index: *token_index as nat,
                actual: actual@,
            },
            ParseError::ExpectedSymbol { token_index, expected, actual } =>
                ParseErrorView::ExpectedSymbol {
                token_index: *token_index as nat,
                expected: *expected,
                actual: actual@,
            },
            ParseError::UnexpectedEofKeyword { expected } => ParseErrorView::UnexpectedEofKeyword {
                expected: *expected,
            },
            ParseError::UnexpectedEofSymbol { expected } => ParseErrorView::UnexpectedEofSymbol {
                expected: *expected,
            },
            ParseError::UnexpectedToken { token_index } => ParseErrorView::UnexpectedToken {
                token_index: *token_index as nat,
            },
        }
    }
}

/// The outcome of parsing a part of the grammar from some token position.
pub enum Parsed<T> {
    /// The part parses to this value, and parsing goes on from this position.
    Done(T, int),
    /// The part does not parse.
    Failed(ParseErrorView),
    /// Parsing reads a token past the end of the tokens.
    Panics,
}

/// Requiring keyword `kw` at position `i` of `ts`.
pub open spec fn expect_keyword_at(ts: Seq<TokenView>, i: int, kw: Keyword) -> Parsed<()> {
    if 0 <= i < ts.len() {
        if ts[i].kind == KindView::Keyword(kw) {
            Parsed::Done((), i + 1)
        } else {
            Parsed::Failed(
                ParseErrorView::ExpectedKeyword {
                    token_index: ts[i].index,
                    expected: kw,
                    actual: debug_text(ts[i]),
                },
            )
        }
    } else {
        Parsed::Failed(ParseErrorView::UnexpectedEofKeyword { expected: kw })
    }
}

/// Requiring symbol `sym` at position `i` of `ts`.
pub open spec fn expect_symbol_at(ts: Seq<TokenView>, i: int, sym: Symbol) -> Parsed<()> {
    if 0 <= i < ts.len() {
        if ts[i].kind == KindView::Symbol(sym) {
            Parsed::Done((), i + 1)
        } else {
            Parsed::Failed(
                ParseErrorView::ExpectedSymbol {
                    token_index: ts[i].index,
                    expected: sym,
                    actual: debug_text(ts[i]),
                },
            )
        }
    } else {
        Parsed::Failed(ParseErrorView::UnexpectedEofSymbol { expected: sym })
    }
}

/// Reading an identifier at position `i` of `ts`.
pub open spec fn identifier_at(ts: Seq<TokenView>, i: int) -> Parsed<Seq<char>> {
    if 0 <= i < ts.len() {
        match ts[i].kind {
            KindView::Identifier(name) => Parsed::Done(name, i + 1),
            _ => Parsed::Failed(
                ParseErrorView::ExpectedIdent { token_index: ts[i].index, actual: debug_text(ts[i]) },
            ),
        }
    } else {
        Parsed::Panics
    }
}

/// Reading an expression (a constant) at position `i` of `ts`.
pub open spec fn expression_at(ts: Seq<TokenView>, i: int) -> Parsed<ExpressionView> {
    if 0 <= i < ts.len() {
        match ts[i].kind {
            KindView::Constant(c) => Parsed::Done(ExpressionView::Constant(c), i + 1),
            _ => Parsed::Failed(
                ParseErrorView::ExpectedConst { token_index: ts[i].index, actual: debug_text(ts[i]) },
            ),
        }
    } else {
        Parsed::Panics
    }
}

/// Passes on the failure of a step whose result is not needed.
pub open spec fn fail_as<T, U>(p: Parsed<T>) -> Parsed<U> {
    match p {
        Parsed::Failed(e) => Parsed::Failed(e),
        _ => Parsed::Panics,
    }
}

/// Reading `return EXPRESSION ;` at position `i` of `ts`.
pub open spec fn statement_at(ts: Seq<TokenView>, i: int) -> Parsed<StatementView> {
    match expect_keyword_at(ts, i, Keyword::Return) {
        Parsed::Done(_, i1) => match expression_at(ts, i1) {
            Parsed::Done(e, i2) => match expect_symbol_at(ts, i2, Symbol::Semicolon) {
                Parsed::Done(_, i3) => Parsed::Done(StatementView::Return(e), i3),
                other => fail_as(other),
            },
            other => fail_as(other),
        },
        other => fail_as(other),
    }
}

/// Reading `int NAME ( void ) { STATEMENT }` at position `i` of `ts`.
pub open spec fn function_at(ts: Seq<TokenView>, i: int) -> Parsed<FunctionView> {
    match expect_keyword_at(ts, i, Keyword::Int) {
        Parsed::Done(_, i1) => match identifier_at(ts, i1) {
            Parsed::Done(name, i2) => match expect_symbol_at(ts, i2, Symbol::OpenParenthesis) {
                Parsed::Done(_, i3) => match expect_keyword_at(ts, i3, Keyword::Void) {
                    Parsed::Done(_, i4) => match expect_symbol_at(
                        ts,
                        i4,
                        Symbol::CloseParenthesis,
                    ) {
                        Parsed::Done(_, i5) => match expect_symbol_at(ts, i5, Symbol::OpenBrace) {
                            Parsed::Done(_, i6) => match statement_at(ts, i6) {
                                Parsed::Done(body, i7) => match expect_symbol_at(
                                    ts,
                                    i7,
                                    Symbol::CloseBrace,
                                ) {
                                    Parsed::Done(_, i8) => Parsed::Done(
                                        FunctionView { name, body },
                                        i8,
                                    ),
                                    other => fail_as(other),
                                },
                                other => fail_as(other),
                            },
                            other => fail_as(other),
                        },
                        other => fail_as(other),
                    },
                    other => fail_as(other),
                },
                other => fail_as(other),
            },
            other => fail_as(other),
        },
        other => fail_as(other),
    }
}

/// Parsing the whole token sequence `ts`: a function, and nothing after it.
pub open spec fn parse_tokens(ts: Seq<TokenView>) -> Parsed<ProgramView> {
    match function_at(ts, 0) {
        Parsed::Done(f, i) => if i < ts.len() {
            Parsed::Failed(ParseErrorView::UnexpectedToken { token_index: ts[i].index })
        } else {
            Parsed::Done(ProgramView { function: f }, i)
        },
        other => fail_as(other),
    }
}

/// The tokens `ts` spell exactly `int NAME ( void ) { return CONSTANT ; }`, with the
/// given name and constant.
pub open spec fn spells_return_program(ts: Seq<TokenView>, name: Seq<char>, c: Seq<char>) -> bool {
    &&& ts.len() == 10
    &&& ts[0].kind == KindView::Keyword(Keyword::Int)
    &&& ts[1].kind == KindView::Identifier(name)
    &&& ts[2].kind == KindView::Symbol(Symbol::OpenParenthesis)
    &&& ts[3].kind == KindView::Keyword(Keyword::Void)
    &&& ts[4].kind == KindView::Symbol(Symbol::CloseParenthesis)
    &&& ts[5].kind == KindView::Symbol(Symbol::OpenBrace)
    &&& ts[6].kind == KindView::Keyword(Keyword::Return)
    &&& ts[7].kind == KindView::Constant(c)
    &&& ts[8].kind == KindView::Symbol(Symbol::Semicolon)
    &&& ts[9].kind == KindView::Symbol(Symbol::CloseBrace)
}

/// The program that returns the constant `c` from the function `name`.
pub open spec fn return_program(name: Seq<char>, c: Seq<char>) -> ProgramView {
    ProgramView {
        function: FunctionView {
            name,
            body: StatementView::Return(ExpressionView::Constant(c)),
        },
    }
}

/// Parsing accepts exactly the token sequences that spell
/// `int NAME ( void ) { return CONSTANT ; }`, and gives the program that returns that
/// constant from that function.
pub proof fn lemma_parse_grammar(ts: Seq<TokenView>)
    ensures
        parse_tokens(ts) matches Parsed::Done(p, _) ==> match p.function.body {
            StatementView::Return(ExpressionView::Constant(c)) => spells_return_program(
                ts,
                p.function.name,
                c,
            ),
        },
        forall|name: Seq<char>, c: Seq<char>|
            spells_return_program(ts, name, c) ==> #[trigger] parse_tokens(ts) == Parsed::Done(
                return_program(name, c),
                10,
            ),
{
}

/// Reading a function at position `i` succeeds exactly where the ten tokens from `i` on
/// spell `int NAME ( void ) { return CONSTANT ; }`; it then moves past those ten tokens
/// and gives the function that returns that constant.
pub proof fn lemma_function_grammar(ts: Seq<TokenView>, i: int)
    requires
        0 <= i,
    ensures
        function_at(ts, i) matches Parsed::Done(f, j) ==> {
            &&& j == i + 10
            &&& i + 10 <= ts.len()
            &&& match f.body {
                StatementView::Return(ExpressionView::Constant(c)) => spells_return_program(
                    ts.subrange(i, i + 10),
                    f.name,
                    c,
                ),
            }
        },
        forall|name: Seq<char>, c: Seq<char>|
            i + 10 <= ts.len() && #[trigger] spells_return_program(ts.subrange(i, i + 10), name, c)
                ==> function_at(ts, i) == Parsed::Done(return_program(name, c).function, i + 10),
{
    if i + 10 <= ts.len() {
        let w = ts.subrange(i, i + 10);
        assert forall|k: int| 0 <= k < 10 implies #[trigger] w[k] == ts[i + k] by {}
    }
}

/// The keyword that the grammar `int NAME ( void ) { return CONSTANT ; }` places at
/// token position `j`, if a keyword stands there.
pub open spec fn grammar_keyword(j: int) -> Option<Keyword> {
    if j == 0 {
        Some(Keyword::Int)
    } else if j == 3 {
        Some(Keyword::Void)
    } else if j == 6 {
        Some(Keyword::Return)
    } else {
        None
    }
}

/// The symbol that the grammar places at token position `j`, if a symbol stands there.
pub open spec fn grammar_symbol(j: int) -> Option<Symbol> {
    if j == 2 {
        Some(Symbol::OpenParenthesis)
    } else if j == 4 {
        Some(Symbol::CloseParenthesis)
    } else if j == 5 {
        Some(Symbol::OpenBrace)
    } else if j == 8 {
        Some(Symbol::Semicolon)
    } else if j == 9 {
        Some(Symbol::CloseBrace)
    } else {
        None
    }
}

/// A token of kind `k` fits position `j` (below ten) of the grammar: the keyword or
/// symbol placed there, an identifier at position 1, a constant at position 7.
pub open spec fn grammar_fits(j: int, k: KindView) -> bool {
    match grammar_keyword(j) {
        Some(kw) => k == KindView::Keyword(kw),
        None => match grammar_symbol(j) {
            Some(sym) => k == KindView::Symbol(sym),
            None => if j == 1 {
                k is Identifier
            } else {
                k is Constant
            },
        },
    }
}

/// The error for a token `t` that does not fit position `j` of the grammar.
pub open spec fn mismatch_error(j: int, t: TokenView) -> ParseErrorView {
    match grammar_keyword(j) {
        Some(kw) => ParseErrorView::ExpectedKeyword {
            token_index: t.index,
            expected: kw,
            actual: debug_text(t),
        },
        None => match grammar_symbol(j) {
            Some(sym) => ParseErrorView::ExpectedSymbol {
                token_index: t.index,
                expected: sym,
                actual: debug_text(t),
            },
            None => if j == 1 {
                ParseErrorView::ExpectedIdent { token_index: t.index, actual: debug_text(t) }
            } else {
                ParseErrorView::ExpectedConst { token_index: t.index, actual: debug_text(t) }
            },
        },
    }
}

/// The outcome when the tokens end at position `j` of the grammar: the keyword or
/// symbol placed there is reported missing; where a name or constant is due, parsing
/// reads past the end.
pub open spec fn end_outcome(j: int) -> Parsed<ProgramView> {
    match grammar_keyword(j) {
        Some(kw) => Parsed::Failed(ParseErrorView::UnexpectedEofKeyword { expected: kw }),
        None => match grammar_symbol(j) {
            Some(sym) => Parsed::Failed(ParseErrorView::UnexpectedEofSymbol { expected: sym }),
            None => Parsed::Panics,
        },
    }
}

/// Parsing fails at the first token that does not fit the grammar, with the error that
/// names that token and what was due there; tokens that end early give the error for
/// what was due next; and a token after a complete program is reported by its index.
pub proof fn lemma_parse_first_mismatch(ts: Seq<TokenView>, j: int)
    requires
        0 <= j <= 10,
        j <= ts.len(),
        forall|i: int| 0 <= i < j ==> grammar_fits(i, #[trigger] ts[i].kind),
    ensures
        j < 10 && j < ts.len() && !grammar_fits(j, ts[j].kind) ==> parse_tokens(ts)
            == Parsed::<ProgramView>::Failed(mismatch_error(j, ts[j])),
        j < 10 && j == ts.len() ==> parse_tokens(ts) == end_outcome(j),
        j == 10 && ts.len() > 10 ==> parse_tokens(ts) == Parsed::<ProgramView>::Failed(
            ParseErrorView::UnexpectedToken { token_index: ts[10].index },
        ),
{
    if j > 0 { assert(grammar_fits(0, ts[0].kind)); }
    if j > 1 { assert(grammar_fits(1, ts[1].kind)); }
    if j > 2 { assert(grammar_fits(2, ts[2].kind)); }
    if j > 3 { assert(grammar_fits(3, ts[3].kind)); }
    if j > 4 { assert(grammar_fits(4, ts[4].kind)); }
    if j > 5 { assert(grammar_fits(5, ts[5].kind)); }
    if j > 6 { assert(grammar_fits(6, ts[6].kind)); }
    if j > 7 { assert(grammar_fits(7, ts[7].kind)); }
    if j > 8 { assert(grammar_fits(8, ts[8].kind)); }
    if j > 9 { assert(grammar_fits(9, ts[9].kind)); }
}

/// The views of a slice of tokens.
pub open spec fn token_views<'a>(tokens: Seq<Token<'a>>) -> Seq<TokenView> {
    tokens.map_values(|t: Token<'a>| t@)
}

/// `r`, the result of a parsing function that moves `index` to `end`, is what `p` describes.
pub open spec fn is_parsed<T, V>(p: Parsed<V>, r: Result<T, ParseError>, end: usize, view: spec_fn(T) -> V) -> bool {
    match p {
        Parsed::Done(v, i) => r matches Ok(x) && view(x) == v && end == i,
        Parsed::Failed(e) => r matches Err(err) && err@ == e,
        Parsed::Panics => false,
    }
}

/// The token at `index`, if there is one.
fn current<'a>(tokens: &'a [Token<'a>], index: usize) -> (r: Option<&'a Token<'a>>)
    ensures
        index < tokens@.len() ==> r == Some(&tokens@[index as int]),
        index >= tokens@.len() ==> r is None,
{
    if index < tokens.len() {
        Some(&tokens[index])
    } else {
        None
    }
}

/// The token at `index`, moving `index` past it.
fn get_next<'a>(tokens: &'a [Token<'a>], index: &mut usize) -> (r: &'a Token<'a>)
    requires
        *old(index) < tokens@.len(),
    ensures
        *r == tokens@[*old(index) as int],
        *final(index) == *old(index) + 1,
{
    let token = &tokens[*index];
    *index += 1;
    token
}

/// Requires the keyword `keyword` at `index`, moving past it.
fn expect_keyword<'a>(tokens: &'a [Token<'a>], index: &mut usize, keyword: Keyword) -> (r: Result<
    (),
    ParseError,
>)
    ensures
        is_parsed(
            expect_keyword_at(token_views(tokens@), *old(index) as int, keyword),
            r,
            *final(index),
            |x: ()| x,
        ),
        r is Ok ==> *final(index) <= tokens@.len(),
        r is Err ==> *final(index) == *old(index),
{
    match current(tokens, *index) {
        Some(token) => {
            match token.kind() {
                TokenKind::Keyword(k) => {
                    if *k == keyword {
                        get_next(tokens, index);
                        return Ok(());
                    }
                },
                _ => {},
            }
            Err(
                ParseError::ExpectedKeyword {
                    token_index: token.index(),
                    expected: keyword,
                    actual: token.to_debug_string(),
                },
            )
        },
        None => Err(ParseError::UnexpectedEofKeyword { expected: keyword }),
    }
}

/// Requires the symbol `symbol` at `index`, moving past it.
fn expect_symbol<'a>(tokens: &'a [Token<'a>], index: &mut usize, symbol: Symbol) -> (r: Result<
    (),
    ParseError,
>)
    ensures
        is_parsed(
            expect_symbol_at(token_views(tokens@), *old(index) as int, symbol),
            r,
            *final(index),
            |x: ()| x,
        ),
        r is Ok ==> *final(index) <= tokens@.len(),
        r is Err ==> *final(index) == *old(index),
{
    match current(tokens, *index) {
        Some(token) => {
            match token.kind() {
                TokenKind::Symbol(s) => {
                    if *s == symbol {
                        get_next(tokens, index);
                        return Ok(());
                    }
                },
                _ => {},
            }
            Err(
                ParseError::ExpectedSymbol {
                    token_index: token.index(),
                    expected: symbol,
                    actual: token.to_debug_string(),
                },
            )
        },
        None => Err(ParseError::UnexpectedEofSymbol { expected: symbol }),
    }
}

/// Parses an expression: an integer constant.
fn parse_expression<'a>(tokens: &'a [Token<'a>], index: &mut usize) -> (r: Result<
    Expression<'a>,
    ParseError,
>)
    requires
        *old(index) <= tokens@.len(),
        !(expression_at(token_views(tokens@), *old(index) as int) is Panics),
    ensures
        is_parsed(
            expression_at(token_views(tokens@), *old(index) as int),
            r,
            *final(index),
            |e: Expression<'a>| e@,
        ),
        *final(index) <= tokens@.len(),
{
    let token = get_next(tokens, index);
    match token.kind() {
        TokenKind::Constant(s) => Ok(Expression::Constant(*s)),
        _ => Err(
            ParseError::ExpectedConst { token_index: token.index(), actual: token.to_debug_string() },
        ),
    }
}

/// Parses a statement: `return EXPRESSION ;`.
fn parse_statement<'a>(tokens: &'a [Token<'a>], index: &mut usize) -> (r: Result<
    Statement<'a>,
    ParseError,
>)
    requires
        *old(index) <= tokens@.len(),
        !(statement_at(token_views(tokens@), *old(index) as int) is Panics),
    ensures
        is_parsed(
            statement_at(token_views(tokens@), *old(index) as int),
            r,
            *final(index),
            |s: Statement<'a>| s@,
        ),
        *final(index) <= tokens@.len(),
{
    expect_keyword(tokens, index, Keyword::Return)?;
    let expression = parse_expression(tokens, index)?;
    expect_symbol(tokens, index, Symbol::Semicolon)?;
    Ok(Statement::Return(expression))
}

/// Parses a function: `int NAME ( void ) { STATEMENT }`.
fn parse_function<'a>(tokens: &'a [Token<'a>], index: &mut usize) -> (r: Result<
    Function<'a>,
    ParseError,
>)
    requires
        *old(index) <= tokens@.len(),
        !(function_at(token_views(tokens@), *old(index) as int) is Panics),
    ensures
        is_parsed(
            function_at(token_views(tokens@), *old(index) as int),
            r,
            *final(index),
            |f: Function<'a>| f@,
        ),
        *final(index) <= tokens@.len(),
        r is Ok ==> *final(index) == *old(index) + 10,
{
    proof {
        lemma_function_grammar(token_views(tokens@), *index as int);
    }
    expect_keyword(tokens, index, Keyword::Int)?;
    let token = get_next(tokens, index);
    let ident = match token.kind() {
        TokenKind::Identifier(name) => *name,
        _ => {
            return Err(
                ParseError::ExpectedIdent {
                    token_index: token.index(),
                    actual: token.to_debug_string(),
                },
            );
        },
    };
    expect_symbol(tokens, index, Symbol::OpenParenthesis)?;
    expect_keyword(tokens, index, Keyword::Void)?;
    expect_symbol(tokens, index, Symbol::CloseParenthesis)?;
    expect_symbol(tokens, index, Symbol::OpenBrace)?;

    let statement = parse_statement(tokens, index)?;

    expect_symbol(tokens, index, Symbol::CloseBrace)?;

    Ok(Function { name: ident, body: statement })
}

/// Parses a program: one function.
fn parse_program<'a>(tokens: &'a [Token<'a>], index: &mut usize) -> (r: Result<
    Program<'a>,
    ParseError,
>)
    requires
        *old(index) <= tokens@.len(),
        !(function_at(token_views(tokens@), *old(index) as int) is Panics),
    ensures
        is_parsed(
            function_at(token_views(tokens@), *old(index) as int),
            r,
            *final(index),
            |p: Program<'a>| p@.function,
        ),
        *final(index) <= tokens@.len(),
{
    Ok(Program { function: parse_function(tokens, index)? })
}

/// Converts an array of [`Token`]s into an abstract syntax tree in the form of a [`Program`].
///
/// An error found while parsing the function is returned as it is; a token left over
/// after a complete function gives [`ParseError::UnexpectedToken`].
pub fn parse<'a>(tokens: &'a [Token<'a>]) -> (r: Result<Program<'a>, ParseError>)
    requires
        !(parse_tokens(token_views(tokens@)) is Panics),
    ensures
        match parse_tokens(token_views(tokens@)) {
            Parsed::Done(p, _) => r matches Ok(prog) && prog@ == p,
            Parsed::Failed(e) => r matches Err(err) && err@ == e,
            Parsed::Panics => false,
        },
        r is Ok <==> exists|name: Seq<char>, c: Seq<char>|
            spells_return_program(token_views(tokens@), name, c),
        forall|name: Seq<char>, c: Seq<char>|
            #[trigger] spells_return_program(token_views(tokens@), name, c) ==> (r matches Ok(p)
                && p@ == return_program(name, c)),
{
    proof {
        let ts = token_views(tokens@);
        lemma_parse_grammar(ts);
        if let Parsed::Done(p, _) = parse_tokens(ts) {
            match p.function.body {
                StatementView::Return(ExpressionView::Constant(c)) => {
                    assert(spells_return_program(ts, p.function.name, c));
                },
            }
        }
    }
    let mut index: usize = 0;
    let result = parse_program(tokens, &mut index);
    match result {
        Err(e) => Err(e),
        Ok(program) => {
            if index < tokens.len() {
                let extra_token = get_next(tokens, &mut index);
                return Err(ParseError::UnexpectedToken { token_index: extra_token.index() });
            }
            Ok(program)
        },
    }
}

fn is_keyword(token: &Token, keyword: Keyword) -> (b: bool)
    ensures
        b == (token@.kind == KindView::Keyword(keyword)),
{
    match token.kind() {
        TokenKind::Keyword(k) => *k == keyword,
        _ => false,
    }
}

fn is_symbol(token: &Token, symbol: Symbol) -> (b: bool)
    ensures
        b == (token@.kind == KindView::Symbol(symbol)),
{
    match token.kind() {
        TokenKind::Symbol(s) => *s == symbol,
        _ => false,
    }
}

fn is_identifier(token: &Token) -> (b: bool)
    ensures
        b == (token@.kind is Identifier),
{
    match token.kind() {
        TokenKind::Identifier(_) => true,
        _ => false,
    }
}

/// Whether [`parse`] would read past the end of `tokens` (where it may not be called):
/// the tokens end just where a function name or a returned constant is due.
pub fn parse_panics<'a>(tokens: &'a [Token<'a>]) -> (b: bool)
    ensures
        b == (parse_tokens(token_views(tokens@)) is Panics),
{
    let ghost ts = token_views(tokens@);
    if tokens.len() == 1 {
        return is_keyword(&tokens[0], Keyword::Int);
    }
    if tokens.len() == 7 {
        return is_keyword(&tokens[0], Keyword::Int) && is_identifier(&tokens[1]) && is_symbol(
            &tokens[2],
            Symbol::OpenParenthesis,
        ) && is_keyword(&tokens[3], Keyword::Void) && is_symbol(&tokens[4], Symbol::CloseParenthesis)
            && is_symbol(&tokens[5], Symbol::OpenBrace) && is_keyword(&tokens[6], Keyword::Return);
    }
    false
}

impl ParseError {
    /// The byte index into the source `data` at which the error occurred; for errors at
    /// the end of the tokens, the index of the last byte of the source.
    pub fn index(&self, data: &str) -> (i: usize)
        requires
            (self is UnexpectedEofKeyword || self is UnexpectedEofSymbol) ==> data.len() >= 1,
        ensures
            i == (match self {
                ParseError::ExpectedKeyword { token_index, .. } => *token_index as int,
                ParseError::ExpectedIdent { token_index, .. } => *token_index as int,
                ParseError::ExpectedConst { token_index, .. } => *token_index as int,
                ParseError::ExpectedSymbol { token_index, .. } => *token_index as int,
                ParseError::UnexpectedEofSymbol { .. } => data.len() - 1,
                ParseError::UnexpectedEofKeyword { .. } => data.len() - 1,
                ParseError::UnexpectedToken { token_index } => *token_index as int,
            }),
    {
        match self {
            ParseError::ExpectedKeyword { token_index, .. } => *token_index,
            ParseError::ExpectedIdent { token_index, .. } => *token_index,
            ParseError::ExpectedConst { token_index, .. } => *token_index,
            ParseError::ExpectedSymbol { token_index, .. } => *token_index,
            ParseError::UnexpectedEofSymbol { .. } => data.len() - 1,
            ParseError::UnexpectedEofKeyword { .. } => data.len() - 1,
            ParseError::UnexpectedToken { token_index } => *token_index,
        }
    }
}

/// The message that describes a parse error.
pub open spec fn parse_error_text(e: ParseErrorView) -> Seq<char> {
    match e {
        ParseErrorView::ExpectedKeyword { token_index, expected, actual } => "expected keyword \""@
            + keyword_chars(expected) + "\" at index "@ + decimal(token_index) + ", got "@ + actual,
        ParseErrorView::ExpectedIdent { token_index, actual } => "expected identifier at index "@
            + decimal(token_index) + ", got "@ + actual,
        ParseErrorView::ExpectedConst { token_index, actual } => "expected constant at index "@
            + decimal(token_index) + ", got "@ + actual,
        ParseErrorView::ExpectedSymbol { token_index, expected, actual } => "expected symbol `"@
            + seq![symbol_char(expected)] + "` at index "@ + decimal(token_index) + ", got "@
            + actual,
        ParseErrorView::UnexpectedEofKeyword { expected } => "expected keyword \""@
            + keyword_chars(expected) + "\", reached end of file"@,
        ParseErrorView::UnexpectedEofSymbol { expected } => "expected symbol `"@ + seq![
            symbol_char(expected),
        ] + "`, reached end of file"@,
        ParseErrorView::UnexpectedToken { token_index } => "unexpected token at index "@
            + decimal(token_index),
    }
}

impl ParseError {
    /// The message that describes this error.
    pub fn to_string(&self) -> (s: String)
        ensures
            s@ == parse_error_text(self@),
    {
        let mut s = String::new();
        match self {
            ParseError::ExpectedKeyword { token_index, expected, actual } => {
                s.append("expected keyword \"");
                s.append(expected.as_str());
                s.append("\" at index ");
                push_decimal(&mut s, *token_index as u128);
                s.append(", got ");
                s.append(actual.as_str());
            },
            ParseError::ExpectedIdent { token_index, actual } => {
                s.append("expected identifier at index ");
                push_decimal(&mut s, *token_index as u128);
                s.append(", got ");
                s.append(actual.as_str());
            },
            ParseError::ExpectedConst { token_index, actual } => {
                s.append("expected constant at index ");
                push_decimal(&mut s, *token_index as u128);
                s.append(", got ");
                s.append(actual.as_str());
            },
            ParseError::ExpectedSymbol { token_index, expected, actual } => {
                s.append("expected symbol `");
                s.append(expected.as_str());
                s.append("` at index ");
                push_decimal(&mut s, *token_index as u128);
                s.append(", got ");
                s.append(actual.as_str());
            },
            ParseError::UnexpectedEofKeyword { expected } => {
                s.append("expected keyword \"");
                s.append(expected.as_str());
                s.append("\", reached end of file");
            },
            ParseError::UnexpectedEofSymbol { expected } => {
                s.append("expected symbol `");
                s.append(expected.as_str());
                s.append("`, reached end of file");
            },
            ParseError::UnexpectedToken { token_index } => {
                s.append("unexpected token at index ");
                push_decimal(&mut s, *token_index as u128);
            },
        }
        assert(s@ =~= parse_error_text(self@));
        s
    }
}

} // verus!
