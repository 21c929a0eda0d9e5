//! Matchers for different [`Token`]s.

use crate::compiler::lexer::lemma_match_lens;
use crate::compiler::token::{
    constant_match_len, identifier_match_len, is_prefix_match, keyword_match_len, match_constant,
    match_identifier, match_keyword,
};
use crate::text::{lemma_utf8_len_take_bound, utf8_len};
use crate::token::{
    keyword_chars, keyword_from_chars, lemma_keyword_from_chars_sound, new_token_view,
    symbol_from_char, Keyword, KindView, Symbol, Token, TokenKind,
};
use vstd::prelude::*;
use vstd::string::StrSliceExecFns;

verus! {

/// Implementers of this trait are capable of attempting to match [`Token`]s from preprocessed C
/// source code.
pub trait TokenMatcher {
    /// The kind of the token that this matcher finds at the start of `input`, if any.
    spec fn matched(&self, input: Seq<char>) -> Option<KindView>;

    /// Try to match a [`Token`] at the start of the input.
    /// Return [`None`] if unsuccessful.
    fn try_match<'a>(&self, input: &'a str, position: usize) -> (r: Option<Token<'a>>)
        requires
            utf8_len(input@) <= usize::MAX,
        ensures
            match self.matched(input@) {
                None => r is None,
                Some(k) => r matches Some(t) && t@ == new_token_view(k, position as nat),
            },
    ;
}

/// Matches C keywords (`int`, `void`, `return`, etc.).
pub struct KeywordMatcher;

impl KeywordMatcher {
    /// Try to return a string slice corresponding to this matcher's regex.
    fn try_regex_match<'a>(&self, haystack: &'a str) -> (r: Option<&'a str>)
        ensures
            is_prefix_match(r, keyword_match_len(haystack@), haystack@),
    {
        match_keyword(haystack)
    }
}

impl TokenMatcher for KeywordMatcher {
    open spec fn matched(&self, input: Seq<char>) -> Option<KindView> {
        match keyword_match_len(input) {
            Some(n) => match keyword_from_chars(input.take(n as int)) {
                Some(k) => Some(KindView::Keyword(k)),
                None => None,
            },
            None => None,
        }
    }

    /// A keyword token exactly where the keyword pattern matches a run of letters that
    /// spells a keyword.
    fn try_match<'a>(&self, input: &'a str, position: usize) -> (r: Option<Token<'a>>)
        ensures
            r matches Some(t) ==> {
                &&& keyword_match_len(input@) matches Some(n)
                &&& t@.kind matches KindView::Keyword(k)
                &&& keyword_chars(k) == input@.take(n as int)
                &&& t@.index == position
                &&& t@.len == n
            },
            r is None ==> (keyword_match_len(input@) matches Some(n) ==> forall|k: Keyword|
                keyword_chars(k) != input@.take(n as int)),
    {
        proof {
            if let Some(n) = keyword_match_len(input@) {
                let w = input@.take(n as int);
                assert forall|k: Keyword| keyword_from_chars(w) is None implies keyword_chars(k)
                    != w by {
                    crate::token::lemma_keyword_round_trip(k);
                }
            }
        }
        let matched = self.try_regex_match(input)?;
        let keyword = Keyword::try_from(matched).ok()?;
        proof {
            lemma_keyword_from_chars_sound(matched@);
            crate::token::lemma_keyword_chars_lowercase(keyword);
        }
        Some(Token::new(TokenKind::Keyword(keyword), position))
    }
}

/// Matches C identifiers (variable names, function names, etc.).
pub struct IdentifierMatcher;

impl IdentifierMatcher {
    /// Try to return a string slice corresponding to this matcher's regex.
    fn try_regex_match<'a>(&self, haystack: &'a str) -> (r: Option<&'a str>)
        ensures
            is_prefix_match(r, identifier_match_len(haystack@), haystack@),
    {
        match_identifier(haystack)
    }
}

impl TokenMatcher for IdentifierMatcher {
    open spec fn matched(&self, input: Seq<char>) -> Option<KindView> {
        match identifier_match_len(input) {
            Some(n) => Some(KindView::Identifier(input.take(n as int))),
            None => None,
        }
    }

    /// An identifier token exactly where the identifier pattern matches, spelling the
    /// matched text.
    fn try_match<'a>(&self, input: &'a str, position: usize) -> (r: Option<Token<'a>>)
        ensures
            r is Some <==> identifier_match_len(input@) is Some,
            r matches Some(t) ==> {
                &&& identifier_match_len(input@) matches Some(n)
                &&& t@.kind == KindView::Identifier(input@.take(n as int))
                &&& t@.index == position
                &&& t@.len == n
            },
    {
        proof {
            lemma_match_lens(input@);
            if let Some(n) = identifier_match_len(input@) {
                lemma_utf8_len_take_bound(input@, n as int);
            }
        }
        let matched = self.try_regex_match(input)?;
        Some(Token::new(TokenKind::Identifier(matched), position))
    }
}

/// Matches integer constants.
pub struct ConstantMatcher;

impl ConstantMatcher {
    /// Try to return a string slice corresponding to this matcher's regex.
    fn try_regex_match<'a>(&self, haystack: &'a str) -> (r: Option<&'a str>)
        ensures
            is_prefix_match(r, constant_match_len(haystack@), haystack@),
    {
        match_constant(haystack)
    }
}

impl TokenMatcher for ConstantMatcher {
    open spec fn matched(&self, input: Seq<char>) -> Option<KindView> {
        match constant_match_len(input) {
            Some(n) => Some(KindView::Constant(input.take(n as int))),
            None => None,
        }
    }

    /// A constant token exactly where the constant pattern matches, spelling the
    /// matched digits.
    fn try_match<'a>(&self, input: &'a str, position: usize) -> (r: Option<Token<'a>>)
        ensures
            r is Some <==> constant_match_len(input@) is Some,
            r matches Some(t) ==> {
                &&& constant_match_len(input@) matches Some(n)
                &&& t@.kind == KindView::Constant(input@.take(n as int))
                &&& t@.index == position
                &&& t@.len == n
            },
    {
        proof {
            lemma_match_lens(input@);
            if let Some(n) = constant_match_len(input@) {
                lemma_utf8_len_take_bound(input@, n as int);
            }
        }
        let matched = self.try_regex_match(input)?;
        Some(Token::new(TokenKind::Constant(matched), position))
    }
}

/// Matches single-character symbols (parentheses, braces, semicolons, etc.).
pub struct SymbolMatcher;

impl TokenMatcher for SymbolMatcher {
    open spec fn matched(&self, input: Seq<char>) -> Option<KindView> {
        if input.len() == 0 {
            None
        } else {
            match symbol_from_char(input[0]) {
                Some(s) => Some(KindView::Symbol(s)),
                None => None,
            }
        }
    }

    /// A symbol token exactly when the first character is a symbol's character, for that
    /// symbol, one byte long.
    fn try_match<'a>(&self, input: &'a str, position: usize) -> (r: Option<Token<'a>>)
        ensures
            r is Some <==> (input@.len() > 0 && exists|sym: Symbol|
                crate::token::symbol_char(sym) == input@[0]),
            r matches Some(t) ==> {
                &&& t@.kind matches KindView::Symbol(sym)
                &&& crate::token::symbol_char(sym) == input@[0]
                &&& t@.index == position
                &&& t@.len == 1
            },
    {
        if input.is_empty() {
            return None;
        }
        let first_char = input.get_char(0);
        let symbols = Symbol::iter();
        let mut i: usize = 0;
        while i < symbols.len()
            invariant
                symbols@ == crate::token::all_symbols(),
                i <= symbols.len(),
                input@.len() > 0,
                first_char == input@[0],
                forall|j: int|
                    0 <= j < i ==> crate::token::symbol_char(#[trigger] symbols@[j]) != first_char,
            decreases symbols.len() - i,
        {
            let symbol = symbols[i];
            if first_char == symbol.as_char() {
                proof {
                    crate::token::lemma_symbol_round_trip(symbol);
                }
                return Some(Token::new(TokenKind::Symbol(symbol), position));
            }
            i = i + 1;
        }
        assert(crate::token::symbol_char(symbols@[0]) != first_char);
        assert(crate::token::symbol_char(symbols@[1]) != first_char);
        assert(crate::token::symbol_char(symbols@[2]) != first_char);
        assert(crate::token::symbol_char(symbols@[3]) != first_char);
        assert(crate::token::symbol_char(symbols@[4]) != first_char);
        assert forall|sym: Symbol| crate::token::symbol_char(sym) != first_char by {
            match sym {
                Symbol::OpenParenthesis => assert(symbols@[0] == sym),
                Symbol::CloseParenthesis => assert(symbols@[1] == sym),
                Symbol::OpenBrace => assert(symbols@[2] == sym),
                Symbol::CloseBrace => assert(symbols@[3] == sym),
                Symbol::Semicolon => assert(symbols@[4] == sym),
            }
        }
        None
    }
}

} // verus!
