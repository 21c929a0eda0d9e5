//! Token types of the compiler, and the regular expressions that recognise
//! keywords, identifiers and constants at the start of the remaining source.

use crate::text::{is_ascii_alpha, is_ascii_digit, is_word_char, run_end};
use vstd::prelude::*;

pub use crate::token::{Keyword, KeywordFromStrError, Symbol, Token, TokenKind};

verus! {

/// A run of letters that ends at an ASCII word boundary.
pub const KEYWORD_REGEX: &'static str = r"^([a-zA-Z]+)(?-u:\b)";

/// A letter or `_`, then letters, digits and `_`, ending at an ASCII word boundary.
pub const IDENTIFIER_REGEX: &'static str = r"^([a-zA-Z_][0-9A-Za-z_]*)(?-u:\b)";

/// A run of digits that ends at an ASCII word boundary.
pub const CONSTANT_REGEX: &'static str = r"^([0-9]+)(?-u:\b)";

/// Whether `c` may start an identifier.
pub open spec fn is_identifier_start(c: char) -> bool {
    is_ascii_alpha(c) || c == '_'
}

/// The number of characters at the start of `h` that [`KEYWORD_REGEX`] matches.
pub open spec fn keyword_match_len(h: Seq<char>) -> Option<nat> {
    let n = run_end(h, 0, |c: char| is_ascii_alpha(c));
    if n > 0 && !(n < h.len() && is_word_char(h[n])) {
        Some(n as nat)
    } else {
        None
    }
}

/// The number of characters at the start of `h` that [`IDENTIFIER_REGEX`] matches.
pub open spec fn identifier_match_len(h: Seq<char>) -> Option<nat> {
    if h.len() > 0 && is_identifier_start(h[0]) {
        Some(run_end(h, 0, |c: char| is_word_char(c)) as nat)
    } else {
        None
    }
}

/// The number of characters at the start of `h` that [`CONSTANT_REGEX`] matches.
pub open spec fn constant_match_len(h: Seq<char>) -> Option<nat> {
    let n = run_end(h, 0, |c: char| is_ascii_digit(c));
    if n > 0 && !(n < h.len() && is_word_char(h[n])) {
        Some(n as nat)
    } else {
        None
    }
}

/// `r` is the prefix of `h` whose length `m` gives, or nothing when `m` is nothing.
pub open spec fn is_prefix_match(r: Option<&str>, m: Option<nat>, h: Seq<char>) -> bool {
    match (r, m) {
        (None, None) => true,
        (Some(s), Some(n)) => n <= h.len() && s@ == h.take(n as int),
        _ => false,
    }
}

/// Compiles `pattern` with `regex::Regex::new` and returns the text of the
/// leftmost match that `regex::Regex::find` reports in `haystack`.
///
/// The contract states what the regex crate's documented syntax means for
/// each of the three patterns of this module (`^` anchors at the start,
/// `+`/`*` are greedy, `(?-u:\b)` is an ASCII word boundary: `[0-9A-Za-z_]` on
/// exactly one side, the end of the haystack counting as a non-word side).
#[verifier::external_body]
fn regex_find<'h>(pattern: &str, haystack: &'h str) -> (r: Option<&'h str>)
    requires
        pattern@ == KEYWORD_REGEX@ || pattern@ == IDENTIFIER_REGEX@ || pattern@ == CONSTANT_REGEX@,
    ensures
        pattern@ == KEYWORD_REGEX@ ==> is_prefix_match(r, keyword_match_len(haystack@), haystack@),
        pattern@ == IDENTIFIER_REGEX@ ==> is_prefix_match(
            r,
            identifier_match_len(haystack@),
            haystack@,
        ),
        pattern@ == CONSTANT_REGEX@ ==> is_prefix_match(r, constant_match_len(haystack@), haystack@),
{
    match regex::Regex::new(pattern) {
        Ok(re) => match re.find(haystack) {
            Some(m) => Some(m.as_str()),
            None => None,
        },
        Err(_) => None,
    }
}

/// The keyword-shaped word at the start of `haystack`, if there is one.
pub fn match_keyword(haystack: &str) -> (r: Option<&str>)
    ensures
        is_prefix_match(r, keyword_match_len(haystack@), haystack@),
{
    regex_find(KEYWORD_REGEX, haystack)
}

/// The identifier at the start of `haystack`, if there is one.
pub fn match_identifier(haystack: &str) -> (r: Option<&str>)
    ensures
        is_prefix_match(r, identifier_match_len(haystack@), haystack@),
{
    regex_find(IDENTIFIER_REGEX, haystack)
}

/// The integer constant at the start of `haystack`, if there is one.
pub fn match_constant(haystack: &str) -> (r: Option<&str>)
    ensures
        is_prefix_match(r, constant_match_len(haystack@), haystack@),
{
    regex_find(CONSTANT_REGEX, haystack)
}

} // verus!
