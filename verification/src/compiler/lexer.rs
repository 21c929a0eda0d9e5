//! Lexing of preprocessed C source code into [`Token`]s.
//!
//! Positions are byte indices into the source, as `str` indexing uses; the
//! contracts speak of the source as a sequence of characters, and relate the two
//! through [`utf8_len`].

use crate::compiler::token::{
    constant_match_len, identifier_match_len, is_prefix_match,
    keyword_match_len, match_constant, match_identifier, match_keyword,
};
use crate::text::{
    char_is_whitespace, char_pos, char_utf8_len, char_utf8_width, is_ascii_alpha,
    is_ascii_digit, is_char_offset, is_unicode_whitespace, is_word_char, lemma_char_pos,
    lemma_run_end, lemma_run_end_unique, lemma_utf8_len_ascii, lemma_utf8_len_split,
    lemma_utf8_len_take_bound, lemma_utf8_len_take_skip, lemma_utf8_len_take_step, occurs_at,
    run_end, split_at_char, str_starts_with, utf8_len,
};
use crate::token::{
    keyword_chars, keyword_from_chars, kind_len, new_token_view, symbol_char, symbol_from_char,
    Keyword, KindView, Symbol, Token, TokenKind, TokenView,
};
use vstd::prelude::*;
use vstd::string::StrSliceExecFns;
use vstd::string::StringExecFns;

verus! {



/// The position at which the whitespace that begins at position `k` of `s` ends.
pub open spec fn whitespace_end(s: Seq<char>, k: int) -> int {
    run_end(s, k, |c: char| is_unicode_whitespace(c))
}

/// The first position from `k` on at which `pattern` occurs in `s`.
pub open spec fn find_from(s: Seq<char>, pattern: Seq<char>, k: int) -> Option<int>
    decreases s.len() - k,
{
    if 0 <= k < s.len() {
        if occurs_at(s, pattern, k) {
            Some(k)
        } else {
            find_from(s, pattern, k + 1)
        }
    } else {
        None
    }
}

/// The byte offset of an optional character position.
pub open spec fn byte_offset(s: Seq<char>, k: Option<int>) -> Option<usize> {
    match k {
        Some(j) => Some(utf8_len(s.take(j)) as usize),
        None => None,
    }
}

/// The number of characters of the comment at the start of `h`: a `//` comment up to
/// and including its newline, or a `/*` comment up to and including the first `*/`
/// found from the opening `/*` itself on (so `/*/` is a comment of three characters);
/// zero when `h` does not start with a complete comment.
pub open spec fn comment_len(h: Seq<char>) -> nat {
    if occurs_at(h, seq!['/', '/'], 0) {
        match find_from(h, seq!['\n'], 0) {
            Some(j) => (j + 1) as nat,
            None => 0,
        }
    } else if occurs_at(h, seq!['/', '*'], 0) {
        match find_from(h, seq!['*', '/'], 0) {
            Some(j) => (j + 2) as nat,
            None => 0,
        }
    } else {
        0
    }
}

/// The number of characters of whitespace and comments at the start of `h`.
pub open spec fn trivia_len(h: Seq<char>) -> nat
    decreases h.len(),
{
    let w = whitespace_end(h, 0);
    let c = comment_len(h.skip(w));
    if w + c == 0 || h.len() < w + c {
        0
    } else {
        proof {
            lemma_run_end(h, 0, |c: char| is_unicode_whitespace(c));
        }
        (w + c + trivia_len(h.skip(w + c))) as nat
    }
}

/// A `find_from` result lies within the sequence, at an occurrence, with none before it.
pub proof fn lemma_find_from(s: Seq<char>, pattern: Seq<char>, k: int)
    requires
        0 <= k,
    ensures
        find_from(s, pattern, k) matches Some(j) ==> k <= j < s.len() && occurs_at(s, pattern, j),
        forall|i: int|
            k <= i < s.len() && (find_from(s, pattern, k) matches Some(j) ==> i < j) ==> !occurs_at(
                s,
                pattern,
                i,
            ),
    decreases s.len() - k,
{
    if k < s.len() && !occurs_at(s, pattern, k) {
        lemma_find_from(s, pattern, k + 1);
    }
}

/// A comment lies within the text it starts.
pub proof fn lemma_comment_len(h: Seq<char>)
    ensures
        comment_len(h) <= h.len(),
{
    lemma_find_from(h, seq!['\n'], 0);
    lemma_find_from(h, seq!['*', '/'], 0);
}

/// `h` holds `*` then `/` at position `i`.
pub open spec fn star_slash_at(h: Seq<char>, i: int) -> bool {
    0 <= i && i + 1 < h.len() && h[i] == '*' && h[i + 1] == '/'
}

/// A comment found at the start of `h` is either `//` up to and including the first
/// newline, or `/*` up to and including the first `*/` from the opening on; when none is
/// found, `h` starts with neither a `//` that has a newline after it nor a `/*` that has
/// a `*/` from it on.
pub proof fn lemma_comment_laws(h: Seq<char>)
    ensures
        comment_len(h) <= h.len(),
        comment_len(h) > 0 ==> {
            let n = comment_len(h) as int;
            ||| {
                &&& h[0] == '/' && h[1] == '/'
                &&& 2 < n && h[n - 1] == '\n'
                &&& forall|i: int| 0 <= i < n - 1 ==> h[i] != '\n'
            }
            ||| {
                &&& h[0] == '/' && h[1] == '*'
                &&& 3 <= n && h[n - 2] == '*' && h[n - 1] == '/'
                &&& forall|i: int| 0 <= i < n - 2 ==> !#[trigger] star_slash_at(h, i)
            }
        },
        comment_len(h) == 0 ==> !(h.len() >= 2 && h[0] == '/' && h[1] == '/' && exists|i: int|
            0 <= i < h.len() && h[i] == '\n'),
        comment_len(h) == 0 ==> !(h.len() >= 2 && h[0] == '/' && h[1] == '*' && exists|i: int|
            #[trigger] star_slash_at(h, i)),
{
    lemma_find_from(h, seq!['\n'], 0);
    lemma_find_from(h, seq!['*', '/'], 0);
    if h.len() >= 2 {
        assert(occurs_at(h, seq!['/', '/'], 0) <==> (h[0] == '/' && h[1] == '/')) by {
            if h[0] == '/' && h[1] == '/' {
                assert(h.subrange(0, 2) =~= seq!['/', '/']);
            }
            if occurs_at(h, seq!['/', '/'], 0) {
                assert(h.subrange(0, 2)[0] == h[0]);
                assert(h.subrange(0, 2)[1] == h[1]);
            }
        }
        assert(occurs_at(h, seq!['/', '*'], 0) <==> (h[0] == '/' && h[1] == '*')) by {
            if h[0] == '/' && h[1] == '*' {
                assert(h.subrange(0, 2) =~= seq!['/', '*']);
            }
            if occurs_at(h, seq!['/', '*'], 0) {
                assert(h.subrange(0, 2)[0] == h[0]);
                assert(h.subrange(0, 2)[1] == h[1]);
            }
        }
        assert forall|i: int| 0 <= i < h.len() implies (occurs_at(h, seq!['\n'], i) <==> h[i]
            == '\n') by {
            if h[i] == '\n' {
                assert(h.subrange(i, i + 1) =~= seq!['\n']);
            }
            if occurs_at(h, seq!['\n'], i) {
                assert(h.subrange(i, i + 1)[0] == h[i]);
            }
        }
        assert forall|i: int| 0 <= i < h.len() implies (occurs_at(h, seq!['*', '/'], i) <==> #[trigger] star_slash_at(h, i)) by {
            if star_slash_at(h, i) {
                assert(h.subrange(i, i + 2) =~= seq!['*', '/']);
            }
            if occurs_at(h, seq!['*', '/'], i) {
                assert(h.subrange(i, i + 2)[0] == h[i]);
                assert(h.subrange(i, i + 2)[1] == h[i + 1]);
            }
        }
        assert(!occurs_at(h, seq!['*', '/'], h.len() - 1));
    } else {
        assert(!occurs_at(h, seq!['/', '/'], 0));
        assert(!occurs_at(h, seq!['/', '*'], 0));
    }
}

/// Whitespace and comments lie within the text they start.
pub proof fn lemma_trivia_len(h: Seq<char>)
    ensures
        trivia_len(h) <= h.len(),
    decreases h.len(),
{
    let w = whitespace_end(h, 0);
    lemma_run_end(h, 0, |c: char| is_unicode_whitespace(c));
    let c = comment_len(h.skip(w));
    if !(w + c == 0 || h.len() < w + c) {
        lemma_trivia_len(h.skip(w + c));
    }
}


/// The characters of `s` from position `i` up to position `n` are, one after another,
/// whitespace characters and complete comments (`//` up to and including its newline,
/// `/*` up to and including the first `*/` from the opening `/*` on).
pub open spec fn trivia_span(s: Seq<char>, i: int, n: int) -> bool
    decreases n - i,
{
    if n <= i {
        i == n
    } else if 0 <= i < s.len() && is_unicode_whitespace(s[i]) {
        trivia_span(s, i + 1, n)
    } else {
        let c = comment_len(s.skip(i)) as int;
        0 <= i < s.len() && 0 < c && i + c <= n && trivia_span(s, i + c, n)
    }
}

/// A span of a suffix of `s` is the same span of `s`, further on.
pub proof fn lemma_trivia_span_skip(s: Seq<char>, m: int, i: int, n: int)
    requires
        0 <= m <= s.len(),
        0 <= i,
    ensures
        trivia_span(s.skip(m), i, n) == trivia_span(s, i + m, n + m),
    decreases n - i,
{
    if i < n && i < s.len() - m {
        assert(s.skip(m).skip(i) =~= s.skip(i + m));
        assert(s.skip(m)[i] == s[i + m]);
        lemma_trivia_span_skip(s, m, i + 1, n);
        let c = comment_len(s.skip(i + m)) as int;
        if 0 < c && i + c <= n {
            lemma_trivia_span_skip(s, m, i + c, n);
        }
    }
}

/// A span of trivia stays one after a run of whitespace is taken off its front.
proof fn lemma_trivia_span_advance(s: Seq<char>, i: int, j: int, n: int)
    requires
        trivia_span(s, i, n),
        0 <= i <= j <= n,
        j <= s.len(),
        forall|x: int| i <= x < j ==> is_unicode_whitespace(#[trigger] s[x]),
    ensures
        trivia_span(s, j, n),
    decreases j - i,
{
    if i < j {
        assert(is_unicode_whitespace(s[i]));
        assert(trivia_span(s, i + 1, n));
        lemma_trivia_span_advance(s, i + 1, j, n);
    }
}

/// A run of whitespace in front of a span of trivia makes a longer span of trivia.
proof fn lemma_trivia_span_extend(s: Seq<char>, i: int, j: int, n: int)
    requires
        trivia_span(s, j, n),
        0 <= i <= j <= n,
        j <= s.len(),
        forall|x: int| i <= x < j ==> is_unicode_whitespace(#[trigger] s[x]),
    ensures
        trivia_span(s, i, n),
    decreases j - i,
{
    if i < j {
        assert(is_unicode_whitespace(s[i]));
        lemma_trivia_span_extend(s, i + 1, j, n);
    }
}

/// One round of whitespace and comment, as `trivia_len` takes it.
proof fn lemma_trivia_len_unfold(h: Seq<char>)
    ensures
        0 <= whitespace_end(h, 0) + comment_len(h.skip(whitespace_end(h, 0))) <= h.len(),
        whitespace_end(h, 0) + comment_len(h.skip(whitespace_end(h, 0))) > 0 ==> trivia_len(h)
            == whitespace_end(h, 0) + comment_len(h.skip(whitespace_end(h, 0))) + trivia_len(
            h.skip(whitespace_end(h, 0) + comment_len(h.skip(whitespace_end(h, 0))) as int),
        ),
        whitespace_end(h, 0) + comment_len(h.skip(whitespace_end(h, 0))) == 0 ==> trivia_len(h)
            == 0,
{
    let w = whitespace_end(h, 0);
    lemma_run_end(h, 0, |c: char| is_unicode_whitespace(c));
    lemma_comment_len(h.skip(w));
}

/// What `trivia_len` skips is exactly whitespace and complete comments, and it stops
/// where neither whitespace nor a complete comment begins.
pub proof fn lemma_trivia_len_exact(h: Seq<char>)
    ensures
        trivia_span(h, 0, trivia_len(h) as int),
        whitespace_end(h.skip(trivia_len(h) as int), 0) == 0,
        comment_len(h.skip(trivia_len(h) as int)) == 0,
    decreases h.len(),
{
    let w = whitespace_end(h, 0);
    let c = comment_len(h.skip(w)) as int;
    lemma_trivia_len_unfold(h);
    lemma_run_end(h, 0, |c: char| is_unicode_whitespace(c));
    lemma_trivia_len(h);
    if w + c == 0 {
        assert(h.skip(0) =~= h);
    } else {
        let h2 = h.skip(w + c);
        let n2 = trivia_len(h2) as int;
        let n = trivia_len(h) as int;
        lemma_trivia_len_exact(h2);
        lemma_trivia_len(h2);
        lemma_trivia_span_skip(h, w + c, 0, n2);
        assert(h2.skip(n2) =~= h.skip(n));
        if c > 0 {
            assert(w < h.len());
            assert(trivia_span(h, w, n));
        }
        lemma_trivia_span_extend(h, 0, w, n);
    }
}

/// `trivia_len` reaches at least as far as any span of trivia at the start of `h`.
pub proof fn lemma_trivia_len_maximal(h: Seq<char>, n: int)
    requires
        trivia_span(h, 0, n),
    ensures
        n <= trivia_len(h),
    decreases h.len(),
{
    let w = whitespace_end(h, 0);
    let c = comment_len(h.skip(w)) as int;
    lemma_trivia_len_unfold(h);
    lemma_run_end(h, 0, |c: char| is_unicode_whitespace(c));
    if n > 0 && w < n {
        lemma_trivia_span_advance(h, 0, w, n);
        assert(c > 0 && w + c <= n && trivia_span(h, w + c, n));
        let h2 = h.skip(w + c);
        lemma_trivia_span_skip(h, w + c, 0, n - w - c);
        lemma_trivia_len_maximal(h2, n - w - c);
    }
}

/// The gap before each lexing step is whitespace and complete comments; lexing ends
/// exactly when all that is left is such a gap; and a token found spells the text just
/// after the gap.
pub proof fn lemma_next_step_trivia(s: Seq<char>, k: int)
    requires
        0 <= k <= s.len(),
    ensures
        trivia_span(s, k, k + trivia_len(s.skip(k))),
        whitespace_end(s.skip(k + trivia_len(s.skip(k))), 0) == 0,
        comment_len(s.skip(k + trivia_len(s.skip(k)))) == 0,
        next_step(s, k) is End <==> trivia_span(s, k, s.len() as int),
        next_step(s, k) matches Step::Token(t, k2) ==> {
            &&& token_at(s, t, k + trivia_len(s.skip(k)))
            &&& k2 == k + trivia_len(s.skip(k)) + crate::token::kind_text(t.kind).len()
        },
        next_step(s, k) matches Step::Error(q) ==> q == k + trivia_len(s.skip(k)),
{
    let h = s.skip(k);
    let t = trivia_len(h) as int;
    lemma_trivia_len(h);
    lemma_trivia_len_exact(h);
    lemma_trivia_span_skip(s, k, 0, t);
    assert(h.skip(t) =~= s.skip(k + t));
    lemma_trivia_span_skip(s, k, 0, s.len() - k);
    if trivia_span(s, k, s.len() as int) {
        lemma_trivia_len_maximal(h, s.len() - k);
    }
    if k + t < s.len() {
        let hq = s.skip(k + t);
        lemma_scan(hq);
        if let Scan::Found(kind, n) = scan(hq) {
            assert(s.subrange(k + t, k + t + n) =~= hq.take(n as int));
        }
    }
}

/// Advances `remaining` and `index` past the whitespace and comments at the start of `remaining`.
pub fn consume_whitespace_comments<'a>(remaining: &mut &'a str, index: &mut usize)
    requires
        *old(index) + utf8_len(old(remaining)@) <= usize::MAX,
    ensures
        final(remaining)@ == old(remaining)@.skip(trivia_len(old(remaining)@) as int),
        *final(index) == *old(index) + utf8_len(
            old(remaining)@.take(trivia_len(old(remaining)@) as int),
        ),
{
    let ghost orig = remaining@;
    let ghost idx0 = *index as int;
    let ghost mut done: int = 0;
    proof {
        assert(orig.skip(0) =~= orig);
        assert(orig.take(0) =~= Seq::<char>::empty());
        assert(utf8_len(Seq::<char>::empty()) == 0);
        lemma_trivia_len(orig);
    }
    loop
        invariant
            0 <= done <= orig.len(),
            remaining@ == orig.skip(done),
            *index == idx0 + utf8_len(orig.take(done)),
            idx0 + utf8_len(orig) <= usize::MAX,
            trivia_len(orig) == done + trivia_len(remaining@),
        ensures
            done == trivia_len(orig),
            remaining@ == orig.skip(done),
            *index == idx0 + utf8_len(orig.take(done)),
        decreases remaining@.len(),
    {
        let ghost h = remaining@;
        let ghost w = whitespace_end(h, 0);
        proof {
            lemma_utf8_len_split(orig, done);
            lemma_run_end(h, 0, |c: char| is_unicode_whitespace(c));
            lemma_char_pos(h, w);
            lemma_utf8_len_take_bound(h, w);
        }
        let whitespace = count_whitespace(*remaining);
        consume(remaining, index, whitespace);
        let ghost h2 = remaining@;
        let ghost c = comment_len(h2) as int;
        proof {
            lemma_utf8_len_take_skip(h, w, 0);
            lemma_utf8_len_split(h, w);
            lemma_comment_len(h2);
            lemma_char_pos(h2, c);
            lemma_utf8_len_take_bound(h2, c);
        }
        let comments = count_comment(*remaining);
        consume(remaining, index, comments);
        proof {
            lemma_utf8_len_take_skip(h, w, c);
            lemma_utf8_len_take_skip(orig, done, w + c);
            crate::text::lemma_utf8_len_take_monotone(h, 0, w);
            crate::text::lemma_utf8_len_take_monotone(h2, 0, c);
            assert(h.take(0) =~= Seq::<char>::empty());
            assert(h2.take(0) =~= Seq::<char>::empty());
            assert(utf8_len(Seq::<char>::empty()) == 0);
        }
        if whitespace + comments == 0 {
            proof {
                assert(w == 0 && c == 0);
                assert(h.skip(0) =~= h);
            }
            break;
        }
        proof {
            assert(h.skip(w + c) =~= remaining@);
            done = done + w + c;
        }
    }
}

/// The kind the placeholder token has before any matcher updates it.
pub open spec fn placeholder_kind() -> KindView {
    KindView::Identifier(Seq::empty())
}

/// The kind and length (in characters) of the token after trying the keyword matcher on `h`.
pub open spec fn after_keyword(h: Seq<char>) -> (KindView, nat) {
    match keyword_match_len(h) {
        Some(n) => match keyword_from_chars(h.take(n as int)) {
            Some(k) => (KindView::Keyword(k), n),
            None => (placeholder_kind(), 0),
        },
        None => (placeholder_kind(), 0),
    }
}

/// The kind and length of the token after then trying the identifier matcher on `h`:
/// a strictly longer identifier replaces the keyword.
pub open spec fn after_identifier(h: Seq<char>) -> (KindView, nat) {
    let prev = after_keyword(h);
    match identifier_match_len(h) {
        Some(m) => if m > prev.1 {
            (KindView::Identifier(h.take(m as int)), m)
        } else {
            prev
        },
        None => prev,
    }
}

/// The kind and length of the token after then trying the constant matcher on `h`.
pub open spec fn after_constant(h: Seq<char>) -> (KindView, nat) {
    let prev = after_identifier(h);
    match constant_match_len(h) {
        Some(m) => if m > prev.1 {
            (KindView::Constant(h.take(m as int)), m)
        } else {
            prev
        },
        None => prev,
    }
}

/// What lexing finds at the start of a non-empty text `h` that holds no leading
/// whitespace or comment.
pub enum Scan {
    /// A token of this kind that spans this many characters.
    Found(KindView, nat),
    /// No token matches.
    NoToken,
}

/// The result of scanning for one token at the start of `h`: the longest of a
/// keyword, identifier or constant (earlier matchers win ties), otherwise a
/// one-character symbol.
pub open spec fn scan(h: Seq<char>) -> Scan {
    let found = after_constant(h);
    if found.1 > 0 {
        Scan::Found(found.0, found.1)
    } else {
        match symbol_from_char(h[0]) {
            Some(sym) => Scan::Found(KindView::Symbol(sym), 1),
            None => Scan::NoToken,
        }
    }
}

/// One step of lexing from character position `k` of `s`.
pub enum Step {
    /// Only whitespace and comments remain; lexing ends at this position.
    End(int),
    /// This token is next, and lexing goes on from this position.
    Token(TokenView, int),
    /// No token starts at this position.
    Error(int),
}

/// The next step of lexing `s` from character position `k`.
pub open spec fn next_step(s: Seq<char>, k: int) -> Step {
    let q = k + trivia_len(s.skip(k));
    if q >= s.len() {
        Step::End(q)
    } else {
        match scan(s.skip(q)) {
            Scan::Found(kind, n) => Step::Token(
                new_token_view(kind, utf8_len(s.take(q))),
                q + n,
            ),
            Scan::NoToken => Step::Error(q),
        }
    }
}

/// The outcome of lexing.
pub enum LexView {
    /// The whole text lexes into these tokens.
    Tokens(Seq<TokenView>),
    /// No token starts at this byte index.
    Error(nat),
}

/// `t` followed by the outcome `rest`.
pub open spec fn lex_prepend(t: TokenView, rest: LexView) -> LexView {
    match rest {
        LexView::Tokens(ts) => LexView::Tokens(seq![t] + ts),
        other => other,
    }
}

/// The outcome of lexing `s` from character position `k` (within `s`).
pub open spec fn lex_from(s: Seq<char>, k: int) -> LexView
    decreases s.len() - k,
{
    if 0 <= k <= s.len() {
        match next_step(s, k) {
            Step::End(_) => LexView::Tokens(Seq::empty()),
            Step::Token(t, k2) => {
                proof {
                    lemma_next_step_advances(s, k);
                }
                lex_prepend(t, lex_from(s, k2))
            },
            Step::Error(q) => LexView::Error(utf8_len(s.take(q))),
        }
    } else {
        LexView::Tokens(Seq::empty())
    }
}


/// Facts about the text of a run of ASCII characters.
proof fn lemma_ascii_run(h: Seq<char>, n: int, p: spec_fn(char) -> bool)
    requires
        0 <= n <= h.len(),
        forall|i: int| 0 <= i < n ==> p(#[trigger] h[i]),
        forall|c: char| p(c) ==> is_word_char(c),
    ensures
        utf8_len(h.take(n)) == n,
        forall|i: int| 0 <= i < n ==> (#[trigger] h.take(n)[i] as u32) < 0x80,
{
    assert forall|i: int| 0 <= i < n implies (#[trigger] h.take(n)[i] as u32) < 0x80 by {
        assert(p(h[i]));
        assert(is_word_char(h[i]));
        assert(h.take(n)[i] == h[i]);
    }
    lemma_utf8_len_ascii(h.take(n));
}

/// What the three matchers leave in the token: nothing, or the text that starts `h`,
/// all ASCII, whose byte length is its character count.
pub proof fn lemma_after_constant(h: Seq<char>)
    ensures
        after_constant(h).1 <= h.len(),
        after_constant(h).1 == 0 ==> after_constant(h).0 == placeholder_kind(),
        after_constant(h).1 > 0 ==> {
            &&& crate::token::kind_text(after_constant(h).0) == h.take(after_constant(h).1 as int)
            &&& kind_len(after_constant(h).0) == after_constant(h).1
            &&& utf8_len(h.take(after_constant(h).1 as int)) == after_constant(h).1
        },
{
    let pa = |c: char| is_ascii_alpha(c);
    let pw = |c: char| is_word_char(c);
    let pd = |c: char| is_ascii_digit(c);
    lemma_run_end(h, 0, pa);
    lemma_run_end(h, 0, pw);
    lemma_run_end(h, 0, pd);
    let na = run_end(h, 0, pa);
    let nw = run_end(h, 0, pw);
    let nd = run_end(h, 0, pd);
    lemma_ascii_run(h, na, pa);
    lemma_ascii_run(h, nw, pw);
    lemma_ascii_run(h, nd, pd);
    crate::token::lemma_keyword_from_chars_sound(h.take(na));
}

/// The lengths the three matchers find: within the text, non-empty, and ASCII.
pub proof fn lemma_match_lens(h: Seq<char>)
    ensures
        keyword_match_len(h) matches Some(n) ==> 0 < n <= h.len() && utf8_len(h.take(n as int))
            == n,
        identifier_match_len(h) matches Some(n) ==> 0 < n <= h.len() && utf8_len(
            h.take(n as int),
        ) == n,
        constant_match_len(h) matches Some(n) ==> 0 < n <= h.len() && utf8_len(h.take(n as int))
            == n,
{
    let pa = |c: char| is_ascii_alpha(c);
    let pw = |c: char| is_word_char(c);
    let pd = |c: char| is_ascii_digit(c);
    lemma_run_end(h, 0, pa);
    lemma_run_end(h, 0, pw);
    lemma_run_end(h, 0, pd);
    lemma_ascii_run(h, run_end(h, 0, pa), pa);
    lemma_ascii_run(h, run_end(h, 0, pw), pw);
    lemma_ascii_run(h, run_end(h, 0, pd), pd);
}

/// A scan that finds a token finds a non-empty one within the text.
pub proof fn lemma_scan(h: Seq<char>)
    requires
        h.len() > 0,
    ensures
        scan(h) matches Scan::Found(kind, n) ==> {
            &&& 1 <= n <= h.len()
            &&& kind_len(kind) == n
            &&& utf8_len(h.take(n as int)) == n
            &&& crate::token::kind_text(kind) == h.take(n as int)
        },
{
    lemma_after_constant(h);
    if after_constant(h).1 == 0 {
        if let Some(sym) = symbol_from_char(h[0]) {
            lemma_utf8_len_ascii(h.take(1));
            assert(h.take(1) =~= seq![h[0]]);
        }
    }
}

/// The kind of the token that a scan finds is fixed by which pattern matches its text:
/// a run of digits is a constant; a word (a letter or `_`, then letters, digits and `_`)
/// is the keyword it spells, if it spells one, and otherwise an identifier; any other
/// text is the symbol its first character is, or no token at all.
#[verifier::spinoff_prover]
pub proof fn lemma_scan_kind(h: Seq<char>)
    requires
        h.len() > 0,
    ensures
        constant_match_len(h) matches Some(m) ==> scan(h) == Scan::Found(
            KindView::Constant(h.take(m as int)),
            m,
        ),
        identifier_match_len(h) matches Some(m) ==> (forall|kw: Keyword|
            keyword_chars(kw) != h.take(m as int)) ==> scan(h) == Scan::Found(
            KindView::Identifier(h.take(m as int)),
            m,
        ),
        identifier_match_len(h) matches Some(m) ==> forall|kw: Keyword|
            keyword_chars(kw) == h.take(m as int) ==> scan(h) == Scan::Found(
                KindView::Keyword(kw),
                m,
            ),
        constant_match_len(h) is None && identifier_match_len(h) is None ==> forall|sym: Symbol|
            symbol_char(sym) == h[0] ==> scan(h) == Scan::Found(KindView::Symbol(sym), 1),
        constant_match_len(h) is None && identifier_match_len(h) is None && (forall|sym: Symbol|
            symbol_char(sym) != h[0]) ==> scan(h) == Scan::NoToken,
{
    let pa = |c: char| is_ascii_alpha(c);
    let pw = |c: char| is_word_char(c);
    let pd = |c: char| is_ascii_digit(c);
    lemma_run_end(h, 0, pa);
    lemma_run_end(h, 0, pw);
    lemma_run_end(h, 0, pd);
    lemma_match_lens(h);
    let na = run_end(h, 0, pa);
    let nw = run_end(h, 0, pw);
    if let Some(m) = identifier_match_len(h) {
        let w = h.take(m as int);
        assert forall|kw: Keyword| keyword_chars(kw) == w implies scan(h) == Scan::Found(
            KindView::Keyword(kw),
            m,
        ) by {
            crate::token::lemma_keyword_round_trip(kw);
            crate::token::lemma_keyword_chars_lowercase(kw);
            assert forall|i: int| 0 <= i < m implies is_ascii_alpha(#[trigger] h[i]) by {
                assert(w[i] == h[i]);
            }
            if na < m {
                assert(is_ascii_alpha(h[na]));
            }
            assert(na == m);
        }
        assert forall|kw: Keyword| keyword_chars(kw) != w implies keyword_from_chars(w) != Some(kw)
            by {
            crate::token::lemma_keyword_from_chars_sound(w);
        }
        if keyword_match_len(h) is Some {
            if na < nw {
                assert(is_word_char(h[na]));
            }
            assert(na == nw);
        }
        if forall|kw: Keyword| keyword_chars(kw) != w {
            crate::token::lemma_keyword_from_chars_sound(w);
            assert(keyword_from_chars(w) is None);
            assert(after_keyword(h).1 == 0);
            assert(after_identifier(h) == (KindView::Identifier(w), m));
            assert(constant_match_len(h) is None);
        }
    }
    if identifier_match_len(h) is None && constant_match_len(h) is None {
        assert forall|sym: Symbol| symbol_char(sym) == h[0] implies symbol_from_char(h[0]) == Some(sym)
            by {
            crate::token::lemma_symbol_round_trip(sym);
        }
        if let Some(sym) = symbol_from_char(h[0]) {
            crate::token::lemma_symbol_round_trip(sym);
            assert(symbol_char(sym) == h[0]);
        }
    }
}

/// A step that yields a token moves forward within the text.
pub proof fn lemma_next_step_advances(s: Seq<char>, k: int)
    requires
        0 <= k <= s.len(),
    ensures
        next_step(s, k) matches Step::Token(t, k2) ==> k < k2 <= s.len(),
        next_step(s, k) matches Step::End(q) ==> q == s.len(),
        next_step(s, k) matches Step::Error(q) ==> k <= q < s.len(),
{
    lemma_trivia_len(s.skip(k));
    let q = k + trivia_len(s.skip(k));
    if q < s.len() {
        lemma_scan(s.skip(q));
    }
}

/// The token `t` spells the text of `s` that starts at character position `q`.
pub open spec fn token_at(s: Seq<char>, t: TokenView, q: int) -> bool {
    let text = crate::token::kind_text(t.kind);
    &&& 0 <= q
    &&& q + text.len() <= s.len()
    &&& s.subrange(q, q + text.len()) == text
    &&& t.index == utf8_len(s.take(q))
    &&& t.len == utf8_len(text)
}

/// The token `t` spells some text of `s`, at its byte index.
pub open spec fn token_in_source(s: Seq<char>, t: TokenView) -> bool {
    exists|q: int| token_at(s, t, q)
}

/// Each token of `ts` ends at or before the byte index where the next one starts.
pub open spec fn tokens_ordered(ts: Seq<TokenView>) -> bool {
    forall|i: int, j: int|
        #![trigger ts[i], ts[j]]
        0 <= i < j < ts.len() ==> ts[i].index + ts[i].len <= ts[j].index
}

/// Lexing from character position `k` gives tokens that each spell the source text at
/// their byte index, in order and without overlap, from the byte offset of `k` on.
pub proof fn lemma_lex_tokens_in_source(s: Seq<char>, k: int)
    requires
        0 <= k <= s.len(),
    ensures
        lex_from(s, k) matches LexView::Tokens(ts) ==> {
            &&& forall|i: int| 0 <= i < ts.len() ==> token_in_source(s, #[trigger] ts[i])
            &&& tokens_ordered(ts)
            &&& forall|i: int| 0 <= i < ts.len() ==> utf8_len(s.take(k)) <= #[trigger] ts[i].index
        },
    decreases s.len() - k,
{
    lemma_next_step_advances(s, k);
    lemma_trivia_len(s.skip(k));
    if let Step::Token(t, k2) = next_step(s, k) {
        let q = k + trivia_len(s.skip(k));
        let h = s.skip(q);
        lemma_scan(h);
        lemma_lex_tokens_in_source(s, k2);
        if let LexView::Tokens(rest) = lex_from(s, k2) {
            let ts = seq![t] + rest;
            let n = k2 - q;
            let text = crate::token::kind_text(t.kind);
            assert(text == h.take(n));
            assert(s.subrange(q, q + n) =~= h.take(n));
            assert(token_at(s, t, q));
            crate::text::lemma_utf8_len_take_skip(s, q, n);
            crate::text::lemma_utf8_len_take_monotone(s, k, q);
            assert forall|i: int| 0 <= i < ts.len() implies token_in_source(s, #[trigger] ts[i]) by {
                if i == 0 {
                    assert(ts[0] == t);
                } else {
                    assert(ts[i] == rest[i - 1]);
                }
            }
            assert forall|i: int, j: int| #![trigger ts[i], ts[j]] 0 <= i < j < ts.len() implies ts[i].index + ts[i].len
                <= ts[j].index by {
                if i == 0 {
                    assert(ts[j] == rest[j - 1]);
                } else {
                    assert(ts[i] == rest[i - 1]);
                    assert(ts[j] == rest[j - 1]);
                }
            }
            assert forall|i: int| 0 <= i < ts.len() implies utf8_len(s.take(k))
                <= #[trigger] ts[i].index by {
                if i > 0 {
                    assert(ts[i] == rest[i - 1]);
                }
            }
            assert(lex_from(s, k) == LexView::Tokens(ts));
        }
    }
}

/// Each lexing step classifies the text after the gap of whitespace and comments by the
/// pattern it matches: digits give a constant, a word gives the keyword it spells or else
/// an identifier, and otherwise the first character gives its symbol or an error there.
pub proof fn lemma_next_step_kind(s: Seq<char>, k: int)
    requires
        0 <= k <= s.len(),
    ensures
        ({
            let q = k + trivia_len(s.skip(k));
            let h = s.skip(q);
            let b = utf8_len(s.take(q));
            q < s.len() ==> {
                &&& (constant_match_len(h) matches Some(m) ==> next_step(s, k) == Step::Token(
                    new_token_view(KindView::Constant(h.take(m as int)), b),
                    q + m,
                ))
                &&& (identifier_match_len(h) matches Some(m) ==> ((forall|kw: Keyword|
                    keyword_chars(kw) != h.take(m as int)) ==> next_step(s, k) == Step::Token(
                    new_token_view(KindView::Identifier(h.take(m as int)), b),
                    q + m,
                )))
                &&& (identifier_match_len(h) matches Some(m) ==> forall|kw: Keyword|
                    keyword_chars(kw) == h.take(m as int) ==> next_step(s, k) == Step::Token(
                        new_token_view(KindView::Keyword(kw), b),
                        q + m,
                    ))
                &&& (constant_match_len(h) is None && identifier_match_len(h) is None ==> forall|
                    sym: Symbol,
                | symbol_char(sym) == h[0] ==> next_step(s, k) == Step::Token(
                    new_token_view(KindView::Symbol(sym), b),
                    q + 1,
                ))
                &&& (constant_match_len(h) is None && identifier_match_len(h) is None && (forall|
                    sym: Symbol,
                | symbol_char(sym) != h[0]) ==> next_step(s, k) == Step::Error(q))
            }
        }),
{
    let q = k + trivia_len(s.skip(k));
    lemma_trivia_len(s.skip(k));
    if q < s.len() {
        lemma_scan_kind(s.skip(q));
    }
}

/// The tokens `ts` tile `s` from character position `k` on: each token spells the text
/// just after a gap of whitespace and complete comments, and after the last token only
/// such a gap remains.
pub open spec fn tiles(s: Seq<char>, k: int, ts: Seq<TokenView>) -> bool
    decreases ts.len(),
{
    if ts.len() == 0 {
        trivia_span(s, k, s.len() as int)
    } else {
        exists|q: int|
            #![trigger token_at(s, ts[0], q)]
            {
                &&& trivia_span(s, k, q)
                &&& token_at(s, ts[0], q)
                &&& tiles(s, q + crate::token::kind_text(ts[0].kind).len(), ts.skip(1))
            }
    }
}

/// The tokens that lexing gives tile the source: between, before and after them stand
/// only whitespace and complete comments.
pub proof fn lemma_lex_tiles(s: Seq<char>, k: int)
    requires
        0 <= k <= s.len(),
    ensures
        lex_from(s, k) matches LexView::Tokens(ts) ==> tiles(s, k, ts),
    decreases s.len() - k,
{
    lemma_next_step_advances(s, k);
    lemma_next_step_trivia(s, k);
    if let Step::Token(t, k2) = next_step(s, k) {
        lemma_lex_tiles(s, k2);
        if let LexView::Tokens(rest) = lex_from(s, k2) {
            let ts = seq![t] + rest;
            let q = k + trivia_len(s.skip(k));
            assert(ts[0] == t);
            assert(ts.skip(1) =~= rest);
            assert(token_at(s, ts[0], q));
            assert(lex_from(s, k) == LexView::Tokens(ts));
        }
    }
}

/// The lexer takes the longest keyword, identifier or constant at a position: the token
/// it finds is at least as long as each match, and a keyword wins over an identifier of
/// the same length.
pub proof fn lemma_scan_longest(h: Seq<char>)
    ensures
        identifier_match_len(h) matches Some(m) ==> after_constant(h).1 >= m,
        constant_match_len(h) matches Some(m) ==> after_constant(h).1 >= m,
        keyword_match_len(h) matches Some(n) ==> (keyword_from_chars(h.take(n as int)) is Some
            ==> after_constant(h).1 >= n),
        keyword_match_len(h) matches Some(n) ==> (keyword_from_chars(h.take(n as int)) matches Some(
            kw,
        ) ==> (identifier_match_len(h) == Some(n) ==> after_constant(h).0 == KindView::Keyword(kw))),
{
    lemma_match_lens(h);
    if let Some(n) = keyword_match_len(h) {
        if let Some(m) = constant_match_len(h) {
            // a keyword starts with a letter and a constant with a digit
            assert(is_ascii_alpha(h[0]));
            crate::text::lemma_run_end(h, 0, |c: char| is_ascii_digit(c));
            assert(is_ascii_digit(h[0]));
        }
    }
    if let Some(n) = identifier_match_len(h) {
        if let Some(m) = constant_match_len(h) {
            crate::text::lemma_run_end(h, 0, |c: char| is_ascii_digit(c));
            assert(is_ascii_digit(h[0]));
        }
    }
}

/// An error which can occur during lexing.
#[derive(Clone, Debug, PartialEq, Eq, Structural)]
pub enum LexingError {
    /// Sequence doesn't match a valid [`Token`]
    NoValidToken {
        /// The byte index at which no token could be matched.
        index: usize,
    },
}

impl LexingError {
    /// The byte index at which the error occurred.
    pub fn index(&self) -> (i: usize)
        ensures
            i == (match self {
                LexingError::NoValidToken { index } => *index,
            }),
    {
        match self {
            LexingError::NoValidToken { index } => *index,
        }
    }

    /// The message that describes this error.
    pub fn to_string(&self) -> (s: String)
        ensures
            s@ == "no valid token at index "@ + crate::text::decimal(
                (match self {
                    LexingError::NoValidToken { index } => *index,
                }) as nat,
            ),
    {
        let mut s = String::new();
        s.append("no valid token at index ");
        match self {
            LexingError::NoValidToken { index } => crate::text::push_decimal(&mut s, *index as u128),
        }
        s
    }
}

/// Counts bytes in the given string until a char that doesn't meet the given predicate is found.
pub fn count_applicable<F>(data: &str, predicate: F) -> (r: usize) where F: Fn(char) -> bool
    requires
        utf8_len(data@) <= usize::MAX,
        forall|c: char| call_requires(predicate, (c,)),
    ensures
        exists|n: int|
            {
                &&& 0 <= n <= data@.len()
                &&& r == utf8_len(data@.take(n))
                &&& forall|i: int| 0 <= i < n ==> call_ensures(predicate, (data@[i],), true)
                &&& n < data@.len() ==> call_ensures(predicate, (data@[n],), false)
            },
{
    broadcast use vstd::string::group_string_axioms;

    let mut index: usize = 0;
    let mut it = data.chars();
    let ghost mut n: int = 0;
    loop
        invariant
            0 <= n <= data@.len(),
            utf8_len(data@) <= usize::MAX,
            forall|c: char| call_requires(predicate, (c,)),
            vstd::std_specs::iter::IteratorSpec::remaining(&it) == data@.skip(n),
            index == utf8_len(data@.take(n)),
            forall|i: int| 0 <= i < n ==> call_ensures(predicate, (data@[i],), true),
        decreases data@.len() - n,
    {
        match it.next() {
            None => {
                assert(n == data@.len());
                return index;
            },
            Some(c) => {
                assert(c == data@[n]);
                let keep = predicate(c);
                if !keep {
                    return index;
                }
                proof {
                    lemma_utf8_len_take_step(data@, n);
                    lemma_utf8_len_take_bound(data@, n + 1);
                }
                index = index + char_utf8_width(c);
                proof {
                    n = n + 1;
                }
            },
        }
    }
}

/// Counts the bytes of whitespace at the start of `data`.
pub fn count_whitespace(data: &str) -> (r: usize)
    requires
        utf8_len(data@) <= usize::MAX,
    ensures
        r == utf8_len(data@.take(whitespace_end(data@, 0))),
{
    let r = count_applicable(data, char_is_whitespace);
    proof {
        let n = choose|n: int|
            {
                &&& 0 <= n <= data@.len()
                &&& r == utf8_len(data@.take(n))
                &&& forall|i: int| 0 <= i < n ==> call_ensures(char_is_whitespace, (data@[i],), true)
                &&& n < data@.len() ==> call_ensures(char_is_whitespace, (data@[n],), false)
            };
        lemma_run_end_unique(data@, 0, n, |c: char| is_unicode_whitespace(c));
    }
    r
}

/// Splits off the first character of a non-empty string.
fn split_first_char<'a>(s: &'a str) -> (r: (char, &'a str))
    requires
        s@.len() > 0,
    ensures
        r.0 == s@[0],
        r.1@ == s@.skip(1),
        char_utf8_len(s@[0]) == utf8_len(s@.take(1)),
{
    let c = s.get_char(0);
    let w = char_utf8_width(c);
    proof {
        lemma_utf8_len_take_step(s@, 0);
        assert(s@.take(0) =~= Seq::<char>::empty());
        assert(utf8_len(Seq::<char>::empty()) == 0);
    }
    let (_, rest) = split_at_char(s, Ghost(1), w);
    (c, rest)
}

/// Counts the number of bytes up to the given pattern. Returns [`None`] if no match.
pub fn count_to(data: &str, pattern: &str) -> (r: Option<usize>)
    requires
        utf8_len(data@) <= usize::MAX,
    ensures
        r == byte_offset(data@, find_from(data@, pattern@, 0)),
{
    let ghost d0 = data@;
    let mut cur = data;
    let mut index: usize = 0;
    let ghost mut k: int = 0;
    proof {
        assert(d0.skip(0) =~= d0);
    }
    while !cur.is_empty()
        invariant
            0 <= k <= d0.len(),
            utf8_len(d0) <= usize::MAX,
            d0 == data@,
            cur@ == d0.skip(k),
            index == utf8_len(d0.take(k)),
            find_from(d0, pattern@, 0) == find_from(d0, pattern@, k),
        decreases cur@.len(),
    {
        let at = str_starts_with(cur, pattern);
        proof {
            if pattern@.len() <= cur@.len() {
                assert(cur@.subrange(0, pattern@.len() as int) =~= d0.subrange(
                    k,
                    k + pattern@.len(),
                ));
            }
        }
        if at {
            assert(occurs_at(d0, pattern@, k));
            assert(k < d0.len());
            assert(find_from(d0, pattern@, k) == Some(k));
            return Some(index);
        }
        let (c, rest) = split_first_char(cur);
        proof {
            lemma_utf8_len_take_skip(d0, k, 1);
            lemma_utf8_len_take_bound(d0, k + 1);
        }
        index = index + char_utf8_width(c);
        cur = rest;
        proof {
            k = k + 1;
        }
    }
    None
}

/// Counts the bytes of the comment at the start of `data`, or 0 if `data` does not start
/// with a complete comment.
pub fn count_comment(data: &str) -> (r: usize)
    requires
        utf8_len(data@) <= usize::MAX,
    ensures
        r == utf8_len(data@.take(comment_len(data@) as int)),
{
    proof {
        reveal_strlit("//");
        reveal_strlit("\n");
        reveal_strlit("/*");
        reveal_strlit("*/");
        assert("//"@ =~= seq!['/', '/']);
        assert("\n"@ =~= seq!['\n']);
        assert("/*"@ =~= seq!['/', '*']);
        assert("*/"@ =~= seq!['*', '/']);
        assert(data@.take(0) =~= Seq::<char>::empty());
        assert(utf8_len(Seq::<char>::empty()) == 0);
    }
    if str_starts_with(data, "//") {
        return match count_to(data, "\n") {
            Some(count) => {
                proof {
                    let j = find_from(data@, seq!['\n'], 0)->0;
                    lemma_find_from(data@, seq!['\n'], 0);
                    lemma_utf8_len_take_skip(data@, j, 1);
                    assert(data@.skip(j).take(1) =~= seq!['\n']);
                    lemma_utf8_len_ascii(seq!['\n']);
                    lemma_utf8_len_take_bound(data@, j + 1);
                }
                count + 1
            },
            None => 0,
        };
    }
    if str_starts_with(data, "/*") {
        return match count_to(data, "*/") {
            Some(count) => {
                proof {
                    let j = find_from(data@, seq!['*', '/'], 0)->0;
                    lemma_find_from(data@, seq!['*', '/'], 0);
                    lemma_utf8_len_take_skip(data@, j, 2);
                    assert(data@.skip(j).take(2) =~= seq!['*', '/']);
                    lemma_utf8_len_ascii(seq!['*', '/']);
                    lemma_utf8_len_take_bound(data@, j + 2);
                }
                count + 2
            },
            None => 0,
        };
    }
    0
}

/// Advances `remaining` and `index` past the first `num_bytes` bytes of `remaining`.
pub fn consume<'a>(remaining: &mut &'a str, index: &mut usize, num_bytes: usize)
    requires
        is_char_offset(old(remaining)@, num_bytes as int),
        *old(index) + num_bytes <= usize::MAX,
    ensures
        final(remaining)@ == old(remaining)@.skip(char_pos(old(remaining)@, num_bytes as int)),
        *final(index) == *old(index) + num_bytes,
{
    let ghost k = char_pos(remaining@, num_bytes as int);
    let (_, rest) = split_at_char(*remaining, Ghost(k), num_bytes);
    *remaining = rest;
    *index = *index + num_bytes;
}

/// The source from byte index `index` on.
pub fn get_remaining(data: &str, index: usize) -> (r: &str)
    requires
        is_char_offset(data@, index as int),
    ensures
        r@ == data@.skip(char_pos(data@, index as int)),
{
    let ghost k = char_pos(data@, index as int);
    let (_, rest) = split_at_char(data, Ghost(k), index);
    rest
}

/// The keyword kind for a matched word, if the word is a keyword.
fn keyword_kind<'a>(s: &'a str) -> (r: Option<TokenKind<'a>>)
    ensures
        r == (match keyword_from_chars(s@) {
            Some(k) => Some(TokenKind::Keyword(k)),
            None => None,
        }),
{
    match Keyword::try_from(s) {
        Ok(k) => Some(TokenKind::Keyword(k)),
        Err(_) => None,
    }
}

/// The identifier kind for a matched word.
fn identifier_kind<'a>(s: &'a str) -> (r: Option<TokenKind<'a>>)
    ensures
        r == Some(TokenKind::Identifier(s)),
{
    Some(TokenKind::Identifier(s))
}

/// The constant kind for a matched number.
fn constant_kind<'a>(s: &'a str) -> (r: Option<TokenKind<'a>>)
    ensures
        r == Some(TokenKind::Constant(s)),
{
    Some(TokenKind::Constant(s))
}

/// `t` holds the kind and length `kl`, and, when not empty, starts at byte index `index`.
pub open spec fn holds(t: TokenView, kl: (KindView, nat), index: nat) -> bool {
    &&& t.kind == kl.0
    &&& t.len == kl.1
    &&& t.len > 0 ==> t.index == index
}

/// The character position at which lexing resumes after a step.
pub open spec fn step_end(s: Seq<char>, k: int) -> int {
    match next_step(s, k) {
        Step::End(q) => q,
        Step::Token(_, k2) => k2,
        Step::Error(q) => q,
    }
}

/// `r` is the result that the step from `k` gives.
pub open spec fn is_step_result<'a>(
    s: Seq<char>,
    k: int,
    r: Result<Option<Token<'a>>, LexingError>,
) -> bool {
    match next_step(s, k) {
        Step::End(_) => r matches Ok(None),
        Step::Token(t, _) => r matches Ok(Some(tok)) && tok@ == t,
        Step::Error(q) => r == Err::<Option<Token<'a>>, LexingError>(
            LexingError::NoValidToken { index: utf8_len(s.take(q)) as usize },
        ),
    }
}

/// What `try_update` did with a matcher whose results are prefix matches of length `m`:
/// either the token became the longer one that the kind function made of the matched
/// text, or it stayed as it was, because nothing matched, the match was not longer, or
/// the kind function made nothing of it.
proof fn lemma_try_update_match<'a, S, T>(
    match_fn: S,
    kind_fn: T,
    remaining: &'a str,
    m: Option<nat>,
    index: usize,
    t0: TokenView,
    t1: TokenView,
) where S: Fn(&'a str) -> Option<&'a str>, T: Fn(&'a str) -> Option<TokenKind<'a>>
    requires
        forall|r: Option<&'a str>|
            #[trigger] call_ensures(match_fn, (remaining,), r) ==> is_prefix_match(
                r,
                m,
                remaining@,
            ),
        ({
            ||| exists|ns: &'a str, k: TokenKind<'a>|
                {
                    &&& call_ensures(match_fn, (remaining,), Some(ns))
                    &&& ns.len() > t0.len
                    &&& call_ensures(kind_fn, (ns,), Some(k))
                    &&& t1 == TokenView { kind: k@, len: ns.len() as nat, index: index as nat }
                }
            ||| {
                &&& t1 == t0
                &&& {
                    ||| call_ensures(match_fn, (remaining,), None)
                    ||| exists|ns: &'a str|
                        {
                            &&& call_ensures(match_fn, (remaining,), Some(ns))
                            &&& (ns.len() <= t0.len || call_ensures(kind_fn, (ns,), None))
                        }
                }
            }
        }),
    ensures
        ({
            ||| exists|ns: &'a str, k: TokenKind<'a>|
                {
                    &&& is_prefix_match(Some(ns), m, remaining@)
                    &&& ns.len() > t0.len
                    &&& call_ensures(kind_fn, (ns,), Some(k))
                    &&& t1 == TokenView { kind: k@, len: ns.len() as nat, index: index as nat }
                }
            ||| {
                &&& t1 == t0
                &&& {
                    ||| is_prefix_match(None, m, remaining@)
                    ||| exists|ns: &'a str|
                        {
                            &&& is_prefix_match(Some(ns), m, remaining@)
                            &&& (ns.len() <= t0.len || call_ensures(kind_fn, (ns,), None))
                        }
                }
            }
        }),
{
    if exists|ns: &'a str, k: TokenKind<'a>|
        {
            &&& call_ensures(match_fn, (remaining,), Some(ns))
            &&& ns.len() > t0.len
            &&& call_ensures(kind_fn, (ns,), Some(k))
            &&& t1 == TokenView { kind: k@, len: ns.len() as nat, index: index as nat }
        } {
        let (ns, k) = choose|ns: &'a str, k: TokenKind<'a>|
            {
                &&& call_ensures(match_fn, (remaining,), Some(ns))
                &&& ns.len() > t0.len
                &&& call_ensures(kind_fn, (ns,), Some(k))
                &&& t1 == TokenView { kind: k@, len: ns.len() as nat, index: index as nat }
            };
        assert(is_prefix_match(Some(ns), m, remaining@));
    } else if !call_ensures(match_fn, (remaining,), None) {
        let ns = choose|ns: &'a str|
            {
                &&& call_ensures(match_fn, (remaining,), Some(ns))
                &&& (ns.len() <= t0.len || call_ensures(kind_fn, (ns,), None))
            };
        assert(is_prefix_match(Some(ns), m, remaining@));
    }
}

/// Tries the keyword matcher on `remaining` to update `token`.
fn try_keyword<'a>(token: &mut Token<'a>, remaining: &'a str, index: usize)
    requires
        utf8_len(remaining@) <= usize::MAX,
        holds(old(token)@, (placeholder_kind(), 0nat), index as nat),
    ensures
        holds(final(token)@, after_keyword(remaining@), index as nat),
{
    let ghost h = remaining@;
    let ghost t0 = token@;
    proof {
        lemma_match_lens(h);
        if let Some(n) = keyword_match_len(h) {
            lemma_utf8_len_take_bound(h, n as int);
        }
    }
    token.try_update(remaining, index, match_keyword, keyword_kind);
    proof {
        lemma_try_update_match(
            match_keyword,
            keyword_kind,
            remaining,
            keyword_match_len(h),
            index,
            t0,
            token@,
        );
    }
}

/// Tries the identifier matcher on `remaining` to update `token`.
fn try_identifier<'a>(token: &mut Token<'a>, remaining: &'a str, index: usize)
    requires
        utf8_len(remaining@) <= usize::MAX,
        holds(old(token)@, after_keyword(remaining@), index as nat),
    ensures
        holds(final(token)@, after_identifier(remaining@), index as nat),
{
    let ghost h = remaining@;
    let ghost t0 = token@;
    proof {
        lemma_match_lens(h);
        if let Some(n) = identifier_match_len(h) {
            lemma_utf8_len_take_bound(h, n as int);
        }
    }
    token.try_update(remaining, index, match_identifier, identifier_kind);
    proof {
        lemma_try_update_match(
            match_identifier,
            identifier_kind,
            remaining,
            identifier_match_len(h),
            index,
            t0,
            token@,
        );
    }
}

/// Tries the constant matcher on `remaining` to update `token`.
fn try_constant<'a>(token: &mut Token<'a>, remaining: &'a str, index: usize)
    requires
        utf8_len(remaining@) <= usize::MAX,
        holds(old(token)@, after_identifier(remaining@), index as nat),
    ensures
        holds(final(token)@, after_constant(remaining@), index as nat),
{
    let ghost h = remaining@;
    let ghost t0 = token@;
    proof {
        lemma_match_lens(h);
        if let Some(n) = constant_match_len(h) {
            lemma_utf8_len_take_bound(h, n as int);
        }
    }
    token.try_update(remaining, index, match_constant, constant_kind);
    proof {
        lemma_try_update_match(
            match_constant,
            constant_kind,
            remaining,
            constant_match_len(h),
            index,
            t0,
            token@,
        );
    }
}

/// The longest keyword, identifier or constant at the start of `remaining`, made by
/// trying the three matchers in turn on a placeholder token; empty if none matches.
fn match_word_token<'a>(remaining: &'a str, index: usize) -> (t: Token<'a>)
    requires
        utf8_len(remaining@) <= usize::MAX,
    ensures
        holds(t@, after_constant(remaining@), index as nat),
{
    let mut token = Token::create_placeholder();
    try_keyword(&mut token, remaining, index);
    try_identifier(&mut token, remaining, index);
    try_constant(&mut token, remaining, index);
    token
}

/// The symbol spelled by `c`, trying the symbols in declaration order.
fn match_symbol(c: char) -> (r: Option<Symbol>)
    ensures
        r == symbol_from_char(c),
{
    let symbols = Symbol::iter();
    let mut i: usize = 0;
    while i < symbols.len()
        invariant
            symbols@ == crate::token::all_symbols(),
            i <= symbols.len(),
            forall|j: int| 0 <= j < i ==> symbol_char(#[trigger] symbols@[j]) != c,
        decreases symbols.len() - i,
    {
        let symbol = symbols[i];
        if c == symbol.as_char() {
            return Some(symbol);
        }
        i = i + 1;
    }
    assert(symbol_char(symbols@[0]) != c);
    assert(symbol_char(symbols@[1]) != c);
    assert(symbol_char(symbols@[2]) != c);
    assert(symbol_char(symbols@[3]) != c);
    assert(symbol_char(symbols@[4]) != c);
    None
}

/// Return the next token, moving the index accordingly. Returns [`None`] if done lexing.
/// Returns an error if unable to match token.
pub fn consume_next_token<'a>(data: &'a str, index: &mut usize) -> (r: Result<
    Option<Token<'a>>,
    LexingError,
>)
    requires
        utf8_len(data@) <= usize::MAX,
        is_char_offset(data@, *old(index) as int),
    ensures
        is_step_result(data@, char_pos(data@, *old(index) as int), r),
        is_char_offset(data@, *final(index) as int),
        char_pos(data@, *final(index) as int) == step_end(
            data@,
            char_pos(data@, *old(index) as int),
        ),
        *final(index) == utf8_len(
            data@.take(step_end(data@, char_pos(data@, *old(index) as int))),
        ),
        (r matches Ok(None)) <==> trivia_span(
            data@,
            char_pos(data@, *old(index) as int),
            data@.len() as int,
        ),
{
    let ghost s = data@;
    let ghost k = char_pos(data@, *index as int);
    proof {
        lemma_next_step_trivia(s, k);
        lemma_utf8_len_split(s, k);
        lemma_next_step_advances(s, k);
        lemma_trivia_len(s.skip(k));
        let e = step_end(s, k);
        assert(0 <= e <= s.len());
        lemma_char_pos(s, e);
    }
    let (_, rest) = split_at_char(data, Ghost(k), *index);
    let mut remaining = rest;
    consume_whitespace_comments(&mut remaining, index);
    let ghost q = k + trivia_len(s.skip(k));
    let ghost h = remaining@;
    proof {
        lemma_utf8_len_take_skip(s, k, trivia_len(s.skip(k)) as int);
        lemma_utf8_len_split(s, q);
    }
    if remaining.is_empty() {
        return Ok(None);
    }
    proof {
        lemma_after_constant(h);
        lemma_scan(h);
    }
    let token = match_word_token(remaining, *index);
    if !token.is_empty() {
        let ghost n = after_constant(h).1 as int;
        proof {
            lemma_char_pos(h, n);
            lemma_utf8_len_take_skip(s, q, n);
            lemma_utf8_len_take_bound(s, q + n);
        }
        consume(&mut remaining, index, token.len());
        return Ok(Some(token));
    }
    let first = remaining.get_char(0);
    if let Some(symbol) = match_symbol(first) {
        let symbol_index = *index;
        proof {
            assert((first as u32) < 0x80);
            crate::text::lemma_char_utf8_len_bounds(first);
            lemma_utf8_len_take_step(s, q);
            lemma_utf8_len_take_bound(s, q + 1);
        }
        *index += 1;
        return Ok(Some(Token::new(TokenKind::Symbol(symbol), symbol_index)));
    }
    Err(LexingError::NoValidToken { index: *index })
}

/// The tokens `ts` followed by the outcome `rest`.
pub open spec fn lex_append(ts: Seq<TokenView>, rest: LexView) -> LexView {
    match rest {
        LexView::Tokens(more) => LexView::Tokens(ts + more),
        other => other,
    }
}

/// `r` is the result that the outcome `v` describes.
pub open spec fn is_lex_result<'a>(v: LexView, r: Result<Vec<Token<'a>>, LexingError>) -> bool {
    match v {
        LexView::Tokens(ts) => r matches Ok(tokens) && tokens@.map_values(|t: Token<'a>| t@) == ts,
        LexView::Error(i) => r == Err::<Vec<Token<'a>>, LexingError>(
            LexingError::NoValidToken { index: i as usize },
        ),
    }
}

/// Lex a string of valid C code into a list of [`Token`]s.
pub fn lex<'a>(data: &'a str) -> (r: Result<Vec<Token<'a>>, LexingError>)
    requires
        utf8_len(data@) <= usize::MAX,
    ensures
        is_lex_result(lex_from(data@, 0), r),
{
    let ghost s = data@;
    let mut tokens: Vec<Token<'a>> = Vec::new();
    let mut index: usize = 0;
    let ghost mut k: int = 0;
    proof {
        assert(s.take(0) =~= Seq::<char>::empty());
        assert(utf8_len(Seq::<char>::empty()) == 0);
        lemma_char_pos(s, 0);
        assert(tokens@.map_values(|t: Token<'a>| t@) =~= Seq::<TokenView>::empty());
        assert(lex_append(Seq::empty(), lex_from(s, 0)) =~~= lex_from(s, 0));
    }
    loop
        invariant
            s == data@,
            utf8_len(s) <= usize::MAX,
            0 <= k <= s.len(),
            is_char_offset(s, index as int),
            char_pos(s, index as int) == k,
            lex_append(tokens@.map_values(|t: Token<'a>| t@), lex_from(s, k)) == lex_from(s, 0),
        decreases s.len() - k,
    {
        proof {
            lemma_next_step_advances(s, k);
        }
        let step = consume_next_token(data, &mut index);
        match step {
            Ok(Some(token)) => {
                let ghost before = tokens@.map_values(|t: Token<'a>| t@);
                tokens.push(token);
                proof {
                    let t = token@;
                    assert(tokens@.map_values(|t: Token<'a>| t@) =~= before.push(t));
                    let k2 = step_end(s, k);
                    match lex_from(s, k2) {
                        LexView::Tokens(more) => {
                            assert(before + (seq![t] + more) =~= before.push(t) + more);
                        },
                        _ => {},
                    }
                    k = k2;
                }
            },
            Ok(None) => {
                proof {
                    assert(tokens@.map_values(|t: Token<'a>| t@) + Seq::<TokenView>::empty()
                        =~= tokens@.map_values(|t: Token<'a>| t@));
                }
                return Ok(tokens);
            },
            Err(e) => {
                return Err(e);
            },
        }
    }
}

} // verus!
