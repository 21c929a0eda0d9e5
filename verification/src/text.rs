//! Facts about UTF-8 text: byte lengths of character sequences, character
//! classes used by the lexer, and safe slicing of `str` at character positions.

use vstd::prelude::*;
use vstd::utf8::*;
use vstd::string::StringSliceAdditionalSpecFns;
use vstd::string::StringExecFns;

verus! {

broadcast use vstd::utf8::encode_utf8_valid_utf8, vstd::utf8::encode_utf8_decode_utf8,
    vstd::utf8::char_is_scalar;

/// Number of bytes in the UTF-8 encoding of a character sequence.
pub open spec fn utf8_len(s: Seq<char>) -> nat {
    encode_utf8(s).len()
}

/// Number of bytes in the UTF-8 encoding of one character.
pub open spec fn char_utf8_len(c: char) -> nat {
    encode_scalar(c as u32).len()
}

/// The encoding of a concatenation is the concatenation of the encodings.
pub proof fn lemma_encode_utf8_concat(a: Seq<char>, b: Seq<char>)
    ensures
        encode_utf8(a + b) == encode_utf8(a) + encode_utf8(b),
    decreases a.len(),
{
    if a.len() == 0 {
        assert(a + b =~= b);
        assert(encode_utf8(a) + encode_utf8(b) =~= encode_utf8(b));
    } else {
        lemma_encode_utf8_concat(a.drop_first(), b);
        assert((a + b).drop_first() =~= a.drop_first() + b);
        assert((a + b)[0] == a[0]);
        assert(encode_utf8(a + b) =~= encode_scalar(a[0] as u32) + (encode_utf8(a.drop_first())
            + encode_utf8(b)));
    }
}

/// Byte length of a single character is between one and four.
pub proof fn lemma_char_utf8_len_bounds(c: char)
    ensures
        1 <= char_utf8_len(c) <= 4,
        char_utf8_len(c) == 1 <==> (c as u32) < 0x80,
{
}

/// Byte length of a sequence with one more character.
pub proof fn lemma_utf8_len_push(s: Seq<char>, c: char)
    ensures
        utf8_len(s.push(c)) == utf8_len(s) + char_utf8_len(c),
{
    lemma_encode_utf8_concat(s, seq![c]);
    assert(s.push(c) =~= s + seq![c]);
    assert(seq![c].drop_first() =~= Seq::<char>::empty());
    assert(encode_utf8(Seq::<char>::empty()) =~= Seq::<u8>::empty());
}

/// Byte length of a prefix grows by the width of the next character.
pub proof fn lemma_utf8_len_take_step(s: Seq<char>, k: int)
    requires
        0 <= k < s.len(),
    ensures
        utf8_len(s.take(k + 1)) == utf8_len(s.take(k)) + char_utf8_len(s[k]),
{
    assert(s.take(k + 1) =~= s.take(k).push(s[k]));
    lemma_utf8_len_push(s.take(k), s[k]);
}

/// Byte length splits at any character position.
pub proof fn lemma_utf8_len_split(s: Seq<char>, k: int)
    requires
        0 <= k <= s.len(),
    ensures
        utf8_len(s) == utf8_len(s.take(k)) + utf8_len(s.skip(k)),
        encode_utf8(s) == encode_utf8(s.take(k)) + encode_utf8(s.skip(k)),
{
    assert(s =~= s.take(k) + s.skip(k));
    lemma_encode_utf8_concat(s.take(k), s.skip(k));
}

/// Byte length of a sequence whose characters are all ASCII is its length.
pub proof fn lemma_utf8_len_ascii(s: Seq<char>)
    requires
        forall|i: int| 0 <= i < s.len() ==> (s[i] as u32) < 0x80,
    ensures
        utf8_len(s) == s.len(),
    decreases s.len(),
{
    if s.len() > 0 {
        lemma_utf8_len_ascii(s.drop_last());
        assert(s =~= s.drop_last().push(s.last()));
        lemma_utf8_len_push(s.drop_last(), s.last());
    }
}

/// The byte offset of a character position is a character boundary.
pub proof fn lemma_char_boundary(a: Seq<char>, b: Seq<char>)
    ensures
        is_char_boundary(encode_utf8(a + b), utf8_len(a) as int),
    decreases a.len(),
{
    if a.len() > 0 {
        let s = a + b;
        let bytes = encode_utf8(s);
        encode_utf8_first_scalar(s);
        assert(s.drop_first() =~= a.drop_first() + b);
        assert(s[0] == a[0]);
        assert(pop_first_scalar(bytes) =~= encode_utf8(a.drop_first() + b));
        lemma_char_boundary(a.drop_first(), b);
        lemma_encode_utf8_concat(a, b);
        assert(bytes.len() >= utf8_len(a));
    }
}

/// Splits `s` at character position `k`, whose byte offset is `byte`.
pub fn split_at_char<'a>(s: &'a str, Ghost(k): Ghost<int>, byte: usize) -> (r: (&'a str, &'a str))
    requires
        0 <= k <= s@.len(),
        byte == utf8_len(s@.take(k)),
    ensures
        r.0@ == s@.take(k),
        r.1@ == s@.skip(k),
{
    proof {
        lemma_utf8_len_split(s@, k);
        assert(s@ =~= s@.take(k) + s@.skip(k));
        lemma_char_boundary(s@.take(k), s@.skip(k));
    }
    let r = s.split_at(byte);
    proof {
        assert(r.0.spec_bytes() =~= encode_utf8(s@.take(k)));
        assert(r.1.spec_bytes() =~= encode_utf8(s@.skip(k)));
        assert(decode_utf8(encode_utf8(r.0@)) == r.0@);
        assert(decode_utf8(encode_utf8(r.1@)) == r.1@);
    }
    r
}

/// Number of bytes that encode `c`.
pub fn char_utf8_width(c: char) -> (n: usize)
    ensures
        n == char_utf8_len(c),
        1 <= n <= 4,
{
    let u = c as u32;
    if u <= 0x7f {
        1
    } else if u <= 0x7ff {
        2
    } else if u <= 0xffff {
        3
    } else {
        4
    }
}


/// `c` is an ASCII letter.
pub open spec fn is_ascii_alpha(c: char) -> bool {
    ('a' <= c && c <= 'z') || ('A' <= c && c <= 'Z')
}

/// `c` is an ASCII decimal digit.
pub open spec fn is_ascii_digit(c: char) -> bool {
    '0' <= c && c <= '9'
}

/// `c` is an ASCII word character: a letter, a digit or `_`.
pub open spec fn is_word_char(c: char) -> bool {
    is_ascii_alpha(c) || is_ascii_digit(c) || c == '_'
}

/// `c` has the Unicode `White_Space` property.
pub open spec fn is_unicode_whitespace(c: char) -> bool {
    let u = c as u32;
    ||| (0x09 <= u && u <= 0x0D)
    ||| u == 0x20
    ||| u == 0x85
    ||| u == 0xA0
    ||| u == 0x1680
    ||| (0x2000 <= u && u <= 0x200A)
    ||| u == 0x2028
    ||| u == 0x2029
    ||| u == 0x202F
    ||| u == 0x205F
    ||| u == 0x3000
}

/// Whether `c` is an ASCII letter.
pub fn char_is_ascii_alpha(c: char) -> (r: bool)
    ensures
        r == is_ascii_alpha(c),
{
    ('a' <= c && c <= 'z') || ('A' <= c && c <= 'Z')
}

/// Whether `c` is an ASCII decimal digit.
pub fn char_is_ascii_digit(c: char) -> (r: bool)
    ensures
        r == is_ascii_digit(c),
{
    '0' <= c && c <= '9'
}

/// Whether `c` is an ASCII word character.
pub fn char_is_word(c: char) -> (r: bool)
    ensures
        r == is_word_char(c),
{
    char_is_ascii_alpha(c) || char_is_ascii_digit(c) || c == '_'
}

/// Whether `c` has the Unicode `White_Space` property.
pub fn char_is_whitespace(c: char) -> (r: bool)
    ensures
        r == is_unicode_whitespace(c),
{
    let u = c as u32;
    (0x09 <= u && u <= 0x0D) || u == 0x20 || u == 0x85 || u == 0xA0 || u == 0x1680 || (0x2000
        <= u && u <= 0x200A) || u == 0x2028 || u == 0x2029 || u == 0x202F || u == 0x205F || u
        == 0x3000
}

/// Whether two strings hold the same characters.
pub fn str_eq(a: &str, b: &str) -> (r: bool)
    ensures
        r == (a@ == b@),
{
    let va = str_chars(a);
    let vb = str_chars(b);
    if va.len() != vb.len() {
        return false;
    }
    let mut i: usize = 0;
    while i < va.len()
        invariant
            va@ == a@,
            vb@ == b@,
            va.len() == vb.len(),
            i <= va.len(),
            forall|j: int| 0 <= j < i ==> va@[j] == vb@[j],
        decreases va.len() - i,
    {
        if va[i] != vb[i] {
            return false;
        }
        i = i + 1;
    }
    assert(a@ =~= b@);
    true
}

/// Whether the characters of `pattern` start the sequence `s` at position `k`.
pub open spec fn occurs_at(s: Seq<char>, pattern: Seq<char>, k: int) -> bool {
    0 <= k && k + pattern.len() <= s.len() && s.subrange(k, k + pattern.len()) == pattern
}

/// Whether `pattern` occurs in `s` at position `k`; `s` is given by its characters.
pub fn chars_occur_at(s: &Vec<char>, pattern: &Vec<char>, k: usize) -> (r: bool)
    requires
        k <= s.len(),
    ensures
        r == occurs_at(s@, pattern@, k as int),
{
    if pattern.len() > s.len() - k {
        return false;
    }
    let mut i: usize = 0;
    while i < pattern.len()
        invariant
            k + pattern.len() <= s.len(),
            i <= pattern.len(),
            forall|j: int| 0 <= j < i ==> s@[k + j] == pattern@[j],
        decreases pattern.len() - i,
    {
        if s[k + i] != pattern[i] {
            assert(s@.subrange(k as int, k + pattern.len())[i as int] != pattern@[i as int]);
            return false;
        }
        i = i + 1;
    }
    assert(s@.subrange(k as int, k + pattern.len()) =~= pattern@);
    true
}

/// Whether `s` begins with `pattern`.
pub fn str_starts_with(s: &str, pattern: &str) -> (r: bool)
    ensures
        r == occurs_at(s@, pattern@, 0),
{
    broadcast use vstd::string::group_string_axioms;

    let mut si = s.chars();
    let mut pi = pattern.chars();
    let ghost mut n: int = 0;
    loop
        invariant
            0 <= n <= pattern@.len(),
            n <= s@.len(),
            vstd::std_specs::iter::IteratorSpec::remaining(&si) == s@.skip(n),
            vstd::std_specs::iter::IteratorSpec::remaining(&pi) == pattern@.skip(n),
            s@.take(n) == pattern@.take(n),
        decreases pattern@.len() - n,
    {
        match pi.next() {
            None => {
                assert(pattern@.take(n) =~= pattern@);
                assert(s@.subrange(0, pattern@.len() as int) =~= s@.take(n));
                return true;
            },
            Some(pc) => {
                match si.next() {
                    None => {
                        return false;
                    },
                    Some(sc) => {
                        if sc != pc {
                            assert(s@[n] != pattern@[n]);
                            assert(pattern@.len() <= s@.len() ==> s@.subrange(
                                0,
                                pattern@.len() as int,
                            )[n] != pattern@[n]);
                            return false;
                        }
                        proof {
                            assert(s@.take(n + 1) =~= s@.take(n).push(sc));
                            assert(pattern@.take(n + 1) =~= pattern@.take(n).push(pc));
                            n = n + 1;
                        }
                    },
                }
            },
        }
    }
}

/// The character of a decimal digit.
pub open spec fn digit_char(d: nat) -> char {
    if d == 0 {
        '0'
    } else if d == 1 {
        '1'
    } else if d == 2 {
        '2'
    } else if d == 3 {
        '3'
    } else if d == 4 {
        '4'
    } else if d == 5 {
        '5'
    } else if d == 6 {
        '6'
    } else if d == 7 {
        '7'
    } else if d == 8 {
        '8'
    } else {
        '9'
    }
}

/// The decimal numeral of `n`, without leading zeros.
pub open spec fn decimal(n: nat) -> Seq<char>
    decreases n,
{
    if n < 10 {
        seq![digit_char(n)]
    } else {
        decimal(n / 10).push(digit_char(n % 10))
    }
}

/// The decimal numeral of an integer, with a leading `-` when it is negative.
pub open spec fn signed_decimal(i: int) -> Seq<char> {
    if i < 0 {
        seq!['-'] + decimal((-i) as nat)
    } else {
        decimal(i as nat)
    }
}

fn digit_str(d: u128) -> (s: &'static str)
    requires
        d < 10,
    ensures
        s@ == seq![digit_char(d as nat)],
{
    if d == 0 {
        proof { reveal_strlit("0"); }
        "0"
    } else if d == 1 {
        proof { reveal_strlit("1"); }
        "1"
    } else if d == 2 {
        proof { reveal_strlit("2"); }
        "2"
    } else if d == 3 {
        proof { reveal_strlit("3"); }
        "3"
    } else if d == 4 {
        proof { reveal_strlit("4"); }
        "4"
    } else if d == 5 {
        proof { reveal_strlit("5"); }
        "5"
    } else if d == 6 {
        proof { reveal_strlit("6"); }
        "6"
    } else if d == 7 {
        proof { reveal_strlit("7"); }
        "7"
    } else if d == 8 {
        proof { reveal_strlit("8"); }
        "8"
    } else {
        proof { reveal_strlit("9"); }
        "9"
    }
}

/// Appends the decimal numeral of `n` to `out`.
pub fn push_decimal(out: &mut String, n: u128)
    ensures
        final(out)@ == old(out)@ + decimal(n as nat),
    decreases n,
{
    if n >= 10 {
        push_decimal(out, n / 10);
    }
    let ghost mid = out@;
    out.append(digit_str(n % 10));
    proof {
        if n >= 10 {
            assert(out@ =~= old(out)@ + decimal(n as nat));
        } else {
            assert(out@ =~= old(out)@ + decimal(n as nat));
        }
    }
}

/// Appends the decimal numeral of `i`, with a leading `-` when negative, to `out`.
pub fn push_signed_decimal(out: &mut String, i: i128)
    requires
        i > i128::MIN,
    ensures
        final(out)@ == old(out)@ + signed_decimal(i as int),
{
    if i < 0 {
        proof { reveal_strlit("-"); }
        out.append("-");
        push_decimal(out, (-i) as u128);
        assert(out@ =~= old(out)@ + signed_decimal(i as int));
    } else {
        push_decimal(out, i as u128);
    }
}


/// The position at which the run of characters satisfying `p` that begins at
/// position `k` of `s` ends.
pub open spec fn run_end(s: Seq<char>, k: int, p: spec_fn(char) -> bool) -> int
    decreases s.len() - k,
{
    if 0 <= k < s.len() && p(s[k]) {
        run_end(s, k + 1, p)
    } else {
        k
    }
}

/// The run that begins at `k` ends at the first position from `k` on whose
/// character fails `p`, or at the end of `s`.
pub proof fn lemma_run_end(s: Seq<char>, k: int, p: spec_fn(char) -> bool)
    requires
        0 <= k <= s.len(),
    ensures
        k <= run_end(s, k, p) <= s.len(),
        forall|i: int| k <= i < run_end(s, k, p) ==> p(#[trigger] s[i]),
        run_end(s, k, p) < s.len() ==> !p(s[run_end(s, k, p)]),
    decreases s.len() - k,
{
    if k < s.len() && p(s[k]) {
        lemma_run_end(s, k + 1, p);
    }
}

/// A run is determined by where its characters stop satisfying `p`.
pub proof fn lemma_run_end_unique(s: Seq<char>, k: int, n: int, p: spec_fn(char) -> bool)
    requires
        0 <= k <= n <= s.len(),
        forall|i: int| k <= i < n ==> p(#[trigger] s[i]),
        n < s.len() ==> !p(s[n]),
    ensures
        run_end(s, k, p) == n,
    decreases n - k,
{
    if k < n {
        lemma_run_end_unique(s, k + 1, n, p);
    }
}

/// `b` is the byte offset of a character position of `s`.
pub open spec fn is_char_offset(s: Seq<char>, b: int) -> bool {
    exists|k: int| 0 <= k <= s.len() && utf8_len(s.take(k)) == b
}

/// The character position of `s` whose byte offset is `b`.
pub open spec fn char_pos(s: Seq<char>, b: int) -> int {
    choose|k: int| 0 <= k <= s.len() && utf8_len(s.take(k)) == b
}

/// Byte offsets grow strictly with character positions.
pub proof fn lemma_utf8_len_take_monotone(s: Seq<char>, j: int, k: int)
    requires
        0 <= j <= k <= s.len(),
    ensures
        utf8_len(s.take(j)) + (k - j) <= utf8_len(s.take(k)),
    decreases k - j,
{
    if j < k {
        lemma_utf8_len_take_monotone(s, j, k - 1);
        lemma_utf8_len_take_step(s, k - 1);
        lemma_char_utf8_len_bounds(s[k - 1]);
    }
}

/// The character position of a byte offset is unique.
pub proof fn lemma_char_pos(s: Seq<char>, k: int)
    requires
        0 <= k <= s.len(),
    ensures
        is_char_offset(s, utf8_len(s.take(k)) as int),
        char_pos(s, utf8_len(s.take(k)) as int) == k,
{
    let b = utf8_len(s.take(k)) as int;
    assert(0 <= k <= s.len() && utf8_len(s.take(k)) == b);
    let j = char_pos(s, b);
    if j < k {
        lemma_utf8_len_take_monotone(s, j, k);
    } else if k < j {
        lemma_utf8_len_take_monotone(s, k, j);
    }
}

/// The byte offset of a character position is at most the byte length of the whole sequence.
pub proof fn lemma_utf8_len_take_bound(s: Seq<char>, k: int)
    requires
        0 <= k <= s.len(),
    ensures
        utf8_len(s.take(k)) <= utf8_len(s),
{
    lemma_utf8_len_split(s, k);
}

/// Byte offsets within a suffix add to the offset of the suffix.
pub proof fn lemma_utf8_len_take_skip(s: Seq<char>, k: int, j: int)
    requires
        0 <= k <= s.len(),
        0 <= j <= s.len() - k,
    ensures
        utf8_len(s.take(k + j)) == utf8_len(s.take(k)) + utf8_len(s.skip(k).take(j)),
        s.skip(k).skip(j) == s.skip(k + j),
{
    let t = s.take(k + j);
    lemma_utf8_len_split(t, k);
    assert(t.take(k) =~= s.take(k));
    assert(t.skip(k) =~= s.skip(k).take(j));
    assert(s.skip(k).skip(j) =~= s.skip(k + j));
}

/// The characters of `s`, in order.
pub fn str_chars(s: &str) -> (v: Vec<char>)
    ensures
        v@ == s@,
{
    broadcast use vstd::string::group_string_axioms;

    let mut v: Vec<char> = Vec::new();
    let mut it = s.chars();
    loop
        invariant
            v.len() <= s@.len(),
            vstd::std_specs::iter::IteratorSpec::remaining(&it) == s@.skip(v.len() as int),
            v@ == s@.take(v.len() as int),
        decreases s@.len() - v.len(),
    {
        match it.next() {
            Some(c) => {
                v.push(c);
            },
            None => {
                assert(s@.skip(v.len() as int).len() == 0);
                assert(v@ =~= s@);
                return v;
            },
        }
    }
}

} // verus!
