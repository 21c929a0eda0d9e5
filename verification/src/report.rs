//! Where in the source an error lies, for reporting it.

use crate::text::{char_pos, is_char_offset, split_at_char, str_chars, utf8_len};
use vstd::prelude::*;

verus! {

/// The number of newlines in `s`.
pub open spec fn newline_count(s: Seq<char>) -> nat
    decreases s.len(),
{
    if s.len() == 0 {
        0
    } else {
        newline_count(s.drop_last()) + if s.last() == '\n' {
            1nat
        } else {
            0nat
        }
    }
}

/// The position at which the last line of `s` starts: just after its last newline.
pub open spec fn last_line_start(s: Seq<char>) -> int
    decreases s.len(),
{
    if s.len() == 0 {
        0
    } else if s.last() == '\n' {
        s.len() as int
    } else {
        last_line_start(s.drop_last())
    }
}

/// The position at which the first line of `s` ends: at its first newline.
pub open spec fn first_line_end(s: Seq<char>) -> int
    decreases s.len(),
{
    if s.len() == 0 {
        0
    } else if s[0] == '\n' {
        0
    } else {
        1 + first_line_end(s.drop_first())
    }
}

/// The newlines of `s`, in order.
pub open spec fn newlines(s: Seq<char>) -> Seq<char> {
    s.filter(|c: char| c == '\n')
}

/// The newline count is the number of newline characters, and the last line holds no
/// newline and starts at the start or just after a newline.
pub proof fn lemma_last_line_laws(s: Seq<char>)
    ensures
        newline_count(s) == newlines(s).len(),
        0 <= last_line_start(s) <= s.len(),
        forall|i: int| last_line_start(s) <= i < s.len() ==> s[i] != '\n',
        last_line_start(s) == 0 || s[last_line_start(s) - 1] == '\n',
    decreases s.len(),
{
    reveal_with_fuel(Seq::filter, 2);
    if s.len() > 0 {
        lemma_last_line_laws(s.drop_last());
        if s.last() == '\n' {
            assert(newlines(s) == newlines(s.drop_last()).push(s.last()));
        } else {
            assert(newlines(s) == newlines(s.drop_last()));
        }
        assert forall|i: int| last_line_start(s) <= i < s.len() implies s[i] != '\n' by {
            if s.last() != '\n' && i < s.len() - 1 {
                assert(s[i] == s.drop_last()[i]);
            }
        }
        if s.last() != '\n' && last_line_start(s) > 0 {
            assert(s[last_line_start(s) - 1] == s.drop_last()[last_line_start(s) - 1]);
        }
    }
}

/// The first line holds no newline and ends at the end or at a newline.
pub proof fn lemma_first_line_laws(s: Seq<char>)
    ensures
        0 <= first_line_end(s) <= s.len(),
        forall|i: int| 0 <= i < first_line_end(s) ==> s[i] != '\n',
        first_line_end(s) == s.len() || s[first_line_end(s)] == '\n',
    decreases s.len(),
{
    if s.len() > 0 && s[0] != '\n' {
        lemma_first_line_laws(s.drop_first());
        assert forall|i: int| 0 <= i < first_line_end(s) implies s[i] != '\n' by {
            if i > 0 {
                assert(s[i] == s.drop_first()[i - 1]);
            }
        }
        if first_line_end(s) < s.len() {
            assert(s[first_line_end(s)] == s.drop_first()[first_line_end(s) - 1]);
        }
    }
}

/// The line and column of a byte index in the source, and the text of its line.
#[derive(Clone, Debug)]
pub struct ErrorLocation<'a> {
    /// The number of the line, counting from 0.
    pub line_index: usize,
    /// The byte offset within the line, counting from 0.
    pub col_index: usize,
    /// The part of the line before the index.
    pub consumed_line: &'a str,
    /// The part of the line from the index on.
    pub remaining_line: &'a str,
}

proof fn lemma_last_line_start(s: Seq<char>)
    ensures
        0 <= last_line_start(s) <= s.len(),
    decreases s.len(),
{
    if s.len() > 0 {
        lemma_last_line_start(s.drop_last());
    }
}

proof fn lemma_first_line_end(s: Seq<char>)
    ensures
        0 <= first_line_end(s) <= s.len(),
    decreases s.len(),
{
    if s.len() > 0 {
        lemma_first_line_end(s.drop_first());
    }
}

/// Locates the byte index `index` of `input_data`: the line it lies on, counting
/// newlines before it, its column, and the text of its line on either side of it.
pub fn error_location<'a>(input_data: &'a str, index: usize) -> (loc: ErrorLocation<'a>)
    requires
        is_char_offset(input_data@, index as int),
        utf8_len(input_data@) <= usize::MAX,
    ensures
        ({
            let s = input_data@;
            let k = char_pos(s, index as int);
            let before = s.take(k);
            let after = s.skip(k);
            &&& loc.line_index == newline_count(before)
            &&& loc.consumed_line@ == before.skip(last_line_start(before))
            &&& loc.col_index == utf8_len(loc.consumed_line@)
            &&& loc.remaining_line@ == after.take(first_line_end(after))
        }),
        ({
            let s = input_data@;
            let k = char_pos(s, index as int);
            let before = s.take(k);
            let after = s.skip(k);
            let c = loc.consumed_line@;
            let r = loc.remaining_line@;
            &&& loc.line_index == newlines(before).len()
            &&& c.len() <= before.len()
            &&& before.skip(before.len() - c.len()) == c
            &&& forall|i: int| 0 <= i < c.len() ==> c[i] != '\n'
            &&& (c.len() == before.len() || before[before.len() - c.len() - 1] == '\n')
            &&& r.len() <= after.len()
            &&& after.take(r.len() as int) == r
            &&& forall|i: int| 0 <= i < r.len() ==> r[i] != '\n'
            &&& (r.len() == after.len() || after[r.len() as int] == '\n')
        }),
{
    let ghost s = input_data@;
    let ghost k = char_pos(s, index as int);
    proof {
        crate::text::lemma_utf8_len_split(s, k);
    }
    let (before, after) = split_at_char(input_data, Ghost(k), index);
    let bv = str_chars(before);
    let mut i: usize = 0;
    let mut count: usize = 0;
    let mut start: usize = 0;
    let mut start_byte: usize = 0;
    let mut byte: usize = 0;
    proof {
        assert(bv@.take(0) =~= Seq::<char>::empty());
        assert(utf8_len(Seq::<char>::empty()) == 0);
    }
    while i < bv.len()
        invariant
            bv@ == before@,
            utf8_len(before@) <= usize::MAX,
            i <= bv.len(),
            count == newline_count(bv@.take(i as int)),
            count <= i,
            start == last_line_start(bv@.take(i as int)),
            start <= i,
            byte == utf8_len(bv@.take(i as int)),
            start_byte == utf8_len(bv@.take(start as int)),
        decreases bv.len() - i,
    {
        let c = bv[i];
        proof {
            assert(bv@.take(i + 1).drop_last() =~= bv@.take(i as int));
            assert(bv@.take(i + 1).last() == c);
            crate::text::lemma_utf8_len_take_step(bv@, i as int);
            crate::text::lemma_utf8_len_take_bound(bv@, i + 1);
        }
        byte = byte + crate::text::char_utf8_width(c);
        i = i + 1;
        if c == '\n' {
            count = count + 1;
            start = i;
            start_byte = byte;
        }
    }
    proof {
        assert(bv@.take(i as int) =~= bv@);
        crate::text::lemma_char_pos(before@, start as int);
        crate::text::lemma_utf8_len_split(before@, start as int);
    }
    let (_, consumed_line) = split_at_char(before, Ghost(start as int), start_byte);
    let av = str_chars(after);
    let mut j: usize = 0;
    let mut end_byte: usize = 0;
    proof {
        assert(av@.skip(0) =~= av@);
        assert(av@.take(0) =~= Seq::<char>::empty());
        crate::text::lemma_utf8_len_split(s, k);
    }
    while j < av.len() && av[j] != '\n'
        invariant
            av@ == after@,
            utf8_len(after@) <= usize::MAX,
            j <= av.len(),
            first_line_end(av@) == j + first_line_end(av@.skip(j as int)),
            end_byte == utf8_len(av@.take(j as int)),
        decreases av.len() - j,
    {
        proof {
            assert(av@.skip(j as int).drop_first() =~= av@.skip(j + 1));
            crate::text::lemma_utf8_len_take_step(av@, j as int);
            crate::text::lemma_utf8_len_take_bound(av@, j + 1);
        }
        end_byte = end_byte + crate::text::char_utf8_width(av[j]);
        j = j + 1;
    }
    proof {
        assert(first_line_end(av@.skip(j as int)) == 0);
        crate::text::lemma_utf8_len_split(after@, j as int);
    }
    let (remaining_line, _) = split_at_char(after, Ghost(j as int), end_byte);
    proof {
        crate::text::lemma_utf8_len_split(before@, start as int);
        lemma_last_line_laws(before@);
        lemma_first_line_laws(after@);
        let b = before@;
        let c = consumed_line@;
        assert forall|x: int| 0 <= x < c.len() implies c[x] != '\n' by {
            assert(c[x] == b[start + x]);
        }
        let r = remaining_line@;
        assert forall|x: int| 0 <= x < r.len() implies r[x] != '\n' by {
            assert(r[x] == after@[x]);
        }
    }
    ErrorLocation {
        line_index: count,
        col_index: byte - start_byte,
        consumed_line,
        remaining_line,
    }
}

} // verus!
