//! Responsible for consuming and tracking position within the preprocessed C source.

use crate::compiler::lexer::{
    byte_offset, comment_len, count_comment, count_to, count_whitespace, find_from,
    lemma_comment_len, lemma_trivia_len_exact, lemma_trivia_span_skip, trivia_len,
    trivia_span, whitespace_end,
};
use crate::text::{
    char_pos, char_utf8_width, is_char_offset, is_unicode_whitespace, lemma_char_pos,
    lemma_run_end, lemma_utf8_len_split, lemma_utf8_len_take_bound, lemma_utf8_len_take_skip,
    lemma_utf8_len_take_step, split_at_char, utf8_len,
};
use vstd::prelude::*;

verus! {

/// The number of characters `advance(n)` moves over in the text `h`: `n`, but no
/// further than the end.
pub open spec fn advance_len(h: Seq<char>, n: nat) -> nat {
    if n <= h.len() {
        n
    } else {
        h.len()
    }
}

/// Consumes source code whilst tracking position.
#[derive(Debug)]
pub struct SourceStream<'a> {
    source: &'a str,
    position: usize,
}

impl<'a> SourceStream<'a> {
    /// The stream always stands at a character boundary of a source whose byte length
    /// fits in `usize`.
    #[verifier::type_invariant]
    closed spec fn inv(self) -> bool {
        &&& utf8_len(self.source@) <= usize::MAX
        &&& is_char_offset(self.source@, self.position as int)
    }

    /// The characters of the source.
    pub closed spec fn source(&self) -> Seq<char> {
        self.source@
    }

    /// The character position of the stream within the source.
    pub closed spec fn char_position(&self) -> int {
        char_pos(self.source@, self.position as int)
    }

    /// The byte index of the stream within the source.
    pub closed spec fn byte_position(&self) -> nat {
        self.position as nat
    }

    /// Create a new [`SourceStream`].
    pub fn new(source: &'a str) -> (ss: Self)
        requires
            utf8_len(source@) <= usize::MAX,
        ensures
            ss.source() == source@,
            ss.char_position() == 0,
            ss.byte_position() == 0,
    {
        proof {
            assert(source@.take(0) =~= Seq::<char>::empty());
            assert(utf8_len(Seq::<char>::empty()) == 0);
            lemma_char_pos(source@, 0);
        }
        Self { source, position: 0 }
    }

    /// Get the current byte index within the source.
    pub fn position(&self) -> (p: usize)
        ensures
            p == self.byte_position(),
            0 <= self.char_position() <= self.source().len(),
            p == utf8_len(self.source().take(self.char_position())),
    {
        proof {
            use_type_invariant(self);
        }
        self.position
    }

    /// Return true if the end of the source has been reached.
    pub fn is_at_end(&self) -> (b: bool)
        ensures
            b == (self.char_position() == self.source().len()),
    {
        proof {
            use_type_invariant(self);
            let k = self.char_position();
            lemma_utf8_len_split(self.source@, k);
            crate::text::lemma_utf8_len_take_monotone(self.source@, k, self.source@.len() as int);
            assert(self.source@.take(self.source@.len() as int) =~= self.source@);
        }
        self.position >= self.source.len()
    }

    /// Get the remaining unprocessed source. Return the empty string if the end of the source has
    /// been reached.
    pub fn remaining(&self) -> (r: &'a str)
        ensures
            r@ == self.source().skip(self.char_position()),
    {
        proof {
            use_type_invariant(self);
        }
        if self.is_at_end() {
            proof {
                reveal_strlit("");
                assert(""@ =~= self.source@.skip(self.char_position()));
            }
            return "";
        }
        let (_, rest) = split_at_char(self.source, Ghost(self.char_position()), self.position);
        rest
    }

    /// Advance the position by the given number of chars. Will not advance the position past the
    /// end of the source.
    pub fn advance(&mut self, chars: usize)
        ensures
            final(self).source() == old(self).source(),
            final(self).char_position() == old(self).char_position() + advance_len(
                old(self).source().skip(old(self).char_position()),
                chars as nat,
            ),
    {
        proof {
            use_type_invariant(&*self);
        }
        let ghost s = self.source@;
        let ghost k0 = self.char_position();
        let mut rest = self.remaining();
        let mut n: usize = 0;
        while n < chars && !rest.is_empty()
            invariant
                s == self.source@,
                utf8_len(s) <= usize::MAX,
                0 <= k0,
                k0 + n <= s.len(),
                n <= chars,
                rest@ == s.skip(k0 + n),
                self.position == utf8_len(s.take(k0 + n)),
            decreases chars - n,
        {
            let c = rest.get_char(0);
            let w = char_utf8_width(c);
            proof {
                lemma_utf8_len_take_step(s, k0 + n);
                lemma_utf8_len_take_bound(s, k0 + n + 1);
                lemma_char_pos(s, k0 + n + 1);
                assert(utf8_len(rest@.take(1)) == w) by {
                    lemma_utf8_len_take_step(rest@, 0);
                    assert(rest@.take(0) =~= Seq::<char>::empty());
                    assert(utf8_len(Seq::<char>::empty()) == 0);
                }
            }
            let (_, tail) = split_at_char(rest, Ghost(1), w);
            rest = tail;
            self.position = self.position + w;
            n = n + 1;
        }
        proof {
            lemma_char_pos(s, k0 + n);
        }
    }

    /// Count whitespace bytes from the current position.
    fn count_whitespace(&self) -> (r: usize)
        ensures
            r == utf8_len(
                self.source().skip(self.char_position()).take(
                    whitespace_end(self.source().skip(self.char_position()), 0),
                ),
            ),
    {
        proof {
            use_type_invariant(self);
            lemma_utf8_len_split(self.source@, self.char_position());
        }
        count_whitespace(self.remaining())
    }

    /// Count bytes in a comment from the current position. Return 0 if not a comment.
    fn count_comment(&self) -> (r: usize)
        ensures
            r == utf8_len(
                self.source().skip(self.char_position()).take(
                    comment_len(self.source().skip(self.char_position())) as int,
                ),
            ),
    {
        proof {
            use_type_invariant(self);
            lemma_utf8_len_split(self.source@, self.char_position());
        }
        count_comment(self.remaining())
    }

    /// Count bytes until the given pattern is found (not including the pattern itself). Return
    /// [`None`] if the given pattern isn't found.
    pub fn count_until(&self, pattern: &str) -> (r: Option<usize>)
        ensures
            r == byte_offset(
                self.source().skip(self.char_position()),
                find_from(self.source().skip(self.char_position()), pattern@, 0),
            ),
    {
        proof {
            use_type_invariant(self);
            lemma_utf8_len_split(self.source@, self.char_position());
        }
        count_to(self.remaining(), pattern)
    }

    /// Consume all whitespace and comments at the current position, advancing the position.
    pub fn consume_whitespace_and_comments(&mut self)
        ensures
            final(self).source() == old(self).source(),
            final(self).char_position() == old(self).char_position() + trivia_len(
                old(self).source().skip(old(self).char_position()),
            ),
            trivia_span(
                final(self).source(),
                old(self).char_position(),
                final(self).char_position(),
            ),
            whitespace_end(final(self).source().skip(final(self).char_position()), 0) == 0,
            comment_len(final(self).source().skip(final(self).char_position())) == 0,
    {
        let ghost s = self.source();
        let ghost k0 = self.char_position();
        proof {
            use_type_invariant(&*self);
        }
        loop
            invariant
                s == self.source(),
                0 <= k0 <= self.char_position() <= s.len(),
                k0 + trivia_len(s.skip(k0)) == self.char_position() + trivia_len(
                    s.skip(self.char_position()),
                ),
            ensures
                s == self.source(),
                self.char_position() == k0 + trivia_len(s.skip(k0)),
            decreases s.len() - self.char_position(),
        {
            proof {
                use_type_invariant(&*self);
            }
            let ghost k = self.char_position();
            let ghost h = s.skip(k);
            let ghost w = whitespace_end(h, 0);
            proof {
                lemma_run_end(h, 0, |c: char| is_unicode_whitespace(c));
                lemma_utf8_len_take_skip(s, k, w);
                lemma_utf8_len_take_bound(s, k + w);
                lemma_char_pos(s, k + w);
            }
            let whitespace_count = self.count_whitespace();
            self.position = self.position + whitespace_count;
            let ghost h1 = s.skip(k + w);
            let ghost c = comment_len(h1) as int;
            proof {
                lemma_comment_len(h1);
                lemma_utf8_len_take_skip(s, k + w, c);
                lemma_utf8_len_take_bound(s, k + w + c);
                lemma_char_pos(s, k + w + c);
            }
            let comment_count = self.count_comment();
            self.position = self.position + comment_count;
            proof {
                crate::text::lemma_utf8_len_take_monotone(h, 0, w);
                crate::text::lemma_utf8_len_take_monotone(h1, 0, c);
                assert(h.take(0) =~= Seq::<char>::empty());
                assert(h1.take(0) =~= Seq::<char>::empty());
                assert(utf8_len(Seq::<char>::empty()) == 0);
                assert(s.skip(k + w + c) =~= h.skip(w + c));
            }
            // Stop when there are no more comments or whitespace to consume
            if (whitespace_count + comment_count) == 0 {
                proof {
                    assert(w == 0 && c == 0);
                }
                break;
            }
        }
        proof {
            let t = trivia_len(s.skip(k0)) as int;
            lemma_trivia_len_exact(s.skip(k0));
            lemma_trivia_span_skip(s, k0, 0, t);
            assert(s.skip(k0).skip(t) =~= s.skip(k0 + t));
        }
    }
}

} // verus!
