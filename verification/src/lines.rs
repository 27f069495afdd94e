//! Splitting a text into its lines. A line ends at a newline or at a
//! carriage return directly followed by a newline; the final line ending is
//! optional.

use crate::text::first_index_of;
use crate::text::lemma_first_index_of_bounds;
use crate::text::lemma_first_index_of_is;
use vstd::prelude::*;
use vstd::string::StrSliceExecFns;

verus! {

/// A line piece with a trailing carriage return dropped.
pub open spec fn strip_cr(l: Seq<char>) -> Seq<char> {
    if l.len() > 0 && l.last() == '\r' {
        l.drop_last()
    } else {
        l
    }
}

/// The lines of `c`, in order: the pieces between newlines, each with a
/// trailing carriage return dropped; a newline at the very end opens no
/// further empty line.
pub open spec fn line_split(c: Seq<char>) -> Seq<Seq<char>>
    decreases c.len(),
    via line_split_decreases
{
    if c.len() == 0 {
        Seq::empty()
    } else {
        let i = first_index_of(c, '\n');
        if i == c.len() {
            seq![c]
        } else {
            seq![strip_cr(c.take(i))] + line_split(c.skip(i + 1))
        }
    }
}

#[via_fn]
proof fn line_split_decreases(c: Seq<char>) {
    if c.len() != 0 {
        lemma_first_index_of_bounds(c, '\n');
    }
}

/// The lines of `c` as slices of `c`, in order.
pub fn split_lines<'a>(c: &'a str) -> (r: Vec<&'a str>)
    ensures
        r.deep_view() == line_split(c@),
{
    let n = c.unicode_len();
    let mut r: Vec<&'a str> = Vec::new();
    let mut start: usize = 0;
    let mut i: usize = 0;
    proof {
        assert(c@.skip(0) =~= c@);
        assert(r.deep_view() =~= Seq::<Seq<char>>::empty());
        assert(Seq::<Seq<char>>::empty() + line_split(c@) =~= line_split(c@));
    }
    while i < n
        invariant
            n == c@.len(),
            0 <= start <= i <= n,
            forall|j: int| start <= j < i ==> c@[j] != '\n',
            r.deep_view() + line_split(c@.skip(start as int)) == line_split(c@),
        decreases n - i,
    {
        if c.get_char(i) == '\n' {
            let piece = if i > start && c.get_char(i - 1) == '\r' {
                c.substring_char(start, i - 1)
            } else {
                c.substring_char(start, i)
            };
            proof {
                let s = c@.skip(start as int);
                assert forall|j: int| 0 <= j < i - start implies s[j] != '\n' by {
                    assert(s[j] == c@[start + j]);
                }
                assert(s[i - start] == c@[i as int]);
                lemma_first_index_of_is(s, '\n', i - start);
                assert(s.take(i - start) =~= c@.subrange(start as int, i as int));
                assert(s.skip(i - start + 1) =~= c@.skip(i + 1));
                if i > start && c@[i - 1] == '\r' {
                    assert(c@.subrange(start as int, i as int).last() == c@[i - 1]);
                    assert(c@.subrange(start as int, i as int).drop_last() =~= c@.subrange(
                        start as int,
                        i - 1,
                    ));
                    assert(piece@ == strip_cr(s.take(i - start)));
                } else {
                    if i > start {
                        assert(c@.subrange(start as int, i as int).last() == c@[i - 1]);
                    }
                    assert(piece@ == strip_cr(s.take(i - start)));
                }
                assert(line_split(s) == seq![piece@] + line_split(c@.skip(i + 1)));
            }
            let ghost old_dv = r.deep_view();
            r.push(piece);
            proof {
                assert(r.deep_view() =~= old_dv.push(piece@));
                assert(old_dv.push(piece@) + line_split(c@.skip(i + 1)) =~= old_dv + (seq![piece@]
                    + line_split(c@.skip(i + 1))));
            }
            start = i + 1;
        }
        i += 1;
    }
    if start < n {
        let piece = c.substring_char(start, n);
        proof {
            let s = c@.skip(start as int);
            assert forall|j: int| 0 <= j < n - start implies s[j] != '\n' by {
                assert(s[j] == c@[start + j]);
            }
            lemma_first_index_of_is(s, '\n', n - start);
            assert(line_split(s) == seq![s]);
            assert(piece@ =~= s);
        }
        let ghost old_dv = r.deep_view();
        r.push(piece);
        proof {
            assert(r.deep_view() =~= old_dv.push(piece@));
            assert(old_dv.push(piece@) =~= old_dv + seq![piece@]);
        }
    } else {
        proof {
            assert(c@.skip(start as int) =~= Seq::<char>::empty());
            assert(r.deep_view() + line_split(Seq::<char>::empty()) =~= r.deep_view());
        }
    }
    r
}

} // verus!
