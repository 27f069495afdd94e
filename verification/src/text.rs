//! Character-level facts about strings: equality, the first occurrence of a
//! character, and contiguous substring containment.

use vstd::prelude::*;
use vstd::string::StrSliceExecFns;

verus! {

/// The index of the first occurrence of `c` in `s`, or `s.len()` when `c`
/// does not occur.
pub open spec fn first_index_of(s: Seq<char>, c: char) -> int
    decreases s.len(),
{
    if s.len() == 0 {
        0
    } else if s[0] == c {
        0
    } else {
        1 + first_index_of(s.drop_first(), c)
    }
}

pub proof fn lemma_first_index_of_bounds(s: Seq<char>, c: char)
    ensures
        0 <= first_index_of(s, c) <= s.len(),
        forall|j: int| 0 <= j < first_index_of(s, c) ==> s[j] != c,
        first_index_of(s, c) < s.len() ==> s[first_index_of(s, c)] == c,
    decreases s.len(),
{
    if s.len() == 0 {
    } else if s[0] == c {
    } else {
        lemma_first_index_of_bounds(s.drop_first(), c);
        assert forall|j: int| 0 <= j < first_index_of(s, c) implies s[j] != c by {
            if j > 0 {
                assert(s.drop_first()[j - 1] == s[j]);
            }
        }
        if first_index_of(s, c) < s.len() {
            assert(s.drop_first()[first_index_of(s.drop_first(), c)] == s[first_index_of(s, c)]);
        }
    }
}

pub proof fn lemma_first_index_of_is(s: Seq<char>, c: char, k: int)
    requires
        0 <= k <= s.len(),
        forall|j: int| 0 <= j < k ==> s[j] != c,
        k < s.len() ==> s[k] == c,
    ensures
        first_index_of(s, c) == k,
    decreases s.len(),
{
    if s.len() == 0 {
    } else if s[0] == c {
        assert(k == 0);
    } else {
        assert(k > 0);
        assert forall|j: int| 0 <= j < k - 1 implies s.drop_first()[j] != c by {
            assert(s.drop_first()[j] == s[j + 1]);
        }
        if k - 1 < s.drop_first().len() {
            assert(s.drop_first()[k - 1] == s[k]);
        }
        lemma_first_index_of_is(s.drop_first(), c, k - 1);
    }
}

/// `q` occurs in `l` as a contiguous substring starting at index `i`.
pub open spec fn is_match_at(l: Seq<char>, q: Seq<char>, i: int) -> bool {
    0 <= i && i + q.len() <= l.len() && l.subrange(i, i + q.len() as int) == q
}

/// `q` occurs somewhere in `l` as a contiguous substring.
pub open spec fn contains_seq(l: Seq<char>, q: Seq<char>) -> bool {
    exists|i: int| is_match_at(l, q, i)
}

/// Character-for-character equality of two string slices.
pub fn str_eq(a: &str, b: &str) -> (r: bool)
    ensures
        r == (a@ == b@),
{
    let na = a.unicode_len();
    let nb = b.unicode_len();
    if na != nb {
        return false;
    }
    let mut i: usize = 0;
    while i < na
        invariant
            na == a@.len(),
            na == b@.len(),
            0 <= i <= na,
            forall|j: int| 0 <= j < i ==> a@[j] == b@[j],
        decreases na - i,
    {
        if a.get_char(i) != b.get_char(i) {
            return false;
        }
        i += 1;
    }
    proof {
        assert(a@ =~= b@);
    }
    true
}

/// Whether `q` matches the characters of `l` starting at index `i`.
fn match_at(l: &str, q: &str, i: usize) -> (r: bool)
    requires
        i + q@.len() <= l@.len(),
    ensures
        r == is_match_at(l@, q@, i as int),
{
    let n = l.unicode_len();
    let m = q.unicode_len();
    let mut j: usize = 0;
    while j < m
        invariant
            n == l@.len(),
            m == q@.len(),
            i + m <= n,
            0 <= j <= m,
            forall|t: int| 0 <= t < j ==> l@[i + t] == q@[t],
        decreases m - j,
    {
        if l.get_char(i + j) != q.get_char(j) {
            proof {
                assert(l@.subrange(i as int, i + m as int)[j as int] == l@[i + j]);
            }
            return false;
        }
        j += 1;
    }
    proof {
        assert(l@.subrange(i as int, i + m as int) =~= q@);
    }
    true
}

/// Whether `q` occurs in `l` as a contiguous substring, compared character
/// for character.
pub fn contains_str(l: &str, q: &str) -> (r: bool)
    ensures
        r == contains_seq(l@, q@),
{
    let n = l.unicode_len();
    let m = q.unicode_len();
    if m > n {
        return false;
    }
    if m == 0 {
        proof {
            assert(l@.subrange(0, 0) =~= q@);
            assert(is_match_at(l@, q@, 0));
        }
        return true;
    }
    let mut i: usize = 0;
    while i <= n - m
        invariant
            n == l@.len(),
            m == q@.len(),
            0 < m <= n,
            0 <= i <= n - m + 1,
            forall|k: int| 0 <= k < i ==> !is_match_at(l@, q@, k),
        decreases n - i,
    {
        if match_at(l, q, i) {
            return true;
        }
        i += 1;
    }
    false
}

/// The number of characters before the first space of `s`.
pub fn first_word_idx(s: &String) -> (r: usize)
    ensures
        r == first_index_of(s@, ' '),
{
    let n = s.as_str().unicode_len();
    let mut i: usize = 0;
    while i < n
        invariant
            n == s@.len(),
            0 <= i <= n,
            forall|j: int| 0 <= j < i ==> s@[j] != ' ',
        decreases n - i,
    {
        if s.as_str().get_char(i) == ' ' {
            proof {
                lemma_first_index_of_is(s@, ' ', i as int);
            }
            return i;
        }
        i += 1;
    }
    proof {
        lemma_first_index_of_is(s@, ' ', n as int);
    }
    n
}

/// The prefix of `s` before its first space, or all of `s` when it has none.
pub fn first_word(s: &String) -> (r: &str)
    ensures
        r@ == s@.take(first_index_of(s@, ' ')),
{
    let i = first_word_idx(s);
    proof {
        lemma_first_index_of_bounds(s@, ' ');
    }
    s.as_str().substring_char(0, i)
}

} // verus!
