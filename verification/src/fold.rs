//! Case folding for comparison purposes: every character is replaced by its
//! lowercase mapping, character by character, so that folding a text is the
//! concatenation of folding its parts.

use vstd::prelude::*;
use vstd::string::StrSliceExecFns;
use vstd::string::StringExecFns;

verus! {

/// The lowercase mapping of one character, as one or more characters.
pub uninterp spec fn char_lower(c: char) -> Seq<char>;

/// The case folding of `s`: the lowercase mappings of its characters, in
/// order.
pub open spec fn lower_of(s: Seq<char>) -> Seq<char>
    decreases s.len(),
{
    if s.len() == 0 {
        Seq::empty()
    } else {
        lower_of(s.drop_last()) + char_lower(s.last())
    }
}

/// Relies on char::to_lowercase: the lowercase mapping of one character,
/// unconditional and independent of locale or surrounding text.
#[verifier::external_body]
fn char_to_lower(c: char) -> (r: String)
    ensures
        r@ == char_lower(c),
{
    c.to_lowercase().collect()
}

/// The case folding of a whole string slice.
pub fn fold_lower(s: &str) -> (r: String)
    ensures
        r@ == lower_of(s@),
{
    let n = s.unicode_len();
    let mut r = String::new();
    let mut i: usize = 0;
    while i < n
        invariant
            n == s@.len(),
            0 <= i <= n,
            r@ == lower_of(s@.take(i as int)),
        decreases n - i,
    {
        let lc = char_to_lower(s.get_char(i));
        r.append(lc.as_str());
        proof {
            assert(s@.take(i + 1).drop_last() =~= s@.take(i as int));
            assert(s@.take(i + 1).last() == s@[i as int]);
        }
        i += 1;
    }
    proof {
        assert(s@.take(n as int) =~= s@);
    }
    r
}

/// Folding distributes over concatenation.
pub proof fn lemma_lower_of_concat(a: Seq<char>, b: Seq<char>)
    ensures
        lower_of(a + b) == lower_of(a) + lower_of(b),
    decreases b.len(),
{
    if b.len() == 0 {
        assert(a + b =~= a);
        assert(lower_of(a) + lower_of(b) =~= lower_of(a));
    } else {
        lemma_lower_of_concat(a, b.drop_last());
        assert((a + b).drop_last() =~= a + b.drop_last());
        assert((a + b).last() == b.last());
        assert(lower_of(a) + (lower_of(b.drop_last()) + char_lower(b.last())) =~= (lower_of(a)
            + lower_of(b.drop_last())) + char_lower(b.last()));
    }
}

} // verus!
