//! Finding the greatest element of a non-empty slice, for two concrete
//! element types and for any type with a partial order.

use core::cmp::Ordering;
use vstd::prelude::*;
use vstd::std_specs::cmp::PartialOrdSpec;

verus! {

/// The greatest value of a non-empty integer slice.
pub fn largest(l: &[i32]) -> (r: &i32)
    requires
        l@.len() > 0,
    ensures
        exists|i: int| 0 <= i < l@.len() && *r == l@[i],
        forall|i: int| 0 <= i < l@.len() ==> l@[i] <= *r,
{
    let mut best: &i32 = &l[0];
    let ghost mut best_idx: int = 0;
    let mut i: usize = 1;
    while i < l.len()
        invariant
            l@.len() > 0,
            1 <= i <= l@.len(),
            0 <= best_idx < l@.len(),
            *best == l@[best_idx],
            forall|j: int| 0 <= j < i ==> l@[j] <= *best,
        decreases l@.len() - i,
    {
        if l[i] > *best {
            best = &l[i];
            proof {
                best_idx = i as int;
            }
        }
        i += 1;
    }
    best
}

/// The greatest value of a non-empty character slice, by scalar value.
pub fn largest_char(l: &[char]) -> (r: &char)
    requires
        l@.len() > 0,
    ensures
        exists|i: int| 0 <= i < l@.len() && *r == l@[i],
        forall|i: int| 0 <= i < l@.len() ==> l@[i] <= *r,
{
    let mut best: &char = &l[0];
    let ghost mut best_idx: int = 0;
    let mut i: usize = 1;
    while i < l.len()
        invariant
            l@.len() > 0,
            1 <= i <= l@.len(),
            0 <= best_idx < l@.len(),
            *best == l@[best_idx],
            forall|j: int| 0 <= j < i ==> l@[j] <= *best,
        decreases l@.len() - i,
    {
        if l[i] > *best {
            best = &l[i];
            proof {
                best_idx = i as int;
            }
        }
        i += 1;
    }
    best
}

/// The index that a left-to-right scan of the first `n` elements settles
/// on: it moves to an element exactly when that element compares strictly
/// greater than the one it holds.
pub open spec fn running_largest<T: PartialOrd>(s: Seq<T>, n: int) -> int
    decreases n,
{
    if n <= 1 {
        0
    } else if s[n - 1].partial_cmp_spec(&s[running_largest(s, n - 1)]) == Some(
        Ordering::Greater,
    ) {
        n - 1
    } else {
        running_largest(s, n - 1)
    }
}

pub proof fn lemma_running_largest_bounds<T: PartialOrd>(s: Seq<T>, n: int)
    requires
        n >= 1,
    ensures
        0 <= running_largest(s, n) < n,
    decreases n,
{
    if n > 1 {
        lemma_running_largest_bounds(s, n - 1);
    }
}

/// The element of a non-empty slice that a left-to-right greatest-so-far
/// scan settles on. The result is always an element of the slice; when the
/// type's comparisons follow its order specification, it is exactly the
/// element at the scan's index.
pub fn largest_gen<T: PartialOrd>(l: &[T]) -> (r: &T)
    requires
        l@.len() > 0,
    ensures
        exists|i: int| 0 <= i < l@.len() && *r == l@[i],
        T::obeys_partial_cmp_spec() ==> *r == l@[running_largest(l@, l@.len() as int)],
{
    let mut best: &T = &l[0];
    let ghost mut best_idx: int = 0;
    let mut i: usize = 1;
    while i < l.len()
        invariant
            l@.len() > 0,
            1 <= i <= l@.len(),
            0 <= best_idx < l@.len(),
            *best == l@[best_idx],
            T::obeys_partial_cmp_spec() ==> best_idx == running_largest(l@, i as int),
        decreases l@.len() - i,
    {
        if l[i] > *best {
            best = &l[i];
            proof {
                best_idx = i as int;
            }
        }
        i += 1;
    }
    best
}

} // verus!
