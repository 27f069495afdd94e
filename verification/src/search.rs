//! The search engine: every line of a text that contains the query, in
//! original order, either compared exactly or on case-folded copies.

use crate::config::Config;
use crate::fold::fold_lower;
use crate::fold::lemma_lower_of_concat;
use crate::fold::lower_of;
use crate::lines::line_split;
use crate::lines::split_lines;
use crate::text::contains_seq;
use crate::text::contains_str;
use crate::text::is_match_at;
use vstd::prelude::*;

verus! {

/// The lines of `c` that contain `q` verbatim, in original order.
pub open spec fn search_spec(q: Seq<char>, c: Seq<char>) -> Seq<Seq<char>> {
    line_split(c).filter(|l: Seq<char>| contains_seq(l, q))
}

/// The lines of `c` whose case folding contains the case folding of `q`, in
/// original order.
pub open spec fn search_ci_spec(q: Seq<char>, c: Seq<char>) -> Seq<Seq<char>> {
    line_split(c).filter(|l: Seq<char>| contains_seq(lower_of(l), lower_of(q)))
}

proof fn lemma_filter_push<A>(s: Seq<A>, x: A, pred: spec_fn(A) -> bool)
    ensures
        s.push(x).filter(pred) == if pred(x) {
            s.filter(pred).push(x)
        } else {
            s.filter(pred)
        },
{
    reveal(Seq::filter);
    assert(s.push(x).drop_last() =~= s);
    assert(s.push(x).last() == x);
}

/// Exact-case search: every line of `c` that contains `q` as a contiguous
/// substring, in original order, duplicates kept.
pub fn search<'a>(q: &str, c: &'a str) -> (r: Vec<&'a str>)
    ensures
        r.deep_view() == search_spec(q@, c@),
{
    let lines = split_lines(c);
    let mut r: Vec<&'a str> = Vec::new();
    let ghost pred = |l: Seq<char>| contains_seq(l, q@);
    proof {
        assert(r.deep_view() =~= Seq::<Seq<char>>::empty());
        assert(lines.deep_view().take(0) =~= Seq::<Seq<char>>::empty());
        assert(Seq::<Seq<char>>::empty().filter(pred) =~= Seq::<Seq<char>>::empty());
    }
    let mut i: usize = 0;
    while i < lines.len()
        invariant
            lines.deep_view() == line_split(c@),
            0 <= i <= lines@.len(),
            r.deep_view() == lines.deep_view().take(i as int).filter(pred),
            pred == (|l: Seq<char>| contains_seq(l, q@)),
        decreases lines@.len() - i,
    {
        let ghost old_dv = r.deep_view();
        if contains_str(lines[i], q) {
            r.push(lines[i]);
            proof {
                assert(r.deep_view() =~= old_dv.push(lines.deep_view()[i as int]));
            }
        }
        proof {
            assert(lines.deep_view().take(i + 1) =~= lines.deep_view().take(i as int).push(
                lines.deep_view()[i as int],
            ));
            lemma_filter_push(lines.deep_view().take(i as int), lines.deep_view()[i as int], pred);
        }
        i += 1;
    }
    proof {
        assert(lines.deep_view().take(lines@.len() as int) =~= lines.deep_view());
    }
    r
}

/// Case-insensitive search: every line of `c` whose case folding contains
/// the case folding of `q`; the lines come back unfolded, in original order.
pub fn search_case_insensetive<'a>(q: &str, c: &'a str) -> (r: Vec<&'a str>)
    ensures
        r.deep_view() == search_ci_spec(q@, c@),
{
    let folded_q = fold_lower(q);
    let lines = split_lines(c);
    let mut r: Vec<&'a str> = Vec::new();
    let ghost pred = |l: Seq<char>| contains_seq(lower_of(l), lower_of(q@));
    proof {
        assert(r.deep_view() =~= Seq::<Seq<char>>::empty());
        assert(lines.deep_view().take(0) =~= Seq::<Seq<char>>::empty());
        assert(Seq::<Seq<char>>::empty().filter(pred) =~= Seq::<Seq<char>>::empty());
    }
    let mut i: usize = 0;
    while i < lines.len()
        invariant
            lines.deep_view() == line_split(c@),
            folded_q@ == lower_of(q@),
            0 <= i <= lines@.len(),
            r.deep_view() == lines.deep_view().take(i as int).filter(pred),
            pred == (|l: Seq<char>| contains_seq(lower_of(l), lower_of(q@))),
        decreases lines@.len() - i,
    {
        let ghost old_dv = r.deep_view();
        let folded_line = fold_lower(lines[i]);
        if contains_str(folded_line.as_str(), folded_q.as_str()) {
            r.push(lines[i]);
            proof {
                assert(r.deep_view() =~= old_dv.push(lines.deep_view()[i as int]));
            }
        }
        proof {
            assert(lines.deep_view().take(i + 1) =~= lines.deep_view().take(i as int).push(
                lines.deep_view()[i as int],
            ));
            lemma_filter_push(lines.deep_view().take(i as int), lines.deep_view()[i as int], pred);
        }
        i += 1;
    }
    proof {
        assert(lines.deep_view().take(lines@.len() as int) =~= lines.deep_view());
    }
    r
}

/// The search that a configuration asks for: case-folded when it says to
/// ignore case, exact otherwise.
pub fn search_with<'a>(config: &Config, content: &'a str) -> (r: Vec<&'a str>)
    ensures
        config.ignore_case ==> r.deep_view() == search_ci_spec(config.query@, content@),
        !config.ignore_case ==> r.deep_view() == search_spec(config.query@, content@),
{
    if config.ignore_case {
        search_case_insensetive(config.query.as_str(), content)
    } else {
        search(config.query.as_str(), content)
    }
}

/// Exact-case search returns exactly the matching lines: every returned
/// line contains the query, and every line of the text that contains the
/// query is among the returned lines.
pub proof fn lemma_search_exact(q: Seq<char>, c: Seq<char>)
    ensures
        forall|i: int|
            0 <= i < search_spec(q, c).len() ==> contains_seq(#[trigger] search_spec(q, c)[i], q),
        forall|i: int|
            0 <= i < line_split(c).len() && contains_seq(#[trigger] line_split(c)[i], q)
                ==> search_spec(q, c).contains(line_split(c)[i]),
{
    broadcast use vstd::seq_lib::group_filter_ensures;

}

/// A verbatim match survives case folding: folding maps a line with the
/// query inside it to a folded line with the folded query inside it.
pub proof fn lemma_match_survives_folding(l: Seq<char>, q: Seq<char>)
    requires
        contains_seq(l, q),
    ensures
        contains_seq(lower_of(l), lower_of(q)),
{
    let i = choose|i: int| is_match_at(l, q, i);
    let pre = l.subrange(0, i);
    let post = l.subrange(i + q.len() as int, l.len() as int);
    assert(l =~= (pre + q) + post);
    lemma_lower_of_concat(pre + q, post);
    lemma_lower_of_concat(pre, q);
    let fi = lower_of(pre).len() as int;
    assert(lower_of(l).subrange(fi, fi + lower_of(q).len() as int) =~= lower_of(q));
    assert(is_match_at(lower_of(l), lower_of(q), fi));
}

proof fn lemma_filter_weaker_pred_len<A>(s: Seq<A>, p1: spec_fn(A) -> bool, p2: spec_fn(A) -> bool)
    requires
        forall|x: A| #[trigger] p1(x) ==> p2(x),
    ensures
        s.filter(p1).len() <= s.filter(p2).len(),
    decreases s.len(),
{
    reveal(Seq::filter);
    if s.len() > 0 {
        lemma_filter_weaker_pred_len(s.drop_last(), p1, p2);
    }
}

/// Case-insensitive search is a superset in match count of exact-case
/// search: each line matched verbatim is also matched after folding, so at
/// least as many lines come back.
pub proof fn lemma_case_insensitive_superset(q: Seq<char>, c: Seq<char>)
    ensures
        forall|l: Seq<char>| #[trigger]
            contains_seq(l, q) ==> contains_seq(lower_of(l), lower_of(q)),
        search_spec(q, c).len() <= search_ci_spec(q, c).len(),
{
    assert forall|l: Seq<char>| #[trigger]
        contains_seq(l, q) implies contains_seq(lower_of(l), lower_of(q)) by {
        lemma_match_survives_folding(l, q);
    }
    lemma_filter_weaker_pred_len(
        line_split(c),
        |l: Seq<char>| contains_seq(l, q),
        |l: Seq<char>| contains_seq(lower_of(l), lower_of(q)),
    );
}

/// Searching is deterministic: two results of one query over one text are
/// the same line sequence, in the same order.
pub proof fn lemma_search_deterministic(
    q: Seq<char>,
    c: Seq<char>,
    r1: Seq<Seq<char>>,
    r2: Seq<Seq<char>>,
)
    requires
        r1 == search_spec(q, c),
        r2 == search_spec(q, c),
    ensures
        r1 == r2,
{
}

/// An empty text yields an empty result, in either matching mode.
pub proof fn lemma_empty_text_empty_result(q: Seq<char>)
    ensures
        search_spec(q, Seq::<char>::empty()) == Seq::<Seq<char>>::empty(),
        search_ci_spec(q, Seq::<char>::empty()) == Seq::<Seq<char>>::empty(),
{
    assert(line_split(Seq::<char>::empty()) == Seq::<Seq<char>>::empty());
    assert(Seq::<Seq<char>>::empty().filter(|l: Seq<char>| contains_seq(l, q))
        =~= Seq::<Seq<char>>::empty());
    assert(Seq::<Seq<char>>::empty().filter(
        |l: Seq<char>| contains_seq(lower_of(l), lower_of(q)),
    ) =~= Seq::<Seq<char>>::empty());
}

} // verus!
