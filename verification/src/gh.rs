//! Picking an access token out of environment-style key-value pairs. The
//! pairs themselves come from the caller; nothing here reads the
//! environment.

use crate::text::str_eq;
use vstd::prelude::*;

verus! {

/// Whether a key-value pair carries the token key.
pub fn is_gh_token(kv: &(String, String)) -> (r: bool)
    ensures
        r == (kv.0@ == "GH_TOKEN"@),
{
    str_eq(kv.0.as_str(), "GH_TOKEN")
}

/// The value of the first pair whose key is the token key, if any.
pub open spec fn first_gh_token(vars: Seq<(Seq<char>, Seq<char>)>) -> Option<Seq<char>>
    decreases vars.len(),
{
    if vars.len() == 0 {
        None
    } else if vars[0].0 == "GH_TOKEN"@ {
        Some(vars[0].1)
    } else {
        first_gh_token(vars.drop_first())
    }
}

/// Scans the pairs in order and hands back the first token value.
pub fn find_gh_token(vars: &Vec<(String, String)>) -> (r: Option<String>)
    ensures
        r.deep_view() == first_gh_token(vars.deep_view()),
{
    let ghost dv = vars.deep_view();
    proof {
        assert(dv.skip(0) =~= dv);
    }
    let mut i: usize = 0;
    while i < vars.len()
        invariant
            dv == vars.deep_view(),
            dv.len() == vars@.len(),
            0 <= i <= dv.len(),
            first_gh_token(dv.skip(i as int)) == first_gh_token(dv),
        decreases dv.len() - i,
    {
        if is_gh_token(&vars[i]) {
            proof {
                assert(dv.skip(i as int)[0] == dv[i as int]);
                assert(dv[i as int].0 == vars@[i as int].0@);
                assert(dv[i as int].1 == vars@[i as int].1@);
            }
            return Some(vars[i].1.clone());
        }
        proof {
            assert(dv.skip(i as int)[0] == dv[i as int]);
            assert(dv[i as int].0 == vars@[i as int].0@);
            assert(dv.skip(i as int).drop_first() =~= dv.skip(i + 1));
        }
        i += 1;
    }
    proof {
        assert(dv.skip(dv.len() as int) =~= Seq::<(Seq<char>, Seq<char>)>::empty());
    }
    None
}

} // verus!
