//! Short presentation lines for a few content types, built over an exact
//! decimal rendering of their numeric ids.

use vstd::prelude::*;
use vstd::string::StringExecFns;

verus! {

/// The decimal digit character for `d`.
pub open spec fn dec_digit(d: int) -> char {
    if d == 0 {
        '0'
    } else if d == 1 {
        '1'
    } else if d == 2 {
        '2'
    } else if d == 3 {
        '3'
    } else if d == 4 {
        '4'
    } else if d == 5 {
        '5'
    } else if d == 6 {
        '6'
    } else if d == 7 {
        '7'
    } else if d == 8 {
        '8'
    } else {
        '9'
    }
}

/// The decimal digits of `n`, most significant first, no leading zeros.
pub open spec fn dec_nat(n: nat) -> Seq<char>
    decreases n,
{
    if n < 10 {
        seq![dec_digit(n as int)]
    } else {
        dec_nat(n / 10) + seq![dec_digit((n % 10) as int)]
    }
}

/// The signed decimal rendering of `n`.
pub open spec fn dec_int(n: int) -> Seq<char> {
    if n < 0 {
        seq!['-'] + dec_nat((-n) as nat)
    } else {
        dec_nat(n as nat)
    }
}

/// Relies on i32::to_string, the decimal Display implementation of i32:
/// the signed decimal rendering of the value, without padding.
#[verifier::external_body]
fn i32_to_string(n: i32) -> (r: String)
    ensures
        r@ == dec_int(n as int),
{
    n.to_string()
}

/// A value that can present itself as a one-line summary.
pub trait Summary {
    /// The summary line this value presents.
    spec fn summary_spec(&self) -> Seq<char>;

    fn summarize(&self) -> (r: String)
        ensures
            r@ == self.summary_spec(),
    ;
}

pub struct Tweet {
    id: i32,
    content: String,
}

impl Tweet {
    pub fn new(id: i32, content: String) -> (t: Tweet)
        ensures
            t.summary_spec() == "Tweet #"@ + dec_int(id as int) + " about "@ + content@,
    {
        Tweet { id, content }
    }
}

impl Summary for Tweet {
    closed spec fn summary_spec(&self) -> Seq<char> {
        "Tweet #"@ + dec_int(self.id as int) + " about "@ + self.content@
    }

    fn summarize(&self) -> (r: String)
        ensures
            r@ == self.summary_spec(),
    {
        let mut r = String::from_str("Tweet #");
        let id_str = i32_to_string(self.id);
        r.append(id_str.as_str());
        r.append(" about ");
        r.append(self.content.as_str());
        r
    }
}

pub struct NewsArticle {
    pub id: i32,
    pub location: String,
    pub content: String,
}

impl Summary for NewsArticle {
    open spec fn summary_spec(&self) -> Seq<char> {
        "Article #"@ + dec_int(self.id as int) + " from "@ + self.location@ + " about "@
            + self.content@
    }

    fn summarize(&self) -> (r: String)
        ensures
            r@ == self.summary_spec(),
    {
        let mut r = String::from_str("Article #");
        let id_str = i32_to_string(self.id);
        r.append(id_str.as_str());
        r.append(" from ");
        r.append(self.location.as_str());
        r.append(" about ");
        r.append(self.content.as_str());
        r
    }
}

pub struct BlogPost {
    author: String,
    content: String,
}

impl BlogPost {
    pub fn new(author: String, content: String) -> (b: BlogPost)
        ensures
            b.summary_spec() == "Read more..."@,
    {
        BlogPost { author, content }
    }
}

impl Summary for BlogPost {
    /// A blog post keeps its summary generic, whoever wrote it.
    closed spec fn summary_spec(&self) -> Seq<char> {
        "Read more..."@
    }

    fn summarize(&self) -> (r: String)
        ensures
            r@ == self.summary_spec(),
    {
        String::from_str("Read more...")
    }
}

/// The summary of one tweet, taken by value.
pub fn tweet_summarize_fn(t: Tweet) -> (r: String)
    ensures
        r@ == t.summary_spec(),
{
    t.summarize()
}

/// The summary of any value that has one.
pub fn summarize_caller<S: Summary>(s: &S) -> (r: String)
    ensures
        r@ == s.summary_spec(),
{
    s.summarize()
}

} // verus!
