//! Whitespace trimming, named after the std functions the library relies on.

use vstd::prelude::*;

verus! {

/// What `str::trim` returns: the string without leading and trailing
/// whitespace, a function of the characters alone.
pub uninterp spec fn trim_of(s: Seq<char>) -> Seq<char>;

/// What `str::trim_end` returns: the string without trailing whitespace,
/// a function of the characters alone.
pub uninterp spec fn trim_end_of(s: Seq<char>) -> Seq<char>;

/// Relies on `str::trim`: removes leading and trailing whitespace and
/// depends only on the characters of its input. The result is a substring
/// of the input, so it is never longer, and the empty string stays empty.
#[verifier::external_body]
fn trim_str(s: &str) -> (r: &str)
    ensures
        r@ == trim_of(s@),
        r@.len() <= s@.len(),
        s@.len() == 0 ==> r@.len() == 0,
{
    s.trim()
}

/// Relies on `str::trim_end`: removes trailing whitespace and depends only
/// on the characters of its input. The result is a substring of the input,
/// so it is never longer, and the empty string stays empty.
#[verifier::external_body]
fn trim_end_str(s: &str) -> (r: &str)
    ensures
        r@ == trim_end_of(s@),
        r@.len() <= s@.len(),
        s@.len() == 0 ==> r@.len() == 0,
{
    s.trim_end()
}

/// A string is blank when nothing remains of it after trimming whitespace.
pub open spec fn blank(s: Seq<char>) -> bool {
    trim_of(s).len() == 0
}

/// Whether a field value is blank, in the sense the signup validation uses.
pub fn is_blank(s: &String) -> (r: bool)
    ensures
        r == blank(s@),
{
    trim_str(s.as_str()).is_empty()
}

/// A copy of the string with trailing whitespace removed.
pub fn trimmed_end(s: &String) -> (r: String)
    ensures
        r@ == trim_end_of(s@),
{
    trim_end_str(s.as_str()).to_owned()
}

} // verus!
