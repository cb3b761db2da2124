//! Regular-expression searches, through the `regex` crate.

use vstd::prelude::*;
use crate::archive::opt_view;

verus! {

/// Group 1 of the leftmost match of `pattern` in `haystack`; none when the
/// pattern does not compile, nothing matches, or the group takes no part.
pub uninterp spec fn first_group(pattern: Seq<char>, haystack: Seq<char>) -> Option<Seq<char>>;

/// Group 1 of each successive non-overlapping match of `pattern` in
/// `haystack`, in order; empty when the pattern does not compile.
pub uninterp spec fn all_groups(pattern: Seq<char>, haystack: Seq<char>) -> Seq<Option<Seq<char>>>;

/// The character sequences held by a list of optional strings.
pub open spec fn opt_views(v: Seq<Option<String>>) -> Seq<Option<Seq<char>>> {
    v.map_values(|o: Option<String>| opt_view(o))
}

/// Relies on `regex::Regex::new`, `Regex::captures` and `Captures::get`:
/// group 1 of the leftmost match, as a string.
#[verifier::external_body]
pub fn capture_first(pattern: &str, haystack: &str) -> (r: Option<String>)
    ensures
        opt_view(r) == first_group(pattern@, haystack@),
{
    let re = regex::Regex::new(pattern).ok()?;
    re.captures(haystack)?.get(1).map(|m| m.as_str().to_string())
}

/// Relies on `regex::Regex::new`, `Regex::captures_iter` and `Captures::get`:
/// group 1 of every match, in the order the matches occur.
#[verifier::external_body]
pub fn capture_all(pattern: &str, haystack: &str) -> (r: Vec<Option<String>>)
    ensures
        opt_views(r@) == all_groups(pattern@, haystack@),
{
    match regex::Regex::new(pattern) {
        Ok(re) => re.captures_iter(haystack).map(|c| c.get(1).map(|m| m.as_str().to_string())).collect(),
        Err(_) => Vec::new(),
    }
}

} // verus!
