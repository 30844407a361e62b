//! Text-pattern matching, delegated to the `regex` crate.

use vstd::prelude::*;

verus! {

/// The text of each capture group of one match: entry `k` is group `k`
/// (group 0 is the whole match), `None` where the group took no part.
pub type Groups = Vec<Option<String>>;

/// A capture group's text as a character sequence.
pub open spec fn group_view(g: Option<String>) -> Option<Seq<char>> {
    match g {
        Some(s) => Some(s@),
        None => None,
    }
}

/// The groups of one match as character sequences.
pub open spec fn groups_view(m: Seq<Option<String>>) -> Seq<Option<Seq<char>>> {
    m.map_values(|g: Option<String>| group_view(g))
}

/// A list of matches as character sequences.
pub open spec fn matches_view(ms: Seq<Groups>) -> Seq<Seq<Option<Seq<char>>>> {
    ms.map_values(|m: Groups| groups_view(m@))
}

/// The successive non-overlapping matches of the regular expression `pattern`
/// in `hay`, left to right, each as its capture groups; empty when the
/// pattern does not compile.
pub uninterp spec fn regex_matches(pattern: Seq<char>, hay: Seq<char>) -> Seq<Seq<Option<Seq<char>>>>;

/// Relies on `regex::Regex::new` to compile `pattern` and on
/// `regex::Regex::captures_iter` for the successive matches in `hay`, read
/// through `Captures::iter` (one entry per group of the pattern).
#[verifier::external_body]
pub(crate) fn find_matches(pattern: &str, hay: &str) -> (r: Vec<Groups>)
    ensures
        matches_view(r@) == regex_matches(pattern@, hay@),
{
    match regex::Regex::new(pattern) {
        Ok(re) => re
            .captures_iter(hay)
            .map(|c| c.iter().map(|g| g.map(|g| g.as_str().to_string())).collect())
            .collect(),
        Err(_) => Vec::new(),
    }
}

} // verus!
