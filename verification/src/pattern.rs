//! Matching text against regular expressions.
//!
//! The matching itself is the work of the `regex` crate. What it finds is
//! not restated here: each result has a name, and the contracts of the
//! library speak of the results under these names.

use vstd::prelude::*;
use vstd::string::*;
use regex::Regex;

verus! {

/// What `regex::Regex::captures_iter` finds for `pattern` in `haystack`:
/// the successive matches from left to right, none overlapping another, and
/// for each match its capture groups, group 0 (the whole match) first. A
/// group that took no part in a match is `None`. The whole is `None` where
/// `regex::Regex::new` refuses `pattern`.
pub uninterp spec fn regex_captures(pattern: Seq<char>, haystack: Seq<char>) -> Option<
    Seq<Seq<Option<Seq<char>>>>,
>;

/// What `regex::Regex::replace_all` makes of `haystack` for `pattern`:
/// `haystack` with each of the successive matches replaced by the expansion
/// of `replacement`. It is `None` where `regex::Regex::new` refuses
/// `pattern`.
pub uninterp spec fn regex_replace_all(
    pattern: Seq<char>,
    haystack: Seq<char>,
    replacement: Seq<char>,
) -> Option<Seq<char>>;

/// Calls `regex::Regex::captures_iter` on `haystack`, with `pattern`
/// compiled by `regex::Regex::new`, and hands out the text of every group
/// of every match. The contract only names the result: it is
/// `regex_captures` of the two texts, which claims that the crate finds the
/// same matches whenever it is given the same texts.
#[verifier::external_body]
pub(crate) fn captures_iter(pattern: &str, haystack: &str) -> (found: Option<
    Vec<Vec<Option<String>>>,
>)
    ensures
        found.deep_view() == regex_captures(pattern@, haystack@),
{
    let re = Regex::new(pattern).ok()?;
    Some(
        re.captures_iter(haystack).map(
            |caps| caps.iter().map(|group| group.map(|m| m.as_str().to_string())).collect(),
        ).collect(),
    )
}

/// Calls `regex::Regex::replace_all` on `haystack`, with `pattern` compiled
/// by `regex::Regex::new`. The contract only names the result: it is
/// `regex_replace_all` of the three texts, which claims that the crate
/// writes the same text whenever it is given the same texts.
#[verifier::external_body]
pub(crate) fn replace_all(pattern: &str, haystack: &str, replacement: &str) -> (replaced: Option<
    String,
>)
    ensures
        replaced.deep_view() == regex_replace_all(pattern@, haystack@, replacement@),
{
    let re = Regex::new(pattern).ok()?;
    Some(re.replace_all(haystack, replacement).into_owned())
}

} // verus!
