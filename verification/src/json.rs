//! Reading the JSON columns of a row.
//!
//! The parsing is the work of the `serde_json` crate. What it reads is not
//! restated here: the result has a name, and the contracts of the library
//! speak of it under that name.

use vstd::prelude::*;
use vstd::string::*;

verus! {

/// What `serde_json::from_str` reads from `text` as a list of strings:
/// the strings in their order, or `None` where `text` is no JSON array of
/// strings.
pub uninterp spec fn json_string_list(text: Seq<char>) -> Option<Seq<Seq<char>>>;

/// Calls `serde_json::from_str` for a `Vec<String>` and drops the error's
/// description. The contract only names the result: it is
/// `json_string_list` of the text, which claims that the crate reads the
/// same list whenever it is given the same text.
#[verifier::external_body]
pub(crate) fn parse_string_list(text: &str) -> (list: Option<Vec<String>>)
    ensures
        list.deep_view() == json_string_list(text@),
{
    serde_json::from_str::<Vec<String>>(text).ok()
}

} // verus!
