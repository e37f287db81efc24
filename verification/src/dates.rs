//! Reading and rewriting dates.
//!
//! Both are the work of the `chrono` crate. What it makes of a date is not
//! restated here: the result has a name, and the contracts of the library
//! speak of it under that name.

use vstd::prelude::*;
use vstd::string::*;
use chrono::DateTime;

verus! {

/// What `chrono::DateTime::parse_from_rfc3339` reads from `text`, written
/// out again by `chrono::DateTime::to_rfc3339`: the same moment with the
/// same offset, in the one form that `to_rfc3339` writes. It is `None` where
/// `text` is no date and time of RFC 3339.
pub uninterp spec fn rfc3339_rewritten(text: Seq<char>) -> Option<Seq<char>>;

/// Calls `chrono::DateTime::parse_from_rfc3339` on `text` and, where that
/// gives a date, `chrono::DateTime::to_rfc3339` on the date. The contract
/// only names the result: it is `rfc3339_rewritten` of the text, which
/// claims that the crate writes the same date whenever it is given the same
/// text.
#[verifier::external_body]
pub(crate) fn rewrite_rfc3339(text: &str) -> (date: Option<String>)
    ensures
        date.deep_view() == rfc3339_rewritten(text@),
{
    DateTime::parse_from_rfc3339(text).ok().map(|date| date.to_rfc3339())
}

} // verus!
