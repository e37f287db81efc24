//! The search string of a visitor, taken apart into filters and free text.

use vstd::prelude::*;
use vstd::string::*;
use crate::pattern::{captures_iter, regex_captures, regex_replace_all, replace_all};
use crate::post::ContentType;
use crate::text::{spec_trim, str_equal, trim};

verus! {

/// A search, taken apart: the free text that is left once the filter tokens
/// are taken out, and the filters those tokens ask for.
#[derive(Debug, PartialEq, Eq)]
pub struct SearchQuery {
    pub text_query: String,
    pub tags: Vec<String>,
    pub from_date: Option<String>,
    pub to_date: Option<String>,
    pub post_type: Vec<ContentType>,
}

/// What a `SearchQuery` is, as plain sequences.
pub struct SearchQueryView {
    pub text_query: Seq<char>,
    pub tags: Seq<Seq<char>>,
    pub from_date: Option<Seq<char>>,
    pub to_date: Option<Seq<char>>,
    pub post_type: Seq<ContentType>,
}

impl View for SearchQuery {
    type V = SearchQueryView;

    open spec fn view(&self) -> SearchQueryView {
        SearchQueryView {
            text_query: self.text_query@,
            tags: self.tags.deep_view(),
            from_date: self.from_date.deep_view(),
            to_date: self.to_date.deep_view(),
            post_type: self.post_type@,
        }
    }
}

impl Default for SearchQuery {
    fn default() -> (query: SearchQuery)
        ensures
            query@ == spec_empty_query(),
    {
        let query = SearchQuery {
            text_query: String::new(),
            tags: Vec::new(),
            from_date: None,
            to_date: None,
            post_type: Vec::new(),
        };
        assert(query.tags.deep_view() == Seq::<Seq<char>>::empty());
        query
    }
}

/// The search that asks for nothing.
pub open spec fn spec_empty_query() -> SearchQueryView {
    SearchQueryView {
        text_query: Seq::empty(),
        tags: Seq::empty(),
        from_date: None,
        to_date: None,
        post_type: Seq::empty(),
    }
}

/// The expression that finds tag tokens: `tag:` and the run of characters
/// up to the next white space, which is the tag.
pub open spec fn spec_tag_pattern() -> Seq<char> {
    "tag:([^\\s]+)"@
}

/// The expression that finds date tokens: `from:` or `to:` and a date of
/// four, two and two digits.
pub open spec fn spec_date_pattern() -> Seq<char> {
    "(from|to):(\\d{4}-\\d{2}-\\d{2})"@
}

/// The expression that finds content-type tokens.
pub open spec fn spec_type_pattern() -> Seq<char> {
    "type:(post|link|quote)"@
}

/// Group `i` of a match, `None` where the match has no such group.
pub open spec fn spec_group(groups: Seq<Option<Seq<char>>>, i: int) -> Option<Seq<char>> {
    if 0 <= i < groups.len() {
        groups[i]
    } else {
        None
    }
}

/// The tags that the matches of the tag expression name: group 1 of each
/// match, in the order of the matches, repeats kept.
pub open spec fn spec_tags(matches: Seq<Seq<Option<Seq<char>>>>) -> Seq<Seq<char>>
    decreases matches.len(),
{
    if matches.len() == 0 {
        Seq::empty()
    } else {
        let head = spec_tags(matches.drop_last());
        match spec_group(matches.last(), 1) {
            Some(tag) => head.push(tag),
            None => head,
        }
    }
}

/// The date that the matches of the date expression give for `key`: group 2
/// of the last match whose group 1 is `key`.
pub open spec fn spec_date(matches: Seq<Seq<Option<Seq<char>>>>, key: Seq<char>) -> Option<
    Seq<char>,
>
    decreases matches.len(),
{
    if matches.len() == 0 {
        None
    } else {
        match (spec_group(matches.last(), 1), spec_group(matches.last(), 2)) {
            (Some(word), Some(date)) => if word == key {
                Some(date)
            } else {
                spec_date(matches.drop_last(), key)
            },
            _ => spec_date(matches.drop_last(), key),
        }
    }
}

/// The content types that the matches of the type expression name: the kind
/// that group 1 of each match stands for, in the order of the matches.
pub open spec fn spec_kinds(matches: Seq<Seq<Option<Seq<char>>>>) -> Seq<ContentType>
    decreases matches.len(),
{
    if matches.len() == 0 {
        Seq::empty()
    } else {
        let head = spec_kinds(matches.drop_last());
        match spec_group(matches.last(), 1) {
            Some(name) => head.push(ContentType::spec_parse(name)),
            None => head,
        }
    }
}

/// The search that the matches of the three expressions and the text left
/// over amount to.
pub open spec fn spec_from_matches(
    tag_matches: Seq<Seq<Option<Seq<char>>>>,
    date_matches: Seq<Seq<Option<Seq<char>>>>,
    type_matches: Seq<Seq<Option<Seq<char>>>>,
    residual: Seq<char>,
) -> SearchQueryView {
    SearchQueryView {
        text_query: spec_trim(residual),
        tags: spec_tags(tag_matches),
        from_date: spec_date(date_matches, "from"@),
        to_date: spec_date(date_matches, "to"@),
        post_type: spec_kinds(type_matches),
    }
}

/// The matches of `pattern` in `text`; none where `pattern` is no
/// expression.
pub open spec fn spec_matches(pattern: Seq<char>, text: Seq<char>) -> Seq<Seq<Option<Seq<char>>>> {
    match regex_captures(pattern, text) {
        Some(matches) => matches,
        None => Seq::empty(),
    }
}

/// `text` without the matches of `pattern`; `text` itself where `pattern` is
/// no expression.
pub open spec fn spec_stripped(pattern: Seq<char>, text: Seq<char>) -> Seq<char> {
    match regex_replace_all(pattern, text, Seq::empty()) {
        Some(rest) => rest,
        None => text,
    }
}

/// The search that `raw` asks for. The tokens are looked for in `raw` as it
/// was typed, each kind by itself, so that their order does not matter. The
/// free text is `raw` with the tag tokens, then the date tokens, then the
/// type tokens taken out, and with the white space around it dropped.
pub open spec fn spec_from_raw(raw: Seq<char>) -> SearchQueryView {
    spec_from_matches(
        spec_matches(spec_tag_pattern(), raw),
        spec_matches(spec_date_pattern(), raw),
        spec_matches(spec_type_pattern(), raw),
        spec_stripped(
            spec_type_pattern(),
            spec_stripped(spec_date_pattern(), spec_stripped(spec_tag_pattern(), raw)),
        ),
    )
}

/// Group `i` of a match.
fn group(groups: &Vec<Option<String>>, i: usize) -> (text: Option<&String>)
    ensures
        text.deep_view() == spec_group(groups.deep_view(), i as int),
{
    if i < groups.len() {
        groups[i].as_ref()
    } else {
        None
    }
}

/// The matches of `pattern` in `text`.
fn matches_of(pattern: &str, text: &str) -> (matches: Vec<Vec<Option<String>>>)
    ensures
        matches.deep_view() == spec_matches(pattern@, text@),
{
    match captures_iter(pattern, text) {
        Some(matches) => matches,
        None => {
            let none: Vec<Vec<Option<String>>> = Vec::new();
            assert(none.deep_view() == Seq::<Seq<Option<Seq<char>>>>::empty());
            none
        },
    }
}

/// `text` without the matches of `pattern`.
fn stripped(pattern: &str, text: &str) -> (rest: String)
    ensures
        rest@ == spec_stripped(pattern@, text@),
{
    let nothing = "";
    proof {
        reveal_strlit("");
        assert(nothing@ == Seq::<char>::empty());
    }
    match replace_all(pattern, text, nothing) {
        Some(rest) => rest,
        None => text.to_owned(),
    }
}

impl SearchQuery {
    /// Takes the search string `raw` apart.
    pub fn from_raw(raw: &str) -> (query: SearchQuery)
        ensures
            query@ == spec_from_raw(raw@),
    {
        let tag_pattern = "tag:([^\\s]+)";
        let date_pattern = "(from|to):(\\d{4}-\\d{2}-\\d{2})";
        let type_pattern = "type:(post|link|quote)";
        let tag_matches = matches_of(tag_pattern, raw);
        let date_matches = matches_of(date_pattern, raw);
        let type_matches = matches_of(type_pattern, raw);
        let without_tags = stripped(tag_pattern, raw);
        let without_dates = stripped(date_pattern, without_tags.as_str());
        let residual = stripped(type_pattern, without_dates.as_str());
        SearchQuery::from_matches(&tag_matches, &date_matches, &type_matches, residual.as_str())
    }

    /// The search that the matches of the tag, date and type expressions
    /// amount to, with `residual` as the text that is left once the tokens
    /// are taken out. Every tag found is kept; of several `from:` or `to:`
    /// dates the last one holds; every content type found is kept; the free
    /// text is `residual` without the white space around it.
    pub fn from_matches(
        tag_matches: &Vec<Vec<Option<String>>>,
        date_matches: &Vec<Vec<Option<String>>>,
        type_matches: &Vec<Vec<Option<String>>>,
        residual: &str,
    ) -> (query: SearchQuery)
        ensures
            query@ == spec_from_matches(
                tag_matches.deep_view(),
                date_matches.deep_view(),
                type_matches.deep_view(),
                residual@,
            ),
    {
        let mut tags: Vec<String> = Vec::new();
        let ghost all_tags = tag_matches.deep_view();
        let mut i: usize = 0;
        while i < tag_matches.len()
            invariant
                i <= tag_matches.len(),
                all_tags == tag_matches.deep_view(),
                tags.deep_view() == spec_tags(all_tags.take(i as int)),
            decreases tag_matches.len() - i,
        {
            proof {
                assert(all_tags.take(i + 1).drop_last() == all_tags.take(i as int));
                assert(all_tags.take(i + 1).last() == tag_matches[i as int].deep_view());
            }
            match group(&tag_matches[i], 1) {
                Some(tag) => {
                    let ghost before = tags.deep_view();
                    tags.push(tag.clone());
                    assert(tags.deep_view() == before.push(tag@));
                },
                None => {},
            }
            i += 1;
        }
        assert(all_tags.take(tag_matches.len() as int) == all_tags);

        let mut from_date: Option<String> = None;
        let mut to_date: Option<String> = None;
        let ghost all_dates = date_matches.deep_view();
        let mut j: usize = 0;
        while j < date_matches.len()
            invariant
                j <= date_matches.len(),
                all_dates == date_matches.deep_view(),
                from_date.deep_view() == spec_date(all_dates.take(j as int), "from"@),
                to_date.deep_view() == spec_date(all_dates.take(j as int), "to"@),
            decreases date_matches.len() - j,
        {
            proof {
                assert(all_dates.take(j + 1).drop_last() == all_dates.take(j as int));
                assert(all_dates.take(j + 1).last() == date_matches[j as int].deep_view());
                reveal_strlit("from");
                reveal_strlit("to");
                assert("from"@ != "to"@) by {
                    assert("from"@.len() != "to"@.len());
                }
            }
            match (group(&date_matches[j], 1), group(&date_matches[j], 2)) {
                (Some(word), Some(date)) => {
                    if str_equal(word.as_str(), "from") {
                        from_date = Some(date.clone());
                    } else if str_equal(word.as_str(), "to") {
                        to_date = Some(date.clone());
                    }
                },
                _ => {},
            }
            j += 1;
        }
        assert(all_dates.take(date_matches.len() as int) == all_dates);

        let mut post_type: Vec<ContentType> = Vec::new();
        let ghost all_types = type_matches.deep_view();
        let mut k: usize = 0;
        while k < type_matches.len()
            invariant
                k <= type_matches.len(),
                all_types == type_matches.deep_view(),
                post_type@ == spec_kinds(all_types.take(k as int)),
            decreases type_matches.len() - k,
        {
            proof {
                assert(all_types.take(k + 1).drop_last() == all_types.take(k as int));
                assert(all_types.take(k + 1).last() == type_matches[k as int].deep_view());
            }
            match group(&type_matches[k], 1) {
                Some(name) => {
                    post_type.push(ContentType::from(name.clone()));
                },
                None => {},
            }
            k += 1;
        }
        assert(all_types.take(type_matches.len() as int) == all_types);

        SearchQuery { text_query: trim(residual), tags, from_date, to_date, post_type }
    }
}

} // verus!
