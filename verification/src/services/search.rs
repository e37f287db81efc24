//! Compiling a search into statements, and reading their results.

use vstd::prelude::*;
use vstd::string::*;
use crate::error::StorageError;
use crate::paging::{page_offset, spec_page_offset};
use crate::post::{ContentType, SummaryPost};
use crate::query::{
    render_where,
    spec_admits,
    spec_bound_values,
    spec_kind_names,
    spec_where,
    Predicate,
    PredicateView,
    SqlValue,
    SqlValueView,
    Statement,
    StatementView,
};
use crate::services::search_query::{SearchQuery, SearchQueryView};

verus! {

/// The search over the content of the site.
pub struct SearchService;

/// The two statements of one search: the one that counts the rows that
/// match, and the one that fetches one page of them.
#[derive(Debug, PartialEq, Eq)]
pub struct SearchPlan {
    pub count: Statement,
    pub rows: Statement,
}

/// The conditions that `query` asks for, all of which a row has to meet:
/// the free text, where there is any; every tag; the two bounds of the date
/// range, as far as they are given; and the content types. Where `query`
/// names no content type, special pages are kept out.
pub open spec fn spec_predicates(query: SearchQueryView) -> Seq<PredicateView> {
    let text = if query.text_query.len() > 0 {
        seq![PredicateView::FullText(query.text_query)]
    } else {
        Seq::empty()
    };
    let tags = Seq::new(query.tags.len(), |i: int| PredicateView::HasTag(query.tags[i]));
    let from = match query.from_date {
        Some(date) => seq![PredicateView::DateFrom(date)],
        None => Seq::empty(),
    };
    let to = match query.to_date {
        Some(date) => seq![PredicateView::DateTo(date)],
        None => Seq::empty(),
    };
    let kinds = if query.post_type.len() > 0 {
        seq![PredicateView::KindIn(query.post_type)]
    } else {
        seq![PredicateView::NotSpecial]
    };
    text + tags + from + to + kinds
}

/// The order of the results: by relevance where free text is searched for,
/// else the newest first.
pub open spec fn spec_order(query: SearchQueryView) -> Seq<char> {
    if query.text_query.len() > 0 {
        "ORDER BY rank"@
    } else {
        "ORDER BY date DESC"@
    }
}

/// The tables that are searched: the posts, joined with the full-text index
/// where free text is searched for.
pub open spec fn spec_source(query: SearchQueryView) -> Seq<char> {
    if query.text_query.len() > 0 {
        "FROM posts INNER JOIN posts_fts ON posts.rowid = posts_fts.rowid"@
    } else {
        "FROM posts"@
    }
}

/// The filter and the order of a search, as both of its statements hold
/// them.
pub open spec fn spec_filter_clauses(query: SearchQueryView) -> Seq<char> {
    spec_where(spec_predicates(query)) + " "@ + spec_order(query)
}

/// The statement that counts the rows that match `query`.
pub open spec fn spec_count_statement(query: SearchQueryView) -> StatementView {
    StatementView {
        sql: "SELECT COUNT(*) "@ + spec_source(query) + " "@ + spec_filter_clauses(query),
        params: spec_bound_values(spec_predicates(query)),
    }
}

/// The largest number of rows that a page of `per_page` asks the database
/// for.
pub open spec fn spec_limit(per_page: nat) -> int {
    if per_page <= i64::MAX {
        per_page as int
    } else {
        i64::MAX as int
    }
}

/// The offset that page `page` asks the database for.
pub open spec fn spec_offset(page: nat, per_page: nat) -> int {
    if spec_page_offset(page, per_page) <= i64::MAX {
        spec_page_offset(page, per_page) as int
    } else {
        i64::MAX as int
    }
}

/// The statement that fetches page `page` of the rows that match `query`.
pub open spec fn spec_rows_statement(query: SearchQueryView, page: nat, per_page: nat) -> StatementView {
    StatementView {
        sql:
            "SELECT posts.id, posts.content_type, posts.title, posts.link, posts.via, posts.quote_author, posts.date "@
            + spec_source(query) + " "@ + spec_filter_clauses(query) + " LIMIT ? OFFSET ?"@,
        params: spec_bound_values(spec_predicates(query)) + seq![
            SqlValueView::Integer(spec_limit(per_page)),
            SqlValueView::Integer(spec_offset(page, per_page)),
        ],
    }
}

/// `per_page` as the database takes it.
fn limit_of(per_page: usize) -> (limit: i64)
    ensures
        limit == spec_limit(per_page as nat),
{
    let wide: u64 = per_page as u64;
    let most: u64 = i64::MAX as u64;
    if wide > most {
        i64::MAX
    } else {
        wide as i64
    }
}

/// A copy of `values`.
fn copy_values(values: &Vec<SqlValue>) -> (copy: Vec<SqlValue>)
    ensures
        copy.deep_view() == values.deep_view(),
{
    let mut copy: Vec<SqlValue> = Vec::new();
    let mut i: usize = 0;
    while i < values.len()
        invariant
            i <= values.len(),
            copy.len() == i,
            forall|j: int| 0 <= j < i ==> copy[j]@ == values[j]@,
        decreases values.len() - i,
    {
        let value = match &values[i] {
            SqlValue::Text(text) => SqlValue::Text(text.clone()),
            SqlValue::Integer(number) => SqlValue::Integer(*number),
            SqlValue::Blob(bytes) => SqlValue::Blob(bytes.clone()),
        };
        copy.push(value);
        i += 1;
    }
    assert(copy.deep_view() =~= values.deep_view());
    copy
}

impl SearchService {
    /// The conditions that `query` asks for.
    pub fn predicates(query: &SearchQuery) -> (predicates: Vec<Predicate>)
        ensures
            predicates.deep_view() == spec_predicates(query@),
    {
        let mut predicates: Vec<Predicate> = Vec::new();
        if !query.text_query.as_str().is_empty() {
            predicates.push(Predicate::FullText(query.text_query.clone()));
        }
        let ghost text = predicates.deep_view();
        let ghost tags = query.tags.deep_view();
        let mut i: usize = 0;
        while i < query.tags.len()
            invariant
                i <= query.tags.len(),
                tags == query.tags.deep_view(),
                predicates.deep_view() == text + Seq::new(
                    i as nat,
                    |j: int| PredicateView::HasTag(tags[j]),
                ),
            decreases query.tags.len() - i,
        {
            let ghost before = predicates.deep_view();
            predicates.push(Predicate::HasTag(query.tags[i].clone()));
            assert(predicates.deep_view() =~= before.push(PredicateView::HasTag(tags[i as int])));
            assert(predicates.deep_view() =~= text + Seq::new(
                (i + 1) as nat,
                |j: int| PredicateView::HasTag(tags[j]),
            ));
            i += 1;
        }
        let ghost with_tags = predicates.deep_view();
        match &query.from_date {
            Some(date) => {
                predicates.push(Predicate::DateFrom(date.clone()));
                assert(predicates.deep_view() =~= with_tags + seq![PredicateView::DateFrom(date@)]);
            },
            None => {
                assert(predicates.deep_view() =~= with_tags + Seq::<PredicateView>::empty());
            },
        }
        let ghost with_from = predicates.deep_view();
        match &query.to_date {
            Some(date) => {
                predicates.push(Predicate::DateTo(date.clone()));
                assert(predicates.deep_view() =~= with_from + seq![PredicateView::DateTo(date@)]);
            },
            None => {
                assert(predicates.deep_view() =~= with_from + Seq::<PredicateView>::empty());
            },
        }
        let ghost with_to = predicates.deep_view();
        if query.post_type.len() > 0 {
            let kinds = query.post_type.clone();
            assert(kinds@ =~= query.post_type@);
            predicates.push(Predicate::KindIn(kinds));
            assert(predicates.deep_view() =~= with_to + seq![
                PredicateView::KindIn(query.post_type@),
            ]);
        } else {
            predicates.push(Predicate::NotSpecial);
            assert(predicates.deep_view() =~= with_to + seq![PredicateView::NotSpecial]);
        }
        predicates
    }

    /// The filter and the order of the search `query`, and the values for
    /// the placeholders of the filter. The count of a search and its pages
    /// are asked for with this one text and these values.
    pub fn build_search_query(query: &SearchQuery) -> (built: (String, Vec<SqlValue>))
        ensures
            built.0@ == spec_filter_clauses(query@),
            built.1.deep_view() == spec_bound_values(spec_predicates(query@)),
    {
        let predicates = SearchService::predicates(query);
        let (mut clauses, params) = render_where(&predicates);
        clauses.append(" ");
        if query.text_query.as_str().is_empty() {
            clauses.append("ORDER BY date DESC");
        } else {
            clauses.append("ORDER BY rank");
        }
        (clauses, params)
    }

    /// The statements of the search `query` for page `page`, `per_page`
    /// rows to a page: one that counts the matching rows, and one that
    /// fetches those of the page. Both hold the same filter with the same
    /// values. Pages count from 1, and the page starts after
    /// `(page - 1) * per_page` rows.
    pub fn search_statements(query: &SearchQuery, page: usize, per_page: usize) -> (plan: SearchPlan)
        ensures
            plan.count@ == spec_count_statement(query@),
            plan.rows@ == spec_rows_statement(query@, page as nat, per_page as nat),
    {
        let (clauses, params) = SearchService::build_search_query(query);
        let source = if query.text_query.as_str().is_empty() {
            "FROM posts"
        } else {
            "FROM posts INNER JOIN posts_fts ON posts.rowid = posts_fts.rowid"
        };
        let mut count_sql = String::from_str("SELECT COUNT(*) ");
        count_sql.append(source);
        count_sql.append(" ");
        count_sql.append(clauses.as_str());
        let mut rows_sql = String::from_str(
            "SELECT posts.id, posts.content_type, posts.title, posts.link, posts.via, posts.quote_author, posts.date ",
        );
        rows_sql.append(source);
        rows_sql.append(" ");
        rows_sql.append(clauses.as_str());
        rows_sql.append(" LIMIT ? OFFSET ?");
        let mut row_params = copy_values(&params);
        let ghost shared = row_params.deep_view();
        row_params.push(SqlValue::Integer(limit_of(per_page)));
        row_params.push(SqlValue::Integer(page_offset(page, per_page)));
        assert(row_params.deep_view() =~= shared + seq![
            SqlValueView::Integer(spec_limit(per_page as nat)),
            SqlValueView::Integer(spec_offset(page as nat, per_page as nat)),
        ]);
        assert(count_sql@ =~= spec_count_statement(query@).sql);
        assert(rows_sql@ =~= spec_rows_statement(query@, page as nat, per_page as nat).sql);
        SearchPlan {
            count: Statement { sql: count_sql, params },
            rows: Statement { sql: rows_sql, params: row_params },
        }
    }

    /// The result of a search: the summaries of the page as they were
    /// fetched, and the number of rows that match. It fails where the
    /// database gave a count that is no `usize`.
    pub fn search(rows: Vec<SummaryPost>, total: i64) -> (found: Result<
        (Vec<SummaryPost>, usize),
        StorageError,
    >)
        ensures
            found is Ok <==> 0 <= total <= usize::MAX,
            found matches Ok(page) ==> page.0 == rows && page.1 == total,
            found matches Err(e) ==> e matches StorageError::QueryFailed(detail) && detail@
                == "Search execution failed"@,
    {
        if total < 0 {
            return Err(StorageError::QueryFailed(String::from_str("Search execution failed")));
        }
        let wide: u64 = total as u64;
        if wide > usize::MAX as u64 {
            return Err(StorageError::QueryFailed(String::from_str("Search execution failed")));
        }
        Ok((rows, wide as usize))
    }
}

/// Special pages come up in a search only on request: the conditions of a
/// search that does not name the special kind let no row pass that is stored
/// as a special page, whatever its tags, its date and its text are. This
/// holds in particular of every search that names no content type at all.
pub proof fn lemma_search_excludes_special(query: SearchQueryView)
    requires
        !query.post_type.contains(ContentType::Special),
    ensures
        !spec_admits(spec_predicates(query), "special"@),
{
    let predicates = spec_predicates(query);
    let last = predicates.len() - 1;
    if query.post_type.len() > 0 {
        assert(predicates[last] == PredicateView::KindIn(query.post_type));
        let names = spec_kind_names(query.post_type);
        if names.contains("special"@) {
            let i = choose|i: int| 0 <= i < names.len() && names[i] == "special"@;
            ContentType::lemma_names_differ();
            assert(query.post_type[i].spec_name() == ContentType::Special.spec_name());
            assert(query.post_type[i] == ContentType::Special);
        }
        assert(!predicates[last].admits("special"@));
    } else {
        assert(predicates[last] == PredicateView::NotSpecial);
        assert(!predicates[last].admits("special"@));
    }
}

/// A search that names content types finds rows of these kinds only, and a
/// search that names none finds rows of every kind but the special one.
pub proof fn lemma_search_admits(query: SearchQueryView, kind: ContentType)
    ensures
        spec_admits(spec_predicates(query), kind.spec_name()) <==> if query.post_type.len() > 0 {
            query.post_type.contains(kind)
        } else {
            kind != ContentType::Special
        },
{
    let predicates = spec_predicates(query);
    let last = predicates.len() - 1;
    let stored = kind.spec_name();
    ContentType::lemma_names_differ();
    assert(ContentType::Special.spec_name() == "special"@);
    let decides = predicates[last];
    assert forall|i: int| 0 <= i < last implies (#[trigger] predicates[i]).admits(stored) by {
        let p = predicates[i];
        assert(p is FullText || p is HasTag || p is DateFrom || p is DateTo);
    }
    if query.post_type.len() > 0 {
        assert(decides == PredicateView::KindIn(query.post_type));
        let names = spec_kind_names(query.post_type);
        if names.contains(stored) {
            let i = choose|i: int| 0 <= i < names.len() && names[i] == stored;
            assert(query.post_type[i] == kind);
        }
        if query.post_type.contains(kind) {
            let i = choose|i: int| 0 <= i < query.post_type.len() && query.post_type[i] == kind;
            assert(names[i] == stored);
        }
    } else {
        assert(decides == PredicateView::NotSpecial);
    }
    if spec_admits(predicates, stored) {
        assert(predicates[last].admits(stored));
    }
}

} // verus!
