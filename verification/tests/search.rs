use blog_core::error::StorageError;
use blog_core::post::{ContentType, SummaryPost};
use blog_core::query::{render_where, Predicate, SqlValue};
use blog_core::services::search::SearchService;
use blog_core::services::search_query::SearchQuery;

fn text(s: &str) -> SqlValue {
    SqlValue::Text(s.to_string())
}

#[test]
fn default_search_excludes_special() {
    let query = SearchQuery::default();
    let (clauses, params) = SearchService::build_search_query(&query);
    assert_eq!(clauses, "WHERE posts.content_type != 'special' ORDER BY date DESC");
    assert!(params.is_empty());
    assert_eq!(SearchService::predicates(&query), vec![Predicate::NotSpecial]);
}

#[test]
fn text_search_orders_by_rank() {
    let query = SearchQuery::from_raw("hello world");
    let (clauses, params) = SearchService::build_search_query(&query);
    assert_eq!(
        clauses,
        "WHERE posts_fts MATCH ? AND posts.content_type != 'special' ORDER BY rank"
    );
    assert_eq!(params, vec![text("hello world")]);
}

#[test]
fn all_filters_combine_with_and() {
    let query = SearchQuery::from_raw(
        "tag:rust tag:verus from:2024-01-01 to:2024-12-31 type:link type:quote proofs",
    );
    let (clauses, params) = SearchService::build_search_query(&query);
    assert_eq!(
        clauses,
        "WHERE posts_fts MATCH ? \
         AND EXISTS (SELECT 1 FROM json_each(posts.tags) WHERE value = ?) \
         AND EXISTS (SELECT 1 FROM json_each(posts.tags) WHERE value = ?) \
         AND posts.date >= ? AND posts.date <= ? \
         AND posts.content_type IN (?, ?) ORDER BY rank"
    );
    assert_eq!(
        params,
        vec![
            text("proofs"),
            text("rust"),
            text("verus"),
            text("2024-01-01"),
            text("2024-12-31"),
            text("link"),
            text("quote"),
        ]
    );
}

#[test]
fn explicit_special_filter_includes_special() {
    let query = SearchQuery {
        text_query: String::new(),
        tags: Vec::new(),
        from_date: None,
        to_date: None,
        post_type: vec![ContentType::Special],
    };
    let (clauses, params) = SearchService::build_search_query(&query);
    assert_eq!(clauses, "WHERE posts.content_type IN (?) ORDER BY date DESC");
    assert_eq!(params, vec![text("special")]);
}

#[test]
fn count_and_rows_share_filter_and_values() {
    let query = SearchQuery::from_raw("tag:rust hello");
    let plan = SearchService::search_statements(&query, 3, 10);
    let (clauses, params) = SearchService::build_search_query(&query);
    let source = "FROM posts INNER JOIN posts_fts ON posts.rowid = posts_fts.rowid";
    assert_eq!(plan.count.sql, format!("SELECT COUNT(*) {} {}", source, clauses));
    assert_eq!(plan.count.params, params);
    assert_eq!(
        plan.rows.sql,
        format!(
            "SELECT posts.id, posts.content_type, posts.title, posts.link, posts.via, posts.quote_author, posts.date {} {} LIMIT ? OFFSET ?",
            source, clauses
        )
    );
    let mut expected = vec![text("hello"), text("rust")];
    expected.push(SqlValue::Integer(10));
    expected.push(SqlValue::Integer(20));
    assert_eq!(plan.rows.params, expected);
}

#[test]
fn plain_listing_search_reads_posts_only() {
    let plan = SearchService::search_statements(&SearchQuery::default(), 1, 10);
    assert_eq!(
        plan.count.sql,
        "SELECT COUNT(*) FROM posts WHERE posts.content_type != 'special' ORDER BY date DESC"
    );
    assert_eq!(
        plan.rows.params,
        vec![SqlValue::Integer(10), SqlValue::Integer(0)]
    );
}

#[test]
fn search_offset_is_page_minus_one_times_per_page() {
    let plan = SearchService::search_statements(&SearchQuery::default(), 7, 25);
    assert_eq!(
        plan.rows.params,
        vec![SqlValue::Integer(25), SqlValue::Integer(150)]
    );
    let huge = SearchService::search_statements(&SearchQuery::default(), usize::MAX, usize::MAX);
    assert_eq!(
        huge.rows.params,
        vec![SqlValue::Integer(i64::MAX), SqlValue::Integer(i64::MAX)]
    );
}

#[test]
fn search_returns_rows_and_total() {
    let rows = vec![SummaryPost {
        id: "a".to_string(),
        content_type: ContentType::Post,
        title: None,
        link: None,
        via: None,
        quote_author: None,
        date: "2024-01-01".to_string(),
    }];
    let found = SearchService::search(rows, 42).unwrap();
    assert_eq!(found.0.len(), 1);
    assert_eq!(found.0[0].id, "a");
    assert_eq!(found.1, 42);
}

#[test]
fn search_rejects_negative_total() {
    assert!(matches!(
        SearchService::search(Vec::new(), -1),
        Err(StorageError::QueryFailed(_))
    ));
}

#[test]
fn render_where_without_predicates_is_empty() {
    let (clause, params) = render_where(&Vec::new());
    assert_eq!(clause, "");
    assert!(params.is_empty());
}

#[test]
fn predicate_conditions_and_values() {
    assert_eq!(Predicate::IdIs("x".to_string()).condition(), "posts.id = ?");
    assert_eq!(Predicate::IdIs("x".to_string()).values(), vec![text("x")]);
    assert_eq!(Predicate::OnlySpecial.condition(), "posts.content_type = 'special'");
    assert!(Predicate::OnlySpecial.values().is_empty());
    let kinds = Predicate::KindIn(vec![ContentType::Post, ContentType::Link, ContentType::Quote]);
    assert_eq!(kinds.condition(), "posts.content_type IN (?, ?, ?)");
    assert_eq!(kinds.values(), vec![text("post"), text("link"), text("quote")]);
}

#[test]
fn storage_error_statuses() {
    assert_eq!(StorageError::NotFound.status(), 404);
    assert_eq!(StorageError::QueryFailed("x".to_string()).status(), 500);
    assert_eq!(StorageError::PoolExhausted.status(), 500);
    assert_eq!(StorageError::ValidationFailed.status(), 400);
    assert!(StorageError::PoolExhausted.is_query_failure());
    assert!(StorageError::QueryFailed(String::new()).is_query_failure());
    assert!(!StorageError::NotFound.is_query_failure());
    assert!(!StorageError::ValidationFailed.is_query_failure());
}
