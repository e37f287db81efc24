use blog_core::error::StorageError;
use blog_core::post::{Commit, ContentType, Post, SummaryPost};
use blog_core::query::{SqlValue, Statement};
use blog_core::services::post::{
    PostRow, PostService, SummaryRow, FEED_POSTS, MAIN_PAGE_POSTS, POSTS_PER_PAGE, RELATED_POSTS,
};

fn post(id: &str, commits: Option<Vec<&str>>) -> Post {
    Post {
        id: id.to_string(),
        content_type: ContentType::Post,
        title: Some(format!("title of {}", id)),
        link: None,
        via: None,
        quote_author: None,
        date: "2024-01-01".to_string(),
        last_updated: None,
        content: "body".to_string(),
        commits: commits.map(|ids| ids.iter().map(|s| s.to_string()).collect()),
        tags: None,
        real_commits: None,
        related_posts: None,
    }
}

fn commit(id: &str, date: &str) -> Commit {
    Commit {
        id: id.to_string(),
        date: date.to_string(),
        subject: format!("subject {}", id),
        body: None,
    }
}

fn summary(id: &str) -> SummaryPost {
    SummaryPost {
        id: id.to_string(),
        content_type: ContentType::Link,
        title: Some(format!("summary {}", id)),
        link: None,
        via: None,
        quote_author: None,
        date: "2024-02-02".to_string(),
    }
}

fn strings(items: &[&str]) -> Vec<String> {
    items.iter().map(|s| s.to_string()).collect()
}

fn ids_of(summaries: &[SummaryPost]) -> Vec<String> {
    summaries.iter().map(|s| s.id.clone()).collect()
}

fn texts(items: &[&str]) -> Vec<SqlValue> {
    items.iter().map(|s| SqlValue::Text(s.to_string())).collect()
}

#[test]
fn empty_batch_issues_no_query() {
    assert_eq!(PostService::commit_lookup(&Vec::new()), None);
    assert_eq!(PostService::bulk_convert_to_posts(Vec::new(), &Vec::new()), Vec::new());
}

#[test]
fn batch_without_references_issues_no_query() {
    let posts = vec![post("a", None), post("b", Some(vec![]))];
    assert_eq!(PostService::commit_lookup(&posts), None);
}

#[test]
fn batch_of_five_sharing_two_ids_issues_one_query_for_two() {
    let posts = vec![
        post("a", Some(vec!["c1", "c2"])),
        post("b", Some(vec!["c2"])),
        post("c", Some(vec!["c1"])),
        post("d", Some(vec!["c2", "c1"])),
        post("e", Some(vec!["c1", "c1"])),
    ];
    let lookup = PostService::commit_lookup(&posts);
    assert_eq!(
        lookup,
        Some(Statement {
            sql: "SELECT id, date, subject, body FROM commits WHERE id IN (?,?)".to_string(),
            params: texts(&["c1", "c2"]),
        })
    );
}

#[test]
fn referenced_ids_keep_first_mention_order() {
    let posts = vec![
        post("a", Some(vec!["z", "y"])),
        post("b", None),
        post("c", Some(vec!["y", "x", "z"])),
    ];
    assert_eq!(PostService::referenced_commit_ids(&posts), strings(&["z", "y", "x"]));
}

#[test]
fn commits_attach_in_referenced_order() {
    let posts = vec![post("a", Some(vec!["c2", "c1", "c3"]))];
    let commits = vec![
        commit("c1", "2024-01-10"),
        commit("c3", "2024-01-30"),
        commit("c2", "2024-01-20"),
    ];
    let resolved = PostService::bulk_convert_to_posts(posts, &commits);
    assert_eq!(resolved.len(), 1);
    assert_eq!(
        resolved[0].real_commits,
        Some(vec![
            commit("c2", "2024-01-20"),
            commit("c1", "2024-01-10"),
            commit("c3", "2024-01-30"),
        ])
    );
    assert_eq!(resolved[0].last_updated, Some("2024-01-20".to_string()));
    assert_eq!(resolved[0].id, "a");
    assert_eq!(resolved[0].commits, Some(strings(&["c2", "c1", "c3"])));
}

#[test]
fn missing_commits_are_dropped() {
    let posts = vec![post("a", Some(vec!["gone", "c1"]))];
    let commits = vec![commit("c1", "2024-01-10")];
    let resolved = PostService::bulk_convert_to_posts(posts, &commits);
    assert_eq!(resolved[0].real_commits, Some(vec![commit("c1", "2024-01-10")]));
    assert_eq!(resolved[0].last_updated, None);
}

#[test]
fn post_without_references_is_untouched() {
    let posts = vec![post("a", None), post("b", Some(vec![]))];
    let commits = vec![commit("c1", "2024-01-10")];
    let resolved = PostService::bulk_convert_to_posts(posts, &commits);
    assert_eq!(resolved[0], post("a", None));
    assert_eq!(resolved[1].real_commits, Some(Vec::new()));
    assert_eq!(resolved[1].last_updated, None);
}

#[test]
fn later_commit_row_with_same_id_wins() {
    let posts = vec![post("a", Some(vec!["c1"]))];
    let commits = vec![commit("c1", "2024-01-10"), commit("c1", "2024-05-05")];
    let resolved = PostService::bulk_convert_to_posts(posts, &commits);
    assert_eq!(resolved[0].real_commits, Some(vec![commit("c1", "2024-05-05")]));
    assert_eq!(resolved[0].last_updated, Some("2024-05-05".to_string()));
}

#[test]
fn related_follow_rank_not_fetch_order() {
    let neighbours = strings(&["n3", "n1", "n2"]);
    let fetched = vec![summary("n1"), summary("n2"), summary("n3")];
    let related = PostService::get_related_posts("self", RELATED_POSTS, &neighbours, &fetched);
    assert_eq!(ids_of(&related), strings(&["n3", "n1", "n2"]));
    assert_eq!(related[0], summary("n3"));
}

#[test]
fn related_never_hold_the_post_itself() {
    let neighbours = strings(&["self", "n1", "self", "n2"]);
    let fetched = vec![summary("self"), summary("n2"), summary("n1")];
    let related = PostService::get_related_posts("self", 3, &neighbours, &fetched);
    assert_eq!(ids_of(&related), strings(&["n1", "n2"]));
}

#[test]
fn related_are_cut_to_the_limit() {
    let neighbours = strings(&["n1", "n2", "n3", "n4", "n5"]);
    let fetched = vec![
        summary("n5"),
        summary("n4"),
        summary("n3"),
        summary("n2"),
        summary("n1"),
    ];
    let related = PostService::get_related_posts("self", 3, &neighbours, &fetched);
    assert_eq!(ids_of(&related), strings(&["n1", "n2", "n3"]));
    assert!(PostService::get_related_posts("self", 0, &neighbours, &fetched).is_empty());
}

#[test]
fn related_skip_neighbours_without_summary_and_repeats() {
    let neighbours = strings(&["n1", "ghost", "n1", "n2"]);
    let fetched = vec![summary("n2"), summary("n1")];
    let related = PostService::get_related_posts("self", 10, &neighbours, &fetched);
    assert_eq!(ids_of(&related), strings(&["n1", "n2"]));
}

#[test]
fn related_candidates_filter_then_cut() {
    let neighbours = strings(&["self", "a", "b", "c"]);
    assert_eq!(
        PostService::related_candidates("self", 2, &neighbours),
        strings(&["a", "b"])
    );
    assert_eq!(
        PostService::related_candidates("none", 10, &neighbours),
        strings(&["self", "a", "b", "c"])
    );
}

#[test]
fn no_embedding_means_no_neighbour_query() {
    assert_eq!(PostService::neighbours_statement(None, "a", 3), None);
    assert_eq!(PostService::summary_lookup(&Vec::new()), None);
}

#[test]
fn neighbour_statement_binds_embedding_id_and_limit() {
    let statement = PostService::neighbours_statement(Some(vec![1, 2, 3]), "a", 3);
    assert_eq!(
        statement,
        Some(Statement {
            sql: "SELECT id FROM post_embeddings WHERE embedding MATCH ?1 AND id != ?2 ORDER BY distance LIMIT ?3".to_string(),
            params: vec![
                SqlValue::Blob(vec![1, 2, 3]),
                SqlValue::Text("a".to_string()),
                SqlValue::Integer(3),
            ],
        })
    );
    assert_eq!(
        PostService::embedding_statement("a"),
        Statement {
            sql: "SELECT embedding FROM post_embeddings WHERE id = ?".to_string(),
            params: texts(&["a"]),
        }
    );
}

#[test]
fn summary_lookup_binds_every_id() {
    assert_eq!(
        PostService::summary_lookup(&strings(&["x", "y", "z"])),
        Some(Statement {
            sql: "SELECT id, content_type, title, link, via, quote_author, date FROM posts WHERE id IN (?,?,?)".to_string(),
            params: texts(&["x", "y", "z"]),
        })
    );
}

#[test]
fn order_by_rank_uses_last_summary_of_an_id() {
    let mut second = summary("n1");
    second.title = Some("second".to_string());
    let ordered = PostService::order_by_rank(&strings(&["n1"]), &vec![summary("n1"), second]);
    assert_eq!(ordered.len(), 1);
    assert_eq!(ordered[0].title, Some("second".to_string()));
}

fn row(content_type: &str, commits: Option<&str>, tags: Option<&str>) -> PostRow {
    PostRow {
        id: "alpha".to_string(),
        content_type: content_type.to_string(),
        title: Some("T".to_string()),
        link: Some("https://example.org".to_string()),
        via: None,
        quote_author: Some("Q".to_string()),
        date: "2024-03-03".to_string(),
        content: "C".to_string(),
        commits: commits.map(|s| s.to_string()),
        tags: tags.map(|s| s.to_string()),
    }
}

#[test]
fn row_to_post_reads_json_lists() {
    let post = PostService::row_to_post(row("link", Some("[\"c1\", \"c2\"]"), Some("[\"rust\"]")));
    assert_eq!(post.id, "alpha");
    assert_eq!(post.content_type, ContentType::Link);
    assert_eq!(post.title, Some("T".to_string()));
    assert_eq!(post.link, Some("https://example.org".to_string()));
    assert_eq!(post.via, None);
    assert_eq!(post.quote_author, Some("Q".to_string()));
    assert_eq!(post.date, "2024-03-03");
    assert_eq!(post.content, "C");
    assert_eq!(post.commits, Some(strings(&["c1", "c2"])));
    assert_eq!(post.tags, Some(strings(&["rust"])));
    assert_eq!(post.last_updated, None);
    assert_eq!(post.real_commits, None);
    assert_eq!(post.related_posts, None);
}

#[test]
fn row_to_post_treats_bad_json_as_missing() {
    let post = PostService::row_to_post(row("quote", Some("not json"), Some("{\"a\": 1}")));
    assert_eq!(post.content_type, ContentType::Quote);
    assert_eq!(post.commits, None);
    assert_eq!(post.tags, None);
    let empty = PostService::row_to_post(row("post", None, Some("[]")));
    assert_eq!(empty.commits, None);
    assert_eq!(empty.tags, Some(Vec::new()));
}

#[test]
fn content_type_names() {
    assert_eq!(ContentType::from("link".to_string()), ContentType::Link);
    assert_eq!(ContentType::from("quote".to_string()), ContentType::Quote);
    assert_eq!(ContentType::from("special".to_string()), ContentType::Special);
    assert_eq!(ContentType::from("post".to_string()), ContentType::Post);
    assert_eq!(ContentType::from("anything".to_string()), ContentType::Post);
    assert_eq!(String::from(ContentType::Post), "post");
    assert_eq!(String::from(ContentType::Link), "link");
    assert_eq!(String::from(ContentType::Quote), "quote");
    assert_eq!(String::from(ContentType::Special), "special");
    assert_eq!(ContentType::Special.name(), "special");
}

#[test]
fn row_to_summary_post_maps_fields() {
    let summary = PostService::row_to_summary_post(SummaryRow {
        id: "s1".to_string(),
        content_type: "quote".to_string(),
        title: None,
        link: None,
        via: Some("v".to_string()),
        quote_author: Some("someone".to_string()),
        date: "2024-04-04".to_string(),
    });
    assert_eq!(
        summary,
        SummaryPost {
            id: "s1".to_string(),
            content_type: ContentType::Quote,
            title: None,
            link: None,
            via: Some("v".to_string()),
            quote_author: Some("someone".to_string()),
            date: "2024-04-04".to_string(),
        }
    );
}

#[test]
fn found_post_reports_missing_rows() {
    assert_eq!(PostService::found_post(None), Err(StorageError::NotFound));
    let found = PostService::found_post(Some(row("post", None, None)));
    assert_eq!(found.map(|p| p.id), Ok("alpha".to_string()));
}

#[test]
fn paginated_posts_report_page_and_pages() {
    let rows = vec![post("a", Some(vec!["c1"]))];
    let commits = vec![commit("c1", "2024-01-10")];
    let listed = PostService::get_paginated_posts(2, POSTS_PER_PAGE, rows, 25, &commits).unwrap();
    assert_eq!(listed.0.len(), 1);
    assert_eq!(listed.0[0].last_updated, Some("2024-01-10".to_string()));
    assert_eq!(listed.1, 2);
    assert_eq!(listed.2, 3);
}

#[test]
fn page_beyond_last_is_empty_with_correct_page_count() {
    let listed = PostService::get_paginated_posts(9, POSTS_PER_PAGE, Vec::new(), 25, &Vec::new());
    assert_eq!(listed, Ok((Vec::new(), 9, 3)));
    let none = PostService::get_paginated_posts(1, POSTS_PER_PAGE, Vec::new(), 0, &Vec::new());
    assert_eq!(none, Ok((Vec::new(), 1, 0)));
}

#[test]
fn paginated_posts_follow_the_page_size() {
    let listed = PostService::get_paginated_posts(4, 7, Vec::new(), 22, &Vec::new());
    assert_eq!(listed, Ok((Vec::new(), 4, 4)));
    let exact = PostService::get_paginated_posts(1, 7, Vec::new(), 21, &Vec::new());
    assert_eq!(exact, Ok((Vec::new(), 1, 3)));
    assert_eq!(
        PostService::page_statement(4, 7).params,
        vec![SqlValue::Integer(7), SqlValue::Integer(21)]
    );
}

#[test]
fn paginated_posts_reject_impossible_counts() {
    let listed = PostService::get_paginated_posts(1, POSTS_PER_PAGE, Vec::new(), -100, &Vec::new());
    assert!(matches!(listed, Err(StorageError::QueryFailed(_))));
}

#[test]
fn get_post_attaches_related_when_present() {
    let shown = PostService::get_post(post("a", None), Ok(vec![summary("n1")]));
    assert_eq!(shown.related_posts, Some(vec![summary("n1")]));
    assert_eq!(shown.id, "a");
}

#[test]
fn get_post_survives_failed_or_empty_related() {
    let failed = PostService::get_post(
        post("a", None),
        Err(StorageError::QueryFailed("no such table".to_string())),
    );
    assert_eq!(failed, post("a", None));
    let empty = PostService::get_post(post("a", None), Ok(Vec::new()));
    assert_eq!(empty.related_posts, None);
}

#[test]
fn listing_statements_exclude_special_pages() {
    let columns = "posts.id, posts.content_type, posts.title, posts.link, posts.via, posts.quote_author, posts.date, posts.content, posts.commits, posts.tags";
    assert_eq!(
        PostService::recent_statement(MAIN_PAGE_POSTS),
        Statement {
            sql: format!(
                "SELECT {} FROM posts WHERE posts.content_type != 'special' ORDER BY date DESC LIMIT ?",
                columns
            ),
            params: vec![SqlValue::Integer(5)],
        }
    );
    assert_eq!(
        PostService::recent_statement(FEED_POSTS).params,
        vec![SqlValue::Integer(20)]
    );
    assert_eq!(
        PostService::page_statement(3, POSTS_PER_PAGE),
        Statement {
            sql: format!(
                "SELECT {} FROM posts WHERE posts.content_type != 'special' ORDER BY date DESC LIMIT ? OFFSET ?",
                columns
            ),
            params: vec![SqlValue::Integer(POSTS_PER_PAGE as i64), SqlValue::Integer(20)],
        }
    );
    assert_eq!(
        PostService::count_statement(),
        Statement {
            sql: "SELECT COUNT(*) FROM posts WHERE posts.content_type != 'special'".to_string(),
            params: Vec::new(),
        }
    );
    assert_eq!(
        PostService::urls_statement(),
        Statement {
            sql: "SELECT posts.id, posts.date FROM posts WHERE posts.content_type != 'special' ORDER BY date DESC".to_string(),
            params: Vec::new(),
        }
    );
}

#[test]
fn by_id_statement_filters_by_class() {
    let columns = "posts.id, posts.content_type, posts.title, posts.link, posts.via, posts.quote_author, posts.date, posts.content, posts.commits, posts.tags";
    assert_eq!(
        PostService::by_id_statement("about", true),
        Statement {
            sql: format!(
                "SELECT {} FROM posts WHERE posts.id = ? AND posts.content_type = 'special'",
                columns
            ),
            params: texts(&["about"]),
        }
    );
    assert_eq!(
        PostService::by_id_statement("hello", false),
        Statement {
            sql: format!(
                "SELECT {} FROM posts WHERE posts.id = ? AND posts.content_type != 'special'",
                columns
            ),
            params: texts(&["hello"]),
        }
    );
}
