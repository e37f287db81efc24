//! Assembling content entities: batched change-log resolution, related
//! content by similarity rank, and the statements that fetch them.

use vstd::prelude::*;
use vstd::string::*;
use vstd::hash_map::*;
use crate::error::StorageError;
use crate::json::{json_string_list, parse_string_list};
use crate::paging::{page_offset, spec_page_offset, spec_total_pages, total_pages_of_count};
use crate::post::{Commit, CommitView, ContentType, Post, PostView, SummaryPost, SummaryPostView};
use crate::query::{
    render_where,
    spec_admits,
    spec_bound_values,
    spec_text_values,
    spec_where,
    text_values,
    Predicate,
    PredicateView,
    SqlValue,
    SqlValueView,
    Statement,
    StatementView,
};
use crate::text::{repeat_joined, spec_repeat_joined, str_equal};

verus! {

/// The operations on content entities.
pub struct PostService;

/// The columns of one row of the posts, as the database holds them: the
/// content type by its stored name, and the two lists as JSON text.
#[derive(Debug, PartialEq, Eq)]
pub struct PostRow {
    pub id: String,
    pub content_type: String,
    pub title: Option<String>,
    pub link: Option<String>,
    pub via: Option<String>,
    pub quote_author: Option<String>,
    pub date: String,
    pub content: String,
    pub commits: Option<String>,
    pub tags: Option<String>,
}

/// The columns of one row of the posts that a summary is made of.
#[derive(Debug, PartialEq, Eq)]
pub struct SummaryRow {
    pub id: String,
    pub content_type: String,
    pub title: Option<String>,
    pub link: Option<String>,
    pub via: Option<String>,
    pub quote_author: Option<String>,
    pub date: String,
}

/// The number of posts on one page of the listing of all posts.
pub const POSTS_PER_PAGE: u32 = 10;

/// The number of posts on the front page.
pub const MAIN_PAGE_POSTS: u32 = 5;

/// The number of posts in the feed.
pub const FEED_POSTS: u32 = 20;

/// The number of related posts shown with a post.
pub const RELATED_POSTS: usize = 3;

/// The list that a JSON column holds: none where the column is empty or its
/// text is no list of strings.
pub open spec fn spec_list_column(column: Option<String>) -> Option<Seq<Seq<char>>> {
    match column {
        Some(text) => json_string_list(text@),
        None => None,
    }
}

/// The post that a row amounts to, with `commits` and `tags` as the lists
/// read from its two JSON columns. Nothing is attached to it yet.
pub open spec fn spec_post_of_row(
    row: PostRow,
    commits: Option<Seq<Seq<char>>>,
    tags: Option<Seq<Seq<char>>>,
) -> PostView {
    PostView {
        id: row.id@,
        content_type: ContentType::spec_parse(row.content_type@),
        title: row.title.deep_view(),
        link: row.link.deep_view(),
        via: row.via.deep_view(),
        quote_author: row.quote_author.deep_view(),
        date: row.date@,
        last_updated: None,
        content: row.content@,
        commits: commits,
        tags: tags,
        real_commits: None,
        related_posts: None,
    }
}

/// The summary that a row amounts to.
pub open spec fn spec_summary_of_row(row: SummaryRow) -> SummaryPostView {
    SummaryPostView {
        id: row.id@,
        content_type: ContentType::spec_parse(row.content_type@),
        title: row.title.deep_view(),
        link: row.link.deep_view(),
        via: row.via.deep_view(),
        quote_author: row.quote_author.deep_view(),
        date: row.date@,
    }
}

/// The columns that a post is read from.
pub open spec fn spec_post_columns() -> Seq<char> {
    "posts.id, posts.content_type, posts.title, posts.link, posts.via, posts.quote_author, posts.date, posts.content, posts.commits, posts.tags"@
}

/// The statement that fetches whole posts that meet `predicates`, with
/// `tail` after the filter.
pub open spec fn spec_post_select(predicates: Seq<PredicateView>, tail: Seq<char>) -> Seq<char> {
    "SELECT "@ + spec_post_columns() + " FROM posts "@ + spec_where(predicates) + tail
}

/// The conditions of every listing: special pages are kept out.
pub open spec fn spec_listed() -> Seq<PredicateView> {
    seq![PredicateView::NotSpecial]
}

/// The statement that fetches the newest `limit` posts.
pub open spec fn spec_recent_statement(limit: int) -> StatementView {
    StatementView {
        sql: spec_post_select(spec_listed(), " ORDER BY date DESC LIMIT ?"@),
        params: seq![SqlValueView::Integer(limit)],
    }
}

/// The statement that fetches page `page` of the listing of all posts,
/// newest first, `page_size` posts to a page.
pub open spec fn spec_page_statement(page: nat, page_size: nat) -> StatementView {
    StatementView {
        sql: spec_post_select(spec_listed(), " ORDER BY date DESC LIMIT ? OFFSET ?"@),
        params: seq![
            SqlValueView::Integer(page_size as int),
            SqlValueView::Integer(
                if spec_page_offset(page, page_size) <= i64::MAX {
                    spec_page_offset(page, page_size) as int
                } else {
                    i64::MAX as int
                },
            ),
        ],
    }
}

/// The statement that counts the posts of the listing.
pub open spec fn spec_count_statement() -> StatementView {
    StatementView {
        sql: "SELECT COUNT(*) FROM posts "@ + spec_where(spec_listed()),
        params: Seq::empty(),
    }
}

/// The statement that fetches id and date of every post of the listing,
/// newest first.
pub open spec fn spec_urls_statement() -> StatementView {
    StatementView {
        sql: "SELECT posts.id, posts.date FROM posts "@ + spec_where(spec_listed())
            + " ORDER BY date DESC"@,
        params: Seq::empty(),
    }
}

/// The conditions under which one entity is fetched by its id: the id, and
/// whether it is to be a special page or not.
pub open spec fn spec_by_id(id: Seq<char>, special: bool) -> Seq<PredicateView> {
    seq![
        PredicateView::IdIs(id),
        if special {
            PredicateView::OnlySpecial
        } else {
            PredicateView::NotSpecial
        },
    ]
}

/// The statement that fetches the entity `id` of the class asked for.
pub open spec fn spec_by_id_statement(id: Seq<char>, special: bool) -> StatementView {
    StatementView {
        sql: spec_post_select(spec_by_id(id, special), Seq::empty()),
        params: seq![SqlValueView::Text(id)],
    }
}

/// The statement that fetches the embedding of `id`.
pub open spec fn spec_embedding_statement(id: Seq<char>) -> StatementView {
    StatementView {
        sql: "SELECT embedding FROM post_embeddings WHERE id = ?"@,
        params: seq![SqlValueView::Text(id)],
    }
}

/// The statement that fetches the ids of the `limit` nearest neighbours of
/// `embedding` other than `id`, nearest first.
pub open spec fn spec_neighbours_statement(
    embedding: Seq<u8>,
    id: Seq<char>,
    limit: int,
) -> StatementView {
    StatementView {
        sql:
            "SELECT id FROM post_embeddings WHERE embedding MATCH ?1 AND id != ?2 ORDER BY distance LIMIT ?3"@,
        params: seq![
            SqlValueView::Blob(embedding),
            SqlValueView::Text(id),
            SqlValueView::Integer(limit),
        ],
    }
}

/// A post with its related content attached. Where the related content
/// could not be had, or there is none, the post stays as it is.
pub open spec fn spec_with_related(
    post: PostView,
    related: Result<Seq<SummaryPostView>, StorageError>,
) -> PostView {
    match related {
        Ok(list) => if list.len() > 0 {
            PostView { related_posts: Some(list), ..post }
        } else {
            post
        },
        Err(_) => post,
    }
}

/// All change-log ids that `posts` refer to, post after post, repeats kept.
pub open spec fn spec_all_commit_ids(posts: Seq<PostView>) -> Seq<Seq<char>>
    decreases posts.len(),
{
    if posts.len() == 0 {
        Seq::empty()
    } else {
        spec_all_commit_ids(posts.drop_last()) + match posts.last().commits {
            Some(ids) => ids,
            None => Seq::empty(),
        }
    }
}

/// `ids` with every repeat of an earlier id left out.
pub open spec fn spec_distinct(ids: Seq<Seq<char>>) -> Seq<Seq<char>>
    decreases ids.len(),
{
    if ids.len() == 0 {
        Seq::empty()
    } else {
        let head = spec_distinct(ids.drop_last());
        if head.contains(ids.last()) {
            head
        } else {
            head.push(ids.last())
        }
    }
}

/// The statement that fetches the change-log entries with `count` given ids.
pub open spec fn spec_commit_sql(count: nat) -> Seq<char> {
    "SELECT id, date, subject, body FROM commits WHERE id IN ("@ + spec_repeat_joined(
        "?"@,
        ","@,
        count,
    ) + ")"@
}

/// The entries of `commits` by id; of two entries with one id the later one
/// stays.
pub open spec fn spec_commit_map(commits: Seq<CommitView>) -> Map<Seq<char>, CommitView>
    decreases commits.len(),
{
    if commits.len() == 0 {
        Map::empty()
    } else {
        spec_commit_map(commits.drop_last()).insert(commits.last().id, commits.last())
    }
}

/// The entries that `ids` name, in the order of `ids`; an id without an entry
/// is passed over.
pub open spec fn spec_found_commits(
    ids: Seq<Seq<char>>,
    by_id: Map<Seq<char>, CommitView>,
) -> Seq<CommitView>
    decreases ids.len(),
{
    if ids.len() == 0 {
        Seq::empty()
    } else {
        let head = spec_found_commits(ids.drop_last(), by_id);
        if by_id.contains_key(ids.last()) {
            head.push(by_id[ids.last()])
        } else {
            head
        }
    }
}

/// A post with its change-log entries attached. A post that refers to none
/// stays as it is. Otherwise the entries found are attached in the order in
/// which the post refers to them, and the date of the first one referred to,
/// if it was found, becomes the post's last update.
pub open spec fn spec_resolve(post: PostView, by_id: Map<Seq<char>, CommitView>) -> PostView {
    match post.commits {
        None => post,
        Some(ids) => PostView {
            real_commits: Some(spec_found_commits(ids, by_id)),
            last_updated: if ids.len() > 0 && by_id.contains_key(ids[0]) {
                Some(by_id[ids[0]].date)
            } else {
                post.last_updated
            },
            ..post
        },
    }
}

/// `ids` without every occurrence of `id`.
pub open spec fn spec_without(ids: Seq<Seq<char>>, id: Seq<char>) -> Seq<Seq<char>>
    decreases ids.len(),
{
    if ids.len() == 0 {
        Seq::empty()
    } else {
        let head = spec_without(ids.drop_last(), id);
        if ids.last() == id {
            head
        } else {
            head.push(ids.last())
        }
    }
}

/// The neighbours of `id` that may be shown: `neighbours` in their order of
/// rank, without `id` itself, and no more than `limit` of them.
pub open spec fn spec_candidates(
    id: Seq<char>,
    limit: nat,
    neighbours: Seq<Seq<char>>,
) -> Seq<Seq<char>> {
    let others = spec_without(neighbours, id);
    if others.len() <= limit {
        others
    } else {
        others.take(limit as int)
    }
}

/// The summaries of `summaries` by id; of two with one id the later one
/// stays.
pub open spec fn spec_summary_map(summaries: Seq<SummaryPostView>) -> Map<
    Seq<char>,
    SummaryPostView,
>
    decreases summaries.len(),
{
    if summaries.len() == 0 {
        Map::empty()
    } else {
        spec_summary_map(summaries.drop_last()).insert(summaries.last().id, summaries.last())
    }
}

/// The summaries that `ids` name, in the order of `ids`. An id without a
/// summary is passed over, and so is an id that stood in `ids` before.
pub open spec fn spec_ranked(
    ids: Seq<Seq<char>>,
    by_id: Map<Seq<char>, SummaryPostView>,
) -> Seq<SummaryPostView>
    decreases ids.len(),
{
    if ids.len() == 0 {
        Seq::empty()
    } else {
        let head = spec_ranked(ids.drop_last(), by_id);
        if by_id.contains_key(ids.last()) && !ids.drop_last().contains(ids.last()) {
            head.push(by_id[ids.last()])
        } else {
            head
        }
    }
}

/// The places in `ids` whose summaries `spec_ranked` hands out, ascending.
pub open spec fn spec_ranked_places(
    ids: Seq<Seq<char>>,
    by_id: Map<Seq<char>, SummaryPostView>,
) -> Seq<int>
    decreases ids.len(),
{
    if ids.len() == 0 {
        Seq::empty()
    } else {
        let head = spec_ranked_places(ids.drop_last(), by_id);
        if by_id.contains_key(ids.last()) && !ids.drop_last().contains(ids.last()) {
            head.push(ids.len() - 1)
        } else {
            head
        }
    }
}

/// The related content of `id`: the summaries of its candidates, in their
/// order of rank.
pub open spec fn spec_related(
    id: Seq<char>,
    limit: nat,
    neighbours: Seq<Seq<char>>,
    summaries: Seq<SummaryPostView>,
) -> Seq<SummaryPostView> {
    spec_ranked(spec_candidates(id, limit, neighbours), spec_summary_map(summaries))
}

/// The statement that fetches the summaries with `count` given ids.
pub open spec fn spec_summary_sql(count: nat) -> Seq<char> {
    "SELECT id, content_type, title, link, via, quote_author, date FROM posts WHERE id IN ("@
        + spec_repeat_joined("?"@, ","@, count) + ")"@
}

/// The statement that fetches whole posts, with `filter` after the table.
fn post_select(filter: &str) -> (sql: String)
    ensures
        sql@ == "SELECT "@ + spec_post_columns() + " FROM posts "@ + filter@,
{
    let mut sql = String::from_str("SELECT ");
    sql.append(
        "posts.id, posts.content_type, posts.title, posts.link, posts.via, posts.quote_author, posts.date, posts.content, posts.commits, posts.tags",
    );
    sql.append(" FROM posts ");
    sql.append(filter);
    sql
}

/// Whether `ids` holds `id`.
fn contains_id(ids: &Vec<String>, id: &String) -> (found: bool)
    ensures
        found == ids.deep_view().contains(id@),
{
    let mut i: usize = 0;
    while i < ids.len()
        invariant
            i <= ids.len(),
            forall|j: int| 0 <= j < i ==> ids.deep_view()[j] != id@,
        decreases ids.len() - i,
    {
        if ids[i] == *id {
            assert(ids.deep_view()[i as int] == id@);
            return true;
        }
        i += 1;
    }
    false
}

/// Whether `index` holds, under the same ids, the values that `by_id` holds
/// as views.
pub open spec fn spec_indexes<V: View>(index: Map<Seq<char>, V>, by_id: Map<Seq<char>, V::V>) -> bool {
    &&& index.dom() == by_id.dom()
    &&& forall|id: Seq<char>| #[trigger] index.contains_key(id) ==> index[id]@ == by_id[id]
}

/// Every post of `posts` with its change-log entries attached from `commits`.
pub open spec fn spec_resolve_all(posts: Seq<PostView>, commits: Seq<CommitView>) -> Seq<PostView> {
    Seq::new(posts.len(), |i: int| spec_resolve(posts[i], spec_commit_map(commits)))
}

/// The entries of `commits` by id.
fn index_commits(commits: &Vec<Commit>) -> (index: StringHashMap<Commit>)
    ensures
        spec_indexes(index@, spec_commit_map(commits.deep_view())),
{
    let mut index: StringHashMap<Commit> = StringHashMap::new();
    let ghost all = commits.deep_view();
    let mut i: usize = 0;
    assert(index@.dom() =~= spec_commit_map(all.take(0)).dom());
    while i < commits.len()
        invariant
            i <= commits.len(),
            all == commits.deep_view(),
            spec_indexes(index@, spec_commit_map(all.take(i as int))),
        decreases commits.len() - i,
    {
        let entry = commits[i].clone();
        proof {
            assert(all.take(i + 1).drop_last() == all.take(i as int));
            assert(all.take(i + 1).last() == entry@);
        }
        let ghost before = index@;
        let ghost id = entry.id@;
        index.insert(entry.id.clone(), entry);
        proof {
            let target = spec_commit_map(all.take(i + 1));
            assert(index@.dom() =~= target.dom());
            assert forall|k: Seq<char>| #[trigger] index@.contains_key(k) implies index@[k]@
                == target[k] by {
                if k != id {
                    assert(before.contains_key(k));
                }
            }
        }
        i += 1;
    }
    assert(all.take(commits.len() as int) == all);
    index
}

/// The entries of `index` that `ids` name, in the order of `ids`.
fn found_commits(
    ids: &Vec<String>,
    index: &StringHashMap<Commit>,
    Ghost(by_id): Ghost<Map<Seq<char>, CommitView>>,
) -> (found: Vec<Commit>)
    requires
        spec_indexes(index@, by_id),
    ensures
        found.deep_view() == spec_found_commits(ids.deep_view(), by_id),
{
    let mut found: Vec<Commit> = Vec::new();
    let ghost all = ids.deep_view();
    let mut k: usize = 0;
    while k < ids.len()
        invariant
            k <= ids.len(),
            all == ids.deep_view(),
            spec_indexes(index@, by_id),
            found.deep_view() == spec_found_commits(all.take(k as int), by_id),
        decreases ids.len() - k,
    {
        proof {
            assert(all.take(k + 1).drop_last() == all.take(k as int));
            assert(all.take(k + 1).last() == ids[k as int]@);
        }
        match index.get(ids[k].as_str()) {
            Some(entry) => {
                let ghost before = found.deep_view();
                found.push(entry.clone());
                assert(found.deep_view() == before.push(by_id[ids[k as int]@]));
            },
            None => {},
        }
        k += 1;
    }
    assert(all.take(ids.len() as int) == all);
    found
}

/// One post with its change-log entries attached from `index`.
fn resolve_post(
    post: Post,
    index: &StringHashMap<Commit>,
    Ghost(by_id): Ghost<Map<Seq<char>, CommitView>>,
) -> (resolved: Post)
    requires
        spec_indexes(index@, by_id),
    ensures
        resolved@ == spec_resolve(post@, by_id),
{
    let Post {
        id,
        content_type,
        title,
        link,
        via,
        quote_author,
        date,
        last_updated,
        content,
        commits,
        tags,
        real_commits,
        related_posts,
    } = post;
    match commits {
        None => Post {
            id,
            content_type,
            title,
            link,
            via,
            quote_author,
            date,
            last_updated,
            content,
            commits: None,
            tags,
            real_commits,
            related_posts,
        },
        Some(ids) => {
            let found = found_commits(&ids, index, Ghost(by_id));
            let mut updated = last_updated;
            if ids.len() > 0 {
                match index.get(ids[0].as_str()) {
                    Some(first) => {
                        assert(ids.deep_view()[0] == ids[0]@);
                        updated = Some(first.date.clone());
                    },
                    None => {
                        assert(ids.deep_view()[0] == ids[0]@);
                    },
                }
            }
            Post {
                id,
                content_type,
                title,
                link,
                via,
                quote_author,
                date,
                last_updated: updated,
                content,
                commits: Some(ids),
                tags,
                real_commits: Some(found),
                related_posts,
            }
        },
    }
}

/// The summaries of `summaries` by id.
fn index_summaries(summaries: &Vec<SummaryPost>) -> (index: StringHashMap<SummaryPost>)
    ensures
        spec_indexes(index@, spec_summary_map(summaries.deep_view())),
{
    let mut index: StringHashMap<SummaryPost> = StringHashMap::new();
    let ghost all = summaries.deep_view();
    let mut i: usize = 0;
    assert(index@.dom() =~= spec_summary_map(all.take(0)).dom());
    while i < summaries.len()
        invariant
            i <= summaries.len(),
            all == summaries.deep_view(),
            spec_indexes(index@, spec_summary_map(all.take(i as int))),
        decreases summaries.len() - i,
    {
        let entry = summaries[i].clone();
        proof {
            assert(all.take(i + 1).drop_last() == all.take(i as int));
            assert(all.take(i + 1).last() == entry@);
        }
        let ghost before = index@;
        let ghost id = entry.id@;
        index.insert(entry.id.clone(), entry);
        proof {
            let target = spec_summary_map(all.take(i + 1));
            assert(index@.dom() =~= target.dom());
            assert forall|k: Seq<char>| #[trigger] index@.contains_key(k) implies index@[k]@
                == target[k] by {
                if k != id {
                    assert(before.contains_key(k));
                }
            }
        }
        i += 1;
    }
    assert(all.take(summaries.len() as int) == all);
    index
}

impl PostService {
    /// The distinct change-log ids that `posts` refer to, each at the place
    /// of its first mention.
    pub fn referenced_commit_ids(posts: &Vec<Post>) -> (ids: Vec<String>)
        ensures
            ids.deep_view() == spec_distinct(spec_all_commit_ids(posts.deep_view())),
    {
        let mut ids: Vec<String> = Vec::new();
        let ghost all = posts.deep_view();
        let mut p: usize = 0;
        while p < posts.len()
            invariant
                p <= posts.len(),
                all == posts.deep_view(),
                ids.deep_view() == spec_distinct(spec_all_commit_ids(all.take(p as int))),
            decreases posts.len() - p,
        {
            let ghost before = spec_all_commit_ids(all.take(p as int));
            proof {
                assert(all.take(p + 1).drop_last() == all.take(p as int));
                assert(all.take(p + 1).last() == posts[p as int]@);
            }
            match &posts[p].commits {
                None => {
                    assert(before + Seq::<Seq<char>>::empty() == before);
                },
                Some(mentioned) => {
                    let ghost own = mentioned.deep_view();
                    let mut k: usize = 0;
                    assert(before + own.take(0) == before);
                    while k < mentioned.len()
                        invariant
                            k <= mentioned.len(),
                            own == mentioned.deep_view(),
                            ids.deep_view() == spec_distinct(before + own.take(k as int)),
                        decreases mentioned.len() - k,
                    {
                        proof {
                            let so_far = before + own.take(k as int);
                            let next = before + own.take(k + 1);
                            assert(next.drop_last() == so_far);
                            assert(next.last() == mentioned[k as int]@);
                        }
                        if !contains_id(&ids, &mentioned[k]) {
                            let ghost old_ids = ids.deep_view();
                            ids.push(mentioned[k].clone());
                            assert(ids.deep_view() == old_ids.push(mentioned[k as int]@));
                        }
                        k += 1;
                    }
                    assert(own.take(mentioned.len() as int) == own);
                },
            }
            p += 1;
        }
        assert(all.take(posts.len() as int) == all);
        ids
    }

    /// The one statement that fetches every change-log entry `posts` refer
    /// to, or `None` where they refer to none and nothing is to be fetched.
    pub fn commit_lookup(posts: &Vec<Post>) -> (lookup: Option<Statement>)
        ensures
            lookup is None <==> spec_all_commit_ids(posts.deep_view()).len() == 0,
            lookup matches Some(statement) ==> {
                let ids = spec_distinct(spec_all_commit_ids(posts.deep_view()));
                &&& statement@.sql == spec_commit_sql(ids.len())
                &&& statement@.params == spec_text_values(ids)
            },
    {
        let ids = PostService::referenced_commit_ids(posts);
        proof {
            lemma_distinct_empty(spec_all_commit_ids(posts.deep_view()));
        }
        if ids.len() == 0 {
            return None;
        }
        let marks = repeat_joined("?", ",", ids.len());
        let mut sql = String::from_str("SELECT id, date, subject, body FROM commits WHERE id IN (");
        sql.append(marks.as_str());
        sql.append(")");
        let params = text_values(&ids);
        Some(Statement { sql, params })
    }

    /// Attaches to every post of `posts` the change-log entries it refers to,
    /// taken from `commits`, the rows that the statement of `commit_lookup`
    /// brought. Entries are attached in the order in which the post refers to
    /// them; an id without a row is passed over.
    pub fn bulk_convert_to_posts(posts: Vec<Post>, commits: &Vec<Commit>) -> (resolved: Vec<Post>)
        ensures
            resolved.deep_view() == spec_resolve_all(posts.deep_view(), commits.deep_view()),
    {
        let index = index_commits(commits);
        let ghost by_id = spec_commit_map(commits.deep_view());
        let ghost all = posts.deep_view();
        let mut resolved: Vec<Post> = Vec::new();
        for post in it: posts
            invariant
                it.seq().len() == all.len(),
                forall|j: int| 0 <= j < all.len() ==> it.seq()[j]@ == all[j],
                by_id == spec_commit_map(commits.deep_view()),
                spec_indexes(index@, by_id),
                resolved.len() == it.index(),
                forall|j: int| 0 <= j < it.index() ==> resolved[j]@ == spec_resolve(all[j], by_id),
        {
            let done = resolve_post(post, &index, Ghost(by_id));
            resolved.push(done);
        }
        assert(resolved.deep_view() =~= spec_resolve_all(all, commits.deep_view()));
        resolved
    }

    /// The neighbours of `id` that may be shown as related: `neighbours`,
    /// which come ordered by distance, without `id` itself and cut to `limit`.
    pub fn related_candidates(id: &str, limit: usize, neighbours: &Vec<String>) -> (candidates: Vec<
        String,
    >)
        ensures
            candidates.deep_view() == spec_candidates(id@, limit as nat, neighbours.deep_view()),
    {
        let mut candidates: Vec<String> = Vec::new();
        let ghost all = neighbours.deep_view();
        let mut k: usize = 0;
        while k < neighbours.len()
            invariant
                k <= neighbours.len(),
                all == neighbours.deep_view(),
                candidates.deep_view() == spec_candidates(id@, limit as nat, all.take(k as int)),
            decreases neighbours.len() - k,
        {
            proof {
                assert(all.take(k + 1).drop_last() == all.take(k as int));
                assert(all.take(k + 1).last() == neighbours[k as int]@);
            }
            let ghost others = spec_without(all.take(k as int), id@);
            if !str_equal(neighbours[k].as_str(), id) && candidates.len() < limit {
                let ghost before = candidates.deep_view();
                candidates.push(neighbours[k].clone());
                proof {
                    assert(candidates.deep_view() == before.push(neighbours[k as int]@));
                    assert(before == others);
                }
            } else {
                proof {
                    if neighbours[k as int]@ != id@ {
                        let more = others.push(neighbours[k as int]@);
                        assert(more.take(limit as int) == others.take(limit as int));
                        if others.len() == limit {
                            assert(others.take(limit as int) == others);
                        }
                    }
                }
            }
            k += 1;
        }
        assert(all.take(neighbours.len() as int) == all);
        candidates
    }

    /// The one statement that fetches the summaries of `ids`, or `None`
    /// where `ids` is empty and nothing is to be fetched.
    pub fn summary_lookup(ids: &Vec<String>) -> (lookup: Option<Statement>)
        ensures
            lookup is None <==> ids.len() == 0,
            lookup matches Some(statement) ==> {
                &&& statement@.sql == spec_summary_sql(ids.len() as nat)
                &&& statement@.params == spec_text_values(ids.deep_view())
            },
    {
        if ids.len() == 0 {
            return None;
        }
        let marks = repeat_joined("?", ",", ids.len());
        let mut sql = String::from_str(
            "SELECT id, content_type, title, link, via, quote_author, date FROM posts WHERE id IN (",
        );
        sql.append(marks.as_str());
        sql.append(")");
        let params = text_values(ids);
        Some(Statement { sql, params })
    }

    /// The summaries that `ranked` names, in the order of `ranked`, whatever
    /// the order of `summaries` is. Each summary is handed out once.
    pub fn order_by_rank(ranked: &Vec<String>, summaries: &Vec<SummaryPost>) -> (ordered: Vec<
        SummaryPost,
    >)
        ensures
            ordered.deep_view() == spec_ranked(
                ranked.deep_view(),
                spec_summary_map(summaries.deep_view()),
            ),
    {
        let mut index = index_summaries(summaries);
        let ghost by_id = spec_summary_map(summaries.deep_view());
        let ghost ids = ranked.deep_view();
        let mut ordered: Vec<SummaryPost> = Vec::new();
        let mut k: usize = 0;
        while k < ranked.len()
            invariant
                k <= ranked.len(),
                ids == ranked.deep_view(),
                forall|id: Seq<char>| #[trigger]
                    index@.contains_key(id) <==> by_id.contains_key(id) && !ids.take(
                        k as int,
                    ).contains(id),
                forall|id: Seq<char>| #[trigger] index@.contains_key(id) ==> index@[id]@ == by_id[id],
                ordered.deep_view() == spec_ranked(ids.take(k as int), by_id),
            decreases ranked.len() - k,
        {
            proof {
                assert(ids.take(k + 1).drop_last() == ids.take(k as int));
                assert(ids.take(k + 1).last() == ranked[k as int]@);
            }
            let ghost here = ranked[k as int]@;
            let hit = match index.get(ranked[k].as_str()) {
                Some(summary) => Some(summary.clone()),
                None => None,
            };
            match hit {
                Some(summary) => {
                    let ghost before = ordered.deep_view();
                    ordered.push(summary);
                    assert(ordered.deep_view() == before.push(by_id[here]));
                    index.remove(ranked[k].as_str());
                },
                None => {},
            }
            proof {
                let seen = ids.take(k as int);
                let seen_now = ids.take(k + 1);
                assert forall|id: Seq<char>| #[trigger]
                    index@.contains_key(id) <==> by_id.contains_key(id) && !seen_now.contains(
                        id,
                    ) by {
                    if seen_now.contains(id) {
                        let j = choose|j: int| 0 <= j < seen_now.len() && seen_now[j] == id;
                        if j < k {
                            assert(seen[j] == id);
                        }
                    }
                    if seen.contains(id) {
                        let j = choose|j: int| 0 <= j < seen.len() && seen[j] == id;
                        assert(seen_now[j] == id);
                    }
                    if id == here {
                        assert(seen_now[k as int] == id);
                    }
                }
            }
            k += 1;
        }
        assert(ids.take(ranked.len() as int) == ids);
        ordered
    }

    /// The related content of `id`: the summaries of its nearest neighbours,
    /// nearest first. `neighbours` are the ids that the similarity search
    /// brought, ordered by distance, and `summaries` the rows fetched for
    /// them, in any order. `id` itself is never among the result, and the
    /// result holds no more than `limit` summaries.
    pub fn get_related_posts(
        id: &str,
        limit: usize,
        neighbours: &Vec<String>,
        summaries: &Vec<SummaryPost>,
    ) -> (related: Vec<SummaryPost>)
        ensures
            related.deep_view() == spec_related(
                id@,
                limit as nat,
                neighbours.deep_view(),
                summaries.deep_view(),
            ),
            related.len() <= limit,
            forall|i: int| 0 <= i < related.len() ==> related[i].id@ != id@,
    {
        let candidates = PostService::related_candidates(id, limit, neighbours);
        let related = PostService::order_by_rank(&candidates, summaries);
        proof {
            lemma_related_follows_rank(
                id@,
                limit as nat,
                neighbours.deep_view(),
                summaries.deep_view(),
            );
            assert forall|i: int| 0 <= i < related.len() implies related[i].id@ != id@ by {
                assert(related.deep_view()[i].id == related[i].id@);
            }
        }
        related
    }

    /// The post that `row` holds, with `commits` and `tags` as the lists that
    /// were read from its JSON columns.
    pub fn post_from_row(row: PostRow, commits: Option<Vec<String>>, tags: Option<Vec<String>>) -> (post:
        Post)
        ensures
            post@ == spec_post_of_row(row, commits.deep_view(), tags.deep_view()),
    {
        let PostRow { id, content_type, title, link, via, quote_author, date, content, commits: _, tags: _ } =
            row;
        Post {
            id,
            content_type: ContentType::from(content_type),
            title,
            link,
            via,
            quote_author,
            date,
            last_updated: None,
            content,
            commits,
            tags,
            real_commits: None,
            related_posts: None,
        }
    }

    /// The post that `row` holds. Its two lists are read from the JSON text
    /// of their columns; a column whose text is no list of strings counts as
    /// empty.
    pub fn row_to_post(row: PostRow) -> (post: Post)
        ensures
            post@ == spec_post_of_row(
                row,
                spec_list_column(row.commits),
                spec_list_column(row.tags),
            ),
    {
        let commits = match &row.commits {
            Some(text) => parse_string_list(text.as_str()),
            None => None,
        };
        let tags = match &row.tags {
            Some(text) => parse_string_list(text.as_str()),
            None => None,
        };
        PostService::post_from_row(row, commits, tags)
    }

    /// The summary that `row` holds.
    pub fn row_to_summary_post(row: SummaryRow) -> (summary: SummaryPost)
        ensures
            summary@ == spec_summary_of_row(row),
    {
        let SummaryRow { id, content_type, title, link, via, quote_author, date } = row;
        SummaryPost {
            id,
            content_type: ContentType::from(content_type),
            title,
            link,
            via,
            quote_author,
            date,
        }
    }

    /// The statement that fetches the newest `limit` posts, special pages
    /// left out.
    pub fn recent_statement(limit: u32) -> (statement: Statement)
        ensures
            statement@ == spec_recent_statement(limit as int),
    {
        let mut predicates: Vec<Predicate> = Vec::new();
        predicates.push(Predicate::NotSpecial);
        assert(predicates.deep_view() =~= spec_listed());
        let (filter, _) = render_where(&predicates);
        let mut sql = post_select(filter.as_str());
        sql.append(" ORDER BY date DESC LIMIT ?");
        let mut params: Vec<SqlValue> = Vec::new();
        params.push(SqlValue::Integer(limit as i64));
        assert(params.deep_view() =~= seq![SqlValueView::Integer(limit as int)]);
        assert(sql@ =~= spec_recent_statement(limit as int).sql);
        Statement { sql, params }
    }

    /// The statement that fetches page `page` of the listing of all posts,
    /// newest first, special pages left out, `page_size` posts to a page.
    /// Pages count from 1, and page `page` starts after
    /// `(page - 1) * page_size` posts.
    pub fn page_statement(page: usize, page_size: u32) -> (statement: Statement)
        ensures
            statement@ == spec_page_statement(page as nat, page_size as nat),
    {
        let mut predicates: Vec<Predicate> = Vec::new();
        predicates.push(Predicate::NotSpecial);
        assert(predicates.deep_view() =~= spec_listed());
        let (filter, _) = render_where(&predicates);
        let mut sql = post_select(filter.as_str());
        sql.append(" ORDER BY date DESC LIMIT ? OFFSET ?");
        let mut params: Vec<SqlValue> = Vec::new();
        params.push(SqlValue::Integer(page_size as i64));
        params.push(SqlValue::Integer(page_offset(page, page_size as usize)));
        assert(params.deep_view() =~= spec_page_statement(page as nat, page_size as nat).params);
        assert(sql@ =~= spec_page_statement(page as nat, page_size as nat).sql);
        Statement { sql, params }
    }

    /// The statement that counts the posts of the listing.
    pub fn count_statement() -> (statement: Statement)
        ensures
            statement@ == spec_count_statement(),
    {
        let mut predicates: Vec<Predicate> = Vec::new();
        predicates.push(Predicate::NotSpecial);
        assert(predicates.deep_view() =~= spec_listed());
        let (filter, _) = render_where(&predicates);
        let mut sql = String::from_str("SELECT COUNT(*) FROM posts ");
        sql.append(filter.as_str());
        let params: Vec<SqlValue> = Vec::new();
        assert(params.deep_view() =~= Seq::<SqlValueView>::empty());
        Statement { sql, params }
    }

    /// The statement that fetches id and date of every post of the listing,
    /// newest first.
    pub fn urls_statement() -> (statement: Statement)
        ensures
            statement@ == spec_urls_statement(),
    {
        let mut predicates: Vec<Predicate> = Vec::new();
        predicates.push(Predicate::NotSpecial);
        assert(predicates.deep_view() =~= spec_listed());
        let (filter, _) = render_where(&predicates);
        let mut sql = String::from_str("SELECT posts.id, posts.date FROM posts ");
        sql.append(filter.as_str());
        sql.append(" ORDER BY date DESC");
        let params: Vec<SqlValue> = Vec::new();
        assert(params.deep_view() =~= Seq::<SqlValueView>::empty());
        assert(sql@ =~= spec_urls_statement().sql);
        Statement { sql, params }
    }

    /// The statement that fetches the one entity with `id`: a special page
    /// where `special` is set, and anything but a special page where it is
    /// not.
    pub fn by_id_statement(id: &str, special: bool) -> (statement: Statement)
        ensures
            statement@ == spec_by_id_statement(id@, special),
    {
        let mut predicates: Vec<Predicate> = Vec::new();
        predicates.push(Predicate::IdIs(id.to_owned()));
        if special {
            predicates.push(Predicate::OnlySpecial);
        } else {
            predicates.push(Predicate::NotSpecial);
        }
        assert(predicates.deep_view() =~= spec_by_id(id@, special));
        let (filter, params) = render_where(&predicates);
        let sql = post_select(filter.as_str());
        proof {
            let asked = spec_by_id(id@, special);
            let first = asked.drop_last();
            assert(first =~= seq![PredicateView::IdIs(id@)]);
            assert(first.drop_last() =~= Seq::<PredicateView>::empty());
            assert(spec_bound_values(first.drop_last()) =~= Seq::<SqlValueView>::empty());
            assert(first.last().values() =~= seq![SqlValueView::Text(id@)]);
            assert(spec_bound_values(first) =~= seq![SqlValueView::Text(id@)]);
            assert(asked.last().values() =~= Seq::<SqlValueView>::empty());
            assert(spec_bound_values(asked) =~= seq![SqlValueView::Text(id@)]);
            assert(sql@ =~= spec_by_id_statement(id@, special).sql);
        }
        Statement { sql, params }
    }

    /// The post that a fetch by id brought: the post of the row, or the news
    /// that there is none. A missing row is no failure of the database.
    pub fn found_post(row: Option<PostRow>) -> (found: Result<Post, StorageError>)
        ensures
            row is None <==> found is Err,
            found matches Err(e) ==> e == StorageError::NotFound,
            found matches Ok(post) ==> post@ == spec_post_of_row(
                row->0,
                spec_list_column(row->0.commits),
                spec_list_column(row->0.tags),
            ),
    {
        match row {
            Some(row) => Ok(PostService::row_to_post(row)),
            None => Err(StorageError::NotFound),
        }
    }

    /// The statement that fetches the embedding of `id`.
    pub fn embedding_statement(id: &str) -> (statement: Statement)
        ensures
            statement@ == spec_embedding_statement(id@),
    {
        let mut params: Vec<SqlValue> = Vec::new();
        params.push(SqlValue::Text(id.to_owned()));
        assert(params.deep_view() =~= seq![SqlValueView::Text(id@)]);
        Statement {
            sql: String::from_str("SELECT embedding FROM post_embeddings WHERE id = ?"),
            params,
        }
    }

    /// The statement that fetches the ids of the nearest neighbours of
    /// `embedding`, nearest first: no more than `limit`, and `id` not among
    /// them. Where `id` has no embedding there is nothing to ask for.
    pub fn neighbours_statement(embedding: Option<Vec<u8>>, id: &str, limit: usize) -> (lookup: Option<
        Statement,
    >)
        ensures
            embedding is None <==> lookup is None,
            lookup matches Some(statement) ==> statement@ == spec_neighbours_statement(
                embedding->0@,
                id@,
                if limit <= i64::MAX {
                    limit as int
                } else {
                    i64::MAX as int
                },
            ),
    {
        match embedding {
            None => None,
            Some(bytes) => {
                let wide: u64 = limit as u64;
                let most: u64 = i64::MAX as u64;
                let bound: i64 = if wide > most {
                    i64::MAX
                } else {
                    wide as i64
                };
                let ghost blob = bytes@;
                let mut params: Vec<SqlValue> = Vec::new();
                params.push(SqlValue::Blob(bytes));
                params.push(SqlValue::Text(id.to_owned()));
                params.push(SqlValue::Integer(bound));
                assert(params.deep_view() =~= seq![
                    SqlValueView::Blob(blob),
                    SqlValueView::Text(id@),
                    SqlValueView::Integer(bound as int),
                ]);
                Some(
                    Statement {
                        sql: String::from_str(
                            "SELECT id FROM post_embeddings WHERE embedding MATCH ?1 AND id != ?2 ORDER BY distance LIMIT ?3",
                        ),
                        params,
                    },
                )
            },
        }
    }

    /// One page of the listing of all posts: the posts of the page with
    /// their change-log entries attached, the page asked for, and the number
    /// of pages of the listing, which is `total_posts / page_size` rounded
    /// up. `rows` are the posts that the statement of the page brought,
    /// `total_posts` is the count of the listing, and `commits` are the rows
    /// that the statement of `commit_lookup` brought. A page beyond the last
    /// one is no failure: it is a page without posts, and the number of
    /// pages is the same as on every other page. It fails where the number
    /// of pages is no `usize`.
    pub fn get_paginated_posts(
        page: usize,
        page_size: u32,
        rows: Vec<Post>,
        total_posts: i64,
        commits: &Vec<Commit>,
    ) -> (listed: Result<(Vec<Post>, usize, usize), StorageError>)
        requires
            page_size > 0,
        ensures
            listed is Ok <==> 0 <= spec_total_pages(total_posts as int, page_size as int)
                <= usize::MAX,
            listed matches Ok(shown) ==> {
                &&& shown.0.deep_view() == spec_resolve_all(rows.deep_view(), commits.deep_view())
                &&& shown.1 == page
                &&& shown.2 == spec_total_pages(total_posts as int, page_size as int)
            },
            listed matches Err(e) ==> e matches StorageError::QueryFailed(detail) && detail@
                == "Total pages exceeds usize range"@,
    {
        match total_pages_of_count(total_posts, page_size) {
            Ok(pages) => {
                let posts = PostService::bulk_convert_to_posts(rows, commits);
                Ok((posts, page, pages))
            },
            Err(e) => Err(e),
        }
    }

    /// The post of a page of its own: `post`, resolved, with its related
    /// content attached. Related content is an extra: where it could not be
    /// had, and where there is none, the post is handed out without it.
    pub fn get_post(post: Post, related: Result<Vec<SummaryPost>, StorageError>) -> (shown: Post)
        ensures
            shown@ == spec_with_related(
                post@,
                match related {
                    Ok(list) => Ok(list.deep_view()),
                    Err(e) => Err(e),
                },
            ),
    {
        match related {
            Ok(list) => {
                if list.len() > 0 {
                    let Post {
                        id,
                        content_type,
                        title,
                        link,
                        via,
                        quote_author,
                        date,
                        last_updated,
                        content,
                        commits,
                        tags,
                        real_commits,
                        related_posts: _,
                    } = post;
                    Post {
                        id,
                        content_type,
                        title,
                        link,
                        via,
                        quote_author,
                        date,
                        last_updated,
                        content,
                        commits,
                        tags,
                        real_commits,
                        related_posts: Some(list),
                    }
                } else {
                    post
                }
            },
            Err(_) => post,
        }
    }
}

/// No listing shows a special page, and a fetch by id brings a special page
/// only where one is asked for: the conditions of the listings, and those
/// of a fetch of anything but a special page, let no row pass that is stored
/// as a special page, whatever its id is; the conditions of a fetch of a
/// special page let no other row pass.
pub proof fn lemma_listings_exclude_special(id: Seq<char>, stored: Seq<char>)
    ensures
        !spec_admits(spec_listed(), "special"@),
        !spec_admits(spec_by_id(id, false), "special"@),
        spec_admits(spec_by_id(id, true), stored) <==> stored == "special"@,
        stored != "special"@ ==> spec_admits(spec_listed(), stored) && spec_admits(
            spec_by_id(id, false),
            stored,
        ),
{
    assert(!spec_listed()[0].admits("special"@));
    assert(!spec_by_id(id, false)[1].admits("special"@));
    if spec_admits(spec_by_id(id, true), stored) {
        assert(spec_by_id(id, true)[1].admits(stored));
    }
}

/// Leaving out repeats empties no list and fills none.
pub proof fn lemma_distinct_empty(ids: Seq<Seq<char>>)
    ensures
        spec_distinct(ids).len() == 0 <==> ids.len() == 0,
    decreases ids.len(),
{
    if ids.len() > 0 {
        lemma_distinct_empty(ids.drop_last());
    }
}

/// One lookup asks for every change-log entry once: the ids it binds are
/// the ids that the posts refer to, none left out, none added and none
/// twice, however many posts refer to an entry.
pub proof fn lemma_distinct(ids: Seq<Seq<char>>)
    ensures
        spec_distinct(ids).no_duplicates(),
        forall|id: Seq<char>|
            #![trigger spec_distinct(ids).contains(id)]
            #![trigger ids.contains(id)]
            spec_distinct(ids).contains(id) <==> ids.contains(id),
        spec_distinct(ids).len() <= ids.len(),
    decreases ids.len(),
{
    if ids.len() > 0 {
        let rest = ids.drop_last();
        let last = ids.last();
        let head = spec_distinct(rest);
        lemma_distinct(rest);
        assert forall|id: Seq<char>|
            #![trigger spec_distinct(ids).contains(id)]
            #![trigger ids.contains(id)]
            spec_distinct(ids).contains(id) <==> ids.contains(id) by {
            if ids.contains(id) {
                let i = choose|i: int| 0 <= i < ids.len() && ids[i] == id;
                if i < rest.len() {
                    assert(rest[i] == id);
                    assert(head.contains(id));
                    let j = choose|j: int| 0 <= j < head.len() && head[j] == id;
                    assert(spec_distinct(ids)[j] == id);
                } else {
                    if !head.contains(last) {
                        assert(spec_distinct(ids)[head.len() as int] == id);
                    }
                }
            }
            if spec_distinct(ids).contains(id) {
                let j = choose|j: int| 0 <= j < spec_distinct(ids).len() && spec_distinct(ids)[j] == id;
                if j < head.len() {
                    assert(head[j] == id);
                    assert(rest.contains(id));
                    let i = choose|i: int| 0 <= i < rest.len() && rest[i] == id;
                    assert(ids[i] == id);
                } else {
                    assert(ids[ids.len() - 1] == id);
                }
            }
        }
    }
}

/// Whether `places` picks `part` out of `whole` from left to right: one
/// place for each item of `part`, each place further right than the one
/// before.
pub open spec fn spec_picks<A>(places: Seq<int>, part: Seq<A>, whole: Seq<A>) -> bool {
    &&& places.len() == part.len()
    &&& forall|i: int| 0 <= i < places.len() ==> 0 <= #[trigger] places[i] < whole.len()
    &&& forall|i: int| 0 <= i < places.len() ==> whole[#[trigger] places[i]] == part[i]
    &&& forall|i: int, j: int| 0 <= i < j < places.len() ==> #[trigger] places[i] < #[trigger] places[j]
}

/// The places in `ids` of the items that `spec_without` keeps.
pub open spec fn spec_without_places(ids: Seq<Seq<char>>, id: Seq<char>) -> Seq<int>
    decreases ids.len(),
{
    if ids.len() == 0 {
        Seq::empty()
    } else {
        let head = spec_without_places(ids.drop_last(), id);
        if ids.last() == id {
            head
        } else {
            head.push(ids.len() - 1)
        }
    }
}

/// What `spec_without` keeps stands in `ids` in the same order, and `id` is
/// not among it.
pub proof fn lemma_without(ids: Seq<Seq<char>>, id: Seq<char>)
    ensures
        spec_picks(spec_without_places(ids, id), spec_without(ids, id), ids),
        !spec_without(ids, id).contains(id),
    decreases ids.len(),
{
    if ids.len() > 0 {
        lemma_without(ids.drop_last(), id);
        let head = spec_without(ids.drop_last(), id);
        let head_places = spec_without_places(ids.drop_last(), id);
        assert forall|i: int| 0 <= i < head.len() implies ids[#[trigger] head_places[i]]
            == head[i] by {
            assert(ids.drop_last()[head_places[i]] == head[i]);
        }
    }
}

/// Each summary stands in the map under its own id.
pub proof fn lemma_summary_map_keys(summaries: Seq<SummaryPostView>)
    ensures
        forall|id: Seq<char>| #[trigger]
            spec_summary_map(summaries).contains_key(id) ==> spec_summary_map(summaries)[id].id
                == id,
    decreases summaries.len(),
{
    if summaries.len() > 0 {
        lemma_summary_map_keys(summaries.drop_last());
    }
}

/// What `spec_ranked` hands out are the summaries at `spec_ranked_places`,
/// from left to right.
pub proof fn lemma_ranked(ids: Seq<Seq<char>>, by_id: Map<Seq<char>, SummaryPostView>)
    ensures
        ({
            let places = spec_ranked_places(ids, by_id);
            let ranked = spec_ranked(ids, by_id);
            &&& places.len() == ranked.len()
            &&& ranked.len() <= ids.len()
            &&& forall|i: int| 0 <= i < places.len() ==> 0 <= #[trigger] places[i] < ids.len()
            &&& forall|i: int|
                0 <= i < places.len() ==> by_id.contains_key(ids[#[trigger] places[i]])
                    && ranked[i] == by_id[ids[places[i]]]
            &&& forall|i: int, j: int|
                0 <= i < j < places.len() ==> #[trigger] places[i] < #[trigger] places[j]
        }),
    decreases ids.len(),
{
    if ids.len() > 0 {
        lemma_ranked(ids.drop_last(), by_id);
        let head_places = spec_ranked_places(ids.drop_last(), by_id);
        let head = spec_ranked(ids.drop_last(), by_id);
        assert forall|i: int| 0 <= i < head_places.len() implies by_id.contains_key(
            ids[#[trigger] head_places[i]],
        ) && head[i] == by_id[ids[head_places[i]]] by {
            assert(ids.drop_last()[head_places[i]] == ids[head_places[i]]);
        }
    }
}

/// The places in `neighbours` of the related content of `id`, one for each
/// summary of `spec_related`.
pub open spec fn spec_related_places(
    id: Seq<char>,
    limit: nat,
    neighbours: Seq<Seq<char>>,
    summaries: Seq<SummaryPostView>,
) -> Seq<int> {
    let kept = spec_without_places(neighbours, id);
    let ranked = spec_ranked_places(
        spec_candidates(id, limit, neighbours),
        spec_summary_map(summaries),
    );
    Seq::new(ranked.len(), |i: int| kept[ranked[i]])
}

/// Related content follows the similarity rank. The summaries handed out are
/// at most `limit`, none of them is the summary of `id` itself, and they
/// stand in the order in which their ids stand in `neighbours`, whatever the
/// order in which the summaries were fetched.
pub proof fn lemma_related_follows_rank(
    id: Seq<char>,
    limit: nat,
    neighbours: Seq<Seq<char>>,
    summaries: Seq<SummaryPostView>,
)
    ensures
        ({
            let related = spec_related(id, limit, neighbours, summaries);
            let places = spec_related_places(id, limit, neighbours, summaries);
            &&& related.len() <= limit
            &&& forall|i: int| 0 <= i < related.len() ==> (#[trigger] related[i]).id != id
            &&& places.len() == related.len()
            &&& forall|i: int| 0 <= i < places.len() ==> 0 <= #[trigger] places[i] < neighbours.len()
            &&& forall|i: int|
                0 <= i < places.len() ==> neighbours[#[trigger] places[i]] == related[i].id
            &&& forall|i: int, j: int|
                0 <= i < j < places.len() ==> #[trigger] places[i] < #[trigger] places[j]
        }),
{
    let others = spec_without(neighbours, id);
    let kept = spec_without_places(neighbours, id);
    let candidates = spec_candidates(id, limit, neighbours);
    let by_id = spec_summary_map(summaries);
    let related = spec_related(id, limit, neighbours, summaries);
    let ranked = spec_ranked_places(candidates, by_id);
    let places = spec_related_places(id, limit, neighbours, summaries);
    lemma_without(neighbours, id);
    lemma_summary_map_keys(summaries);
    lemma_ranked(candidates, by_id);
    assert forall|i: int| 0 <= i < candidates.len() implies candidates[i] == others[i]
        && candidates[i] != id by {
        assert(others.contains(others[i]));
    }
    assert forall|i: int| 0 <= i < related.len() implies (#[trigger] related[i]).id != id by {
        assert(related[i] == by_id[candidates[ranked[i]]]);
    }
    assert forall|i: int| 0 <= i < places.len() implies 0 <= #[trigger] places[i]
        < neighbours.len() && neighbours[places[i]] == related[i].id by {
        assert(places[i] == kept[ranked[i]]);
        assert(related[i] == by_id[candidates[ranked[i]]]);
    }
    assert forall|i: int, j: int| 0 <= i < j < places.len() implies #[trigger] places[i]
        < #[trigger] places[j] by {
        assert(ranked[i] < ranked[j]);
        assert(kept[ranked[i]] < kept[ranked[j]]);
    }
}

} // verus!
