//! What the requests of the site ask for, and what is checked of them
//! before storage is touched.

use vstd::prelude::*;
use vstd::string::*;
use crate::dates::{rewrite_rfc3339, rfc3339_rewritten};
use crate::error::StorageError;
use crate::text::{after_last, contains_char, spec_after_last, str_equal};

verus! {

/// The number of results on one page of a search.
pub const SEARCH_PER_PAGE: usize = 10;

/// The longest id of a post or an image that is looked up, in bytes.
pub const MAX_ID_BYTES: usize = 100;

/// The longest name of a database file that is switched to, in bytes.
pub const MAX_FILENAME_BYTES: usize = 200;

/// The parameters of a search request.
#[derive(Debug, PartialEq, Eq)]
pub struct SearchParams {
    pub q: Option<String>,
    pub page: Option<usize>,
}

/// The parameters of a request for a page of the listing.
#[derive(Debug, PartialEq, Eq)]
pub struct Pagination {
    pub page: Option<usize>,
}

/// The page that a request asks for: the first one where it names none.
pub open spec fn spec_page_or_first(page: Option<usize>) -> usize {
    match page {
        Some(number) => number,
        None => 1,
    }
}

impl SearchParams {
    /// The search string: empty where the request has none.
    pub fn query(&self) -> (q: String)
        ensures
            q@ == match self.q {
                Some(text) => text@,
                None => Seq::<char>::empty(),
            },
    {
        match &self.q {
            Some(text) => text.clone(),
            None => String::new(),
        }
    }

    /// The page asked for: the first one where the request names none.
    pub fn page(&self) -> (page: usize)
        ensures
            page == spec_page_or_first(self.page),
    {
        match self.page {
            Some(number) => number,
            None => 1,
        }
    }
}

impl Pagination {
    /// The page asked for: the first one where the request names none.
    pub fn page(&self) -> (page: usize)
        ensures
            page == spec_page_or_first(self.page),
    {
        match self.page {
            Some(number) => number,
            None => 1,
        }
    }
}

/// Whether `id` may be looked up: it is not empty and no longer than
/// `MAX_ID_BYTES` bytes.
pub open spec fn spec_valid_id(id: &str) -> bool {
    id@.len() > 0 && id.len() <= MAX_ID_BYTES
}

/// Whether `filename` may be switched to: it is not empty, holds no `/`,
/// and is no longer than `MAX_FILENAME_BYTES` bytes.
pub open spec fn spec_valid_filename(filename: &str) -> bool {
    filename@.len() > 0 && !filename@.contains('/') && filename.len() <= MAX_FILENAME_BYTES
}

/// Checks the id of a post or an image before anything is looked up.
pub fn validate_id(id: &str) -> (checked: Result<(), StorageError>)
    ensures
        checked is Ok <==> spec_valid_id(id),
        checked matches Err(e) ==> e == StorageError::ValidationFailed,
{
    if id.is_empty() || id.len() > MAX_ID_BYTES {
        Err(StorageError::ValidationFailed)
    } else {
        Ok(())
    }
}

/// The path of the database file `filename`, which stands beside the
/// program: `./` and the name. A name that is empty, too long, or that
/// leads out of the directory is refused.
pub fn switch_target(filename: &str) -> (target: Result<String, StorageError>)
    ensures
        target is Ok <==> spec_valid_filename(filename),
        target matches Ok(path) ==> path@ == "./"@ + filename@,
        target matches Err(e) ==> e == StorageError::ValidationFailed,
{
    if filename.is_empty() || contains_char(filename, '/') || filename.len() > MAX_FILENAME_BYTES {
        Err(StorageError::ValidationFailed)
    } else {
        let mut path = String::from_str("./");
        path.append(filename);
        Ok(path)
    }
}

/// The name under which the image `id` is stored: `images/` and the id. An
/// id that is empty or too long is refused.
pub fn image_key(id: &str) -> (key: Result<String, StorageError>)
    ensures
        key is Ok <==> spec_valid_id(id),
        key matches Ok(name) ==> name@ == "images/"@ + id@,
        key matches Err(e) ==> e == StorageError::ValidationFailed,
{
    match validate_id(id) {
        Ok(_) => {
            let mut name = String::from_str("images/");
            name.append(id);
            Ok(name)
        },
        Err(e) => Err(e),
    }
}

/// The media type of an image by what follows the last dot of its id.
pub open spec fn spec_image_content_type(id: Seq<char>) -> Seq<char> {
    let ending = spec_after_last(id, '.');
    if ending == "png"@ {
        "image/png"@
    } else if ending == "jpg"@ || ending == "jpeg"@ {
        "image/jpeg"@
    } else if ending == "gif"@ {
        "image/gif"@
    } else if ending == "webp"@ {
        "image/webp"@
    } else if ending == "svg"@ {
        "image/svg+xml"@
    } else {
        "application/octet-stream"@
    }
}

/// The media type under which the image `id` is sent.
pub fn image_content_type(id: &str) -> (media: &'static str)
    ensures
        media@ == spec_image_content_type(id@),
{
    let ending = after_last(id, '.');
    if str_equal(ending.as_str(), "png") {
        "image/png"
    } else if str_equal(ending.as_str(), "jpg") || str_equal(ending.as_str(), "jpeg") {
        "image/jpeg"
    } else if str_equal(ending.as_str(), "gif") {
        "image/gif"
    } else if str_equal(ending.as_str(), "webp") {
        "image/webp"
    } else if str_equal(ending.as_str(), "svg") {
        "image/svg+xml"
    } else {
        "application/octet-stream"
    }
}

/// The entries of the site map for the pages that are always there.
pub open spec fn spec_static_entries() -> Seq<char> {
    "<url><loc>https://jonathansm.com/</loc></url>"@
        + "<url><loc>https://jonathansm.com/about</loc></url>"@
        + "<url><loc>https://jonathansm.com/contact</loc></url>"@
        + "<url><loc>https://jonathansm.com/posts</loc></url>"@
        + "<url><loc>https://jonathansm.com/feed</loc></url>"@
}

/// The entry of the site map for the post `id`, with the date of its last
/// change where one is known.
pub open spec fn spec_post_entry(id: Seq<char>, changed: Option<Seq<char>>) -> Seq<char> {
    "<url><loc>https://jonathansm.com/post/"@ + id + "</loc>"@ + (match changed {
        Some(date) => "<lastmod>"@ + date + "</lastmod>"@,
        None => Seq::empty(),
    }) + "</url>"@
}

/// The entries of the site map for `posts`, each an id and a date as the
/// database holds it. A date goes into the map as `chrono` rewrites it; a
/// date that it cannot read is left out.
pub open spec fn spec_post_entries(posts: Seq<(Seq<char>, Seq<char>)>) -> Seq<char>
    decreases posts.len(),
{
    if posts.len() == 0 {
        Seq::empty()
    } else {
        spec_post_entries(posts.drop_last()) + spec_post_entry(
            posts.last().0,
            rfc3339_rewritten(posts.last().1),
        )
    }
}

/// The site map with `entries` in it.
pub open spec fn spec_sitemap_around(entries: Seq<char>) -> Seq<char> {
    "<?xml version=\"1.0\" encoding=\"UTF-8\"?>\n        <urlset xmlns=\"http://www.sitemaps.org/schemas/sitemap/0.9\">\n            "@
        + entries + "\n        </urlset>"@
}

/// The site map: the pages that are always there, then `posts`. Where the
/// posts could not be fetched the map holds the fixed pages alone.
pub open spec fn spec_sitemap(posts: Result<Seq<(Seq<char>, Seq<char>)>, StorageError>) -> Seq<char> {
    spec_sitemap_around(
        spec_static_entries() + match posts {
            Ok(listed) => spec_post_entries(listed),
            Err(_) => Seq::empty(),
        },
    )
}

/// The entry of the site map for the post `id`, with `changed` as the date
/// of its last change.
pub fn sitemap_entry(id: &str, changed: &Option<String>) -> (entry: String)
    ensures
        entry@ == spec_post_entry(id@, changed.deep_view()),
{
    let mut entry = String::from_str("<url><loc>https://jonathansm.com/post/");
    entry.append(id);
    entry.append("</loc>");
    match changed {
        Some(date) => {
            entry.append("<lastmod>");
            entry.append(date.as_str());
            entry.append("</lastmod>");
        },
        None => {},
    }
    entry.append("</url>");
    assert(entry@ =~= spec_post_entry(id@, changed.deep_view()));
    entry
}

/// The id and date pairs of `posts`, as plain text.
pub open spec fn spec_pairs(posts: Seq<(String, String)>) -> Seq<(Seq<char>, Seq<char>)> {
    Seq::new(posts.len(), |i: int| (posts[i].0@, posts[i].1@))
}

/// The site map of the site: the pages that are always there, and one
/// entry for each of `posts`, which are the id and the date of every post
/// of the listing. Where the posts could not be fetched, the map holds the
/// fixed pages alone.
pub fn sitemap(posts: &Result<Vec<(String, String)>, StorageError>) -> (map: String)
    ensures
        map@ == spec_sitemap(
            match posts {
                Ok(listed) => Ok(spec_pairs(listed@)),
                Err(e) => Err(*e),
            },
        ),
{
    let mut entries = String::from_str("<url><loc>https://jonathansm.com/</loc></url>");
    entries.append("<url><loc>https://jonathansm.com/about</loc></url>");
    entries.append("<url><loc>https://jonathansm.com/contact</loc></url>");
    entries.append("<url><loc>https://jonathansm.com/posts</loc></url>");
    entries.append("<url><loc>https://jonathansm.com/feed</loc></url>");
    match posts {
        Ok(listed) => {
            let ghost all = spec_pairs(listed@);
            let mut i: usize = 0;
            assert(all.take(0) =~= Seq::<(Seq<char>, Seq<char>)>::empty());
            assert(entries@ =~= spec_static_entries() + spec_post_entries(all.take(0)));
            while i < listed.len()
                invariant
                    i <= listed.len(),
                    all == spec_pairs(listed@),
                    entries@ == spec_static_entries() + spec_post_entries(all.take(i as int)),
                decreases listed.len() - i,
            {
                proof {
                    assert(all.take(i + 1).drop_last() == all.take(i as int));
                    assert(all.take(i + 1).last() == (listed[i as int].0@, listed[i as int].1@));
                }
                let changed = rewrite_rfc3339(listed[i].1.as_str());
                let entry = sitemap_entry(listed[i].0.as_str(), &changed);
                entries.append(entry.as_str());
                i += 1;
            }
            assert(all.take(listed.len() as int) == all);
        },
        Err(_) => {
            assert(entries@ =~= spec_static_entries() + Seq::<char>::empty());
        },
    }
    let mut map = String::from_str(
        "<?xml version=\"1.0\" encoding=\"UTF-8\"?>\n        <urlset xmlns=\"http://www.sitemaps.org/schemas/sitemap/0.9\">\n            ",
    );
    map.append(entries.as_str());
    map.append("\n        </urlset>");
    map
}

} // verus!
