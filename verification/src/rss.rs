//! The feed of the newest posts.

use vstd::prelude::*;
use vstd::std_specs::convert::FromSpecImpl;
use vstd::string::*;
use crate::post::{ContentType, Post, PostView};

verus! {

/// One item of the feed.
#[derive(Debug, PartialEq, Eq)]
pub struct RssEntry {
    pub title: String,
    pub link: String,
    pub content: String,
    pub pub_date: String,
    pub guid: String,
}

/// What an `RssEntry` is, as plain text.
pub struct RssEntryView {
    pub title: Seq<char>,
    pub link: Seq<char>,
    pub content: Seq<char>,
    pub pub_date: Seq<char>,
    pub guid: Seq<char>,
}

impl View for RssEntry {
    type V = RssEntryView;

    open spec fn view(&self) -> RssEntryView {
        RssEntryView {
            title: self.title@,
            link: self.link@,
            content: self.content@,
            pub_date: self.pub_date@,
            guid: self.guid@,
        }
    }
}

/// `text`, or `fallback` where there is none.
pub open spec fn spec_or(text: Option<Seq<char>>, fallback: Seq<char>) -> Seq<char> {
    match text {
        Some(given) => given,
        None => fallback,
    }
}

/// The address of the page of the post `id`.
pub open spec fn spec_post_url(id: Seq<char>) -> Seq<char> {
    "https://jonathansm.com/post/"@ + id
}

/// The title of the feed item of `post`. A post goes by its title. A link
/// is announced as one. A quote without a title is named after its author.
pub open spec fn spec_entry_title(post: PostView) -> Seq<char> {
    match post.content_type {
        ContentType::Link => "Link: "@ + spec_or(post.title, "this link"@),
        ContentType::Quote => spec_or(
            post.title,
            "Quote from "@ + spec_or(post.quote_author, "an unknown source"@),
        ),
        _ => spec_or(post.title, "Untitled"@),
    }
}

/// The body of the feed item of `post`. The body of a link begins with the
/// link itself, where there is one. The body of a quote is the quote, and
/// after it its author, where there is one.
pub open spec fn spec_entry_content(post: PostView) -> Seq<char> {
    match post.content_type {
        ContentType::Link => (match post.link {
            Some(link) => "<p>Link: <a href=\""@ + link + "\">"@ + spec_or(
                post.title,
                "this link"@,
            ) + "</a></p>"@,
            None => Seq::empty(),
        }) + post.content,
        ContentType::Quote => "<blockquote>"@ + post.content + "</blockquote>"@ + (
        match post.quote_author {
            Some(name) => "<figcaption>— "@ + name + "</figcaption>"@,
            None => Seq::empty(),
        }),
        _ => post.content,
    }
}

/// The feed item of `post`.
pub open spec fn spec_entry(post: PostView) -> RssEntryView {
    RssEntryView {
        title: spec_entry_title(post),
        link: spec_post_url(post.id),
        content: spec_entry_content(post),
        pub_date: post.date,
        guid: spec_post_url(post.id),
    }
}

/// A feed item as XML.
pub open spec fn spec_item_xml(entry: RssEntryView) -> Seq<char> {
    "<item>\n                <title>"@ + entry.title + "</title>\n                <link>"@
        + entry.link + "</link>\n                <guid isPermalink=\"true\">"@ + entry.guid
        + "</guid>\n                <pubDate>"@ + entry.pub_date
        + "</pubDate>\n                <content:encoded><![CDATA["@ + entry.content
        + "]]></content:encoded>\n            </item>"@
}

/// The feed items of `posts` as XML, one after another.
pub open spec fn spec_items_xml(posts: Seq<PostView>) -> Seq<char>
    decreases posts.len(),
{
    if posts.len() == 0 {
        Seq::empty()
    } else {
        spec_items_xml(posts.drop_last()) + spec_item_xml(spec_entry(posts.last()))
    }
}

/// What stands in the feed before its items.
pub open spec fn spec_feed_head() -> Seq<char> {
    "\n        <?xml version=\"1.0\" encoding=\"UTF-8\" ?>\n        <rss version=\"2.0\" xmlns:content=\"http://purl.org/rss/1.0/modules/content/\" xmlns:atom=\"http://www.w3.org/2005/Atom\">\n            <channel>\n                <title>Jonathan's Blog</title>\n                <link>https://jonathansm.com</link>\n                <description>Jonathan's Blog</description>\n                <language>en-us</language>\n                <atom:link href=\"https://jonathansm.com/feed\" rel=\"self\" type=\"application/rss+xml\" />\n                "@
}

/// What stands in the feed after its items.
pub open spec fn spec_feed_tail() -> Seq<char> {
    "\n            </channel>\n        </rss>\n        "@
}

/// The feed of `posts`.
pub open spec fn spec_feed(posts: Seq<PostView>) -> Seq<char> {
    spec_feed_head() + spec_items_xml(posts) + spec_feed_tail()
}

/// A copy of `text`, or `fallback` where there is none.
fn text_or(text: &Option<String>, fallback: &str) -> (chosen: String)
    ensures
        chosen@ == spec_or(text.deep_view(), fallback@),
{
    match text {
        Some(given) => given.clone(),
        None => fallback.to_owned(),
    }
}

/// The feed item of a post. What it holds is stated on `from` itself, over
/// the views of the post and of the item.
impl From<Post> for RssEntry {
    fn from(post: Post) -> (entry: RssEntry)
        ensures
            entry@ == spec_entry(post@),
    {
        let mut full_url = String::from_str("https://jonathansm.com/post/");
        full_url.append(post.id.as_str());
        let (title, content) = match post.content_type {
            ContentType::Link => {
                let link_title = text_or(&post.title, "this link");
                let mut title = String::from_str("Link: ");
                title.append(link_title.as_str());
                let mut content = String::new();
                match &post.link {
                    Some(link) => {
                        content.append("<p>Link: <a href=\"");
                        content.append(link.as_str());
                        content.append("\">");
                        content.append(link_title.as_str());
                        content.append("</a></p>");
                    },
                    None => {},
                }
                content.append(post.content.as_str());
                assert(content@ =~= spec_entry_content(post@));
                (title, content)
            },
            ContentType::Quote => {
                let author = text_or(&post.quote_author, "an unknown source");
                let mut unnamed = String::from_str("Quote from ");
                unnamed.append(author.as_str());
                let title = text_or(&post.title, unnamed.as_str());
                let mut content = String::from_str("<blockquote>");
                content.append(post.content.as_str());
                content.append("</blockquote>");
                match &post.quote_author {
                    Some(name) => {
                        content.append("<figcaption>— ");
                        content.append(name.as_str());
                        content.append("</figcaption>");
                    },
                    None => {},
                }
                assert(content@ =~= spec_entry_content(post@));
                (title, content)
            },
            _ => (text_or(&post.title, "Untitled"), post.content),
        };
        RssEntry { title, link: full_url.clone(), content, pub_date: post.date, guid: full_url }
    }
}

/// The conversion has no counterpart among specifications, where no
/// `String` can be made: its contract stands on `from`.
impl FromSpecImpl<Post> for RssEntry {
    open spec fn obeys_from_spec() -> bool {
        false
    }

    open spec fn from_spec(post: Post) -> RssEntry {
        arbitrary()
    }
}

impl RssEntry {
    /// The item as XML: its title, its link, its permanent id, its date and
    /// its body, the body as character data.
    pub fn to_xml(&self) -> (xml: String)
        ensures
            xml@ == spec_item_xml(self@),
    {
        let mut xml = String::from_str("<item>\n                <title>");
        xml.append(self.title.as_str());
        xml.append("</title>\n                <link>");
        xml.append(self.link.as_str());
        xml.append("</link>\n                <guid isPermalink=\"true\">");
        xml.append(self.guid.as_str());
        xml.append("</guid>\n                <pubDate>");
        xml.append(self.pub_date.as_str());
        xml.append("</pubDate>\n                <content:encoded><![CDATA[");
        xml.append(self.content.as_str());
        xml.append("]]></content:encoded>\n            </item>");
        xml
    }
}

/// The feed of `posts`: its head, the items of the posts in their order,
/// and its tail.
pub fn feed(posts: Vec<Post>) -> (rss: String)
    ensures
        rss@ == spec_feed(posts.deep_view()),
{
    let ghost all = posts.deep_view();
    let mut rss = String::from_str(
        "\n        <?xml version=\"1.0\" encoding=\"UTF-8\" ?>\n        <rss version=\"2.0\" xmlns:content=\"http://purl.org/rss/1.0/modules/content/\" xmlns:atom=\"http://www.w3.org/2005/Atom\">\n            <channel>\n                <title>Jonathan's Blog</title>\n                <link>https://jonathansm.com</link>\n                <description>Jonathan's Blog</description>\n                <language>en-us</language>\n                <atom:link href=\"https://jonathansm.com/feed\" rel=\"self\" type=\"application/rss+xml\" />\n                ",
    );
    assert(all.take(0) =~= Seq::<PostView>::empty());
    assert(rss@ =~= spec_feed_head() + spec_items_xml(all.take(0)));
    for post in it: posts
        invariant
            it.seq().len() == all.len(),
            forall|j: int| 0 <= j < all.len() ==> it.seq()[j]@ == all[j],
            rss@ == spec_feed_head() + spec_items_xml(all.take(it.index() as int)),
    {
        proof {
            let k = it.index() as int;
            assert(all.take(k + 1).drop_last() == all.take(k));
            assert(all.take(k + 1).last() == post@);
        }
        let entry = RssEntry::from(post);
        let xml = entry.to_xml();
        rss.append(xml.as_str());
    }
    assert(all.take(all.len() as int) == all);
    rss.append("\n            </channel>\n        </rss>\n        ");
    rss
}

} // verus!
