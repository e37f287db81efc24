use blog_core::post::{ContentType, Post};
use blog_core::rss::{feed, RssEntry};

fn post(kind: ContentType) -> Post {
    Post {
        id: "alpha".to_string(),
        content_type: kind,
        title: Some("A title".to_string()),
        link: Some("https://example.org/x".to_string()),
        via: None,
        quote_author: Some("Ada".to_string()),
        date: "2024-01-01T00:00:00Z".to_string(),
        last_updated: None,
        content: "<p>Body</p>".to_string(),
        commits: None,
        tags: None,
        real_commits: None,
        related_posts: None,
    }
}

#[test]
fn entry_of_a_post() {
    let entry = RssEntry::from(post(ContentType::Post));
    assert_eq!(
        entry,
        RssEntry {
            title: "A title".to_string(),
            link: "https://jonathansm.com/post/alpha".to_string(),
            content: "<p>Body</p>".to_string(),
            pub_date: "2024-01-01T00:00:00Z".to_string(),
            guid: "https://jonathansm.com/post/alpha".to_string(),
        }
    );
    let mut untitled = post(ContentType::Post);
    untitled.title = None;
    assert_eq!(RssEntry::from(untitled).title, "Untitled");
}

#[test]
fn entry_of_a_link() {
    let entry = RssEntry::from(post(ContentType::Link));
    assert_eq!(entry.title, "Link: A title");
    assert_eq!(
        entry.content,
        "<p>Link: <a href=\"https://example.org/x\">A title</a></p><p>Body</p>"
    );
    let mut bare = post(ContentType::Link);
    bare.title = None;
    bare.link = None;
    let entry = RssEntry::from(bare);
    assert_eq!(entry.title, "Link: this link");
    assert_eq!(entry.content, "<p>Body</p>");
    let mut untitled = post(ContentType::Link);
    untitled.title = None;
    assert_eq!(
        RssEntry::from(untitled).content,
        "<p>Link: <a href=\"https://example.org/x\">this link</a></p><p>Body</p>"
    );
}

#[test]
fn entry_of_a_quote() {
    let entry = RssEntry::from(post(ContentType::Quote));
    assert_eq!(entry.title, "A title");
    assert_eq!(
        entry.content,
        "<blockquote><p>Body</p></blockquote><figcaption>\u{2014} Ada</figcaption>"
    );
    let mut untitled = post(ContentType::Quote);
    untitled.title = None;
    assert_eq!(RssEntry::from(untitled).title, "Quote from Ada");
    let mut anonymous = post(ContentType::Quote);
    anonymous.title = None;
    anonymous.quote_author = None;
    let entry = RssEntry::from(anonymous);
    assert_eq!(entry.title, "Quote from an unknown source");
    assert_eq!(entry.content, "<blockquote><p>Body</p></blockquote>");
}

#[test]
fn entry_of_a_special_page_reads_like_a_post() {
    let entry = RssEntry::from(post(ContentType::Special));
    assert_eq!(entry.title, "A title");
    assert_eq!(entry.content, "<p>Body</p>");
}

#[test]
fn item_xml_layout() {
    let entry = RssEntry {
        title: "T".to_string(),
        link: "L".to_string(),
        content: "C".to_string(),
        pub_date: "D".to_string(),
        guid: "G".to_string(),
    };
    let expected = format!(
        r#"
            <item>
                <title>{}</title>
                <link>{}</link>
                <guid isPermalink="true">{}</guid>
                <pubDate>{}</pubDate>
                <content:encoded><![CDATA[{}]]></content:encoded>
            </item>
            "#,
        "T", "L", "G", "D", "C"
    )
    .trim()
    .to_string();
    assert_eq!(entry.to_xml(), expected);
}

#[test]
fn feed_wraps_items_in_channel() {
    let posts = vec![post(ContentType::Post), post(ContentType::Quote)];
    let items: String = vec![post(ContentType::Post), post(ContentType::Quote)]
        .into_iter()
        .map(RssEntry::from)
        .map(|entry| entry.to_xml())
        .collect();
    let expected = format!(
        r#"
        <?xml version="1.0" encoding="UTF-8" ?>
        <rss version="2.0" xmlns:content="http://purl.org/rss/1.0/modules/content/" xmlns:atom="http://www.w3.org/2005/Atom">
            <channel>
                <title>Jonathan's Blog</title>
                <link>https://jonathansm.com</link>
                <description>Jonathan's Blog</description>
                <language>en-us</language>
                <atom:link href="https://jonathansm.com/feed" rel="self" type="application/rss+xml" />
                {}
            </channel>
        </rss>
        "#,
        items
    );
    assert_eq!(feed(posts), expected);
}

#[test]
fn empty_feed_has_no_items() {
    let rss = feed(Vec::new());
    assert!(!rss.contains("<item>"));
    assert!(rss.contains("<channel>"));
}
