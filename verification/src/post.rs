//! Content entities, change-log entries and summaries, with their views.

use vstd::prelude::*;
use vstd::std_specs::convert::FromSpecImpl;
use vstd::string::*;
use crate::text::str_equal;

verus! {

/// One change-log entry.
#[derive(Debug, PartialEq, Eq)]
pub struct Commit {
    pub id: String,
    pub date: String,
    pub subject: String,
    pub body: Option<String>,
}

/// What a `Commit` is, as plain sequences.
pub struct CommitView {
    pub id: Seq<char>,
    pub date: Seq<char>,
    pub subject: Seq<char>,
    pub body: Option<Seq<char>>,
}

impl View for Commit {
    type V = CommitView;

    open spec fn view(&self) -> CommitView {
        CommitView {
            id: self.id@,
            date: self.date@,
            subject: self.subject@,
            body: self.body.deep_view(),
        }
    }
}

impl DeepView for Commit {
    type V = CommitView;

    open spec fn deep_view(&self) -> CommitView {
        self@
    }
}

impl Clone for Commit {
    fn clone(&self) -> (copy: Self)
        ensures
            copy@ == self@,
    {
        Commit {
            id: self.id.clone(),
            date: self.date.clone(),
            subject: self.subject.clone(),
            body: self.body.clone(),
        }
    }
}

/// The kind of a content entity. `Special` marks the fixed pages, which are
/// kept out of listings and searches.
#[derive(Debug, Clone, Copy, PartialEq, Eq, Structural)]
pub enum ContentType {
    Post,
    Link,
    Quote,
    Special,
}

impl ContentType {
    /// The name under which a kind is stored.
    pub open spec fn spec_name(self) -> Seq<char> {
        match self {
            ContentType::Post => "post"@,
            ContentType::Link => "link"@,
            ContentType::Quote => "quote"@,
            ContentType::Special => "special"@,
        }
    }

    /// The kind that a stored name stands for; an unknown name is a `Post`.
    pub open spec fn spec_parse(name: Seq<char>) -> ContentType {
        if name == "link"@ {
            ContentType::Link
        } else if name == "quote"@ {
            ContentType::Quote
        } else if name == "special"@ {
            ContentType::Special
        } else {
            ContentType::Post
        }
    }

    /// The stored name as a string slice.
    pub fn name(self) -> (name: &'static str)
        ensures
            name@ == self.spec_name(),
    {
        match self {
            ContentType::Post => "post",
            ContentType::Link => "link",
            ContentType::Quote => "quote",
            ContentType::Special => "special",
        }
    }

    /// The four stored names differ from one another.
    pub proof fn lemma_names_differ()
        ensures
            forall|a: ContentType, b: ContentType| a.spec_name() == b.spec_name() ==> a == b,
    {
        reveal_strlit("post");
        reveal_strlit("link");
        reveal_strlit("quote");
        reveal_strlit("special");
        assert forall|a: ContentType, b: ContentType| a.spec_name() == b.spec_name() implies a
            == b by {
            assert(a.spec_name().len() == b.spec_name().len());
            assert(a.spec_name()[0] == b.spec_name()[0]);
        }
    }

    /// Writing a kind's name and reading it back gives the kind.
    pub proof fn lemma_parse_name(kind: ContentType)
        ensures
            ContentType::spec_parse(kind.spec_name()) == kind,
    {
        ContentType::lemma_names_differ();
        assert(ContentType::Link.spec_name() == "link"@);
        assert(ContentType::Quote.spec_name() == "quote"@);
        assert(ContentType::Special.spec_name() == "special"@);
    }
}

impl From<String> for ContentType {
    fn from(s: String) -> (kind: ContentType) {
        if str_equal(s.as_str(), "link") {
            ContentType::Link
        } else if str_equal(s.as_str(), "quote") {
            ContentType::Quote
        } else if str_equal(s.as_str(), "special") {
            ContentType::Special
        } else {
            ContentType::Post
        }
    }
}

impl FromSpecImpl<String> for ContentType {
    open spec fn obeys_from_spec() -> bool {
        true
    }

    open spec fn from_spec(s: String) -> ContentType {
        ContentType::spec_parse(s@)
    }
}

/// The stored name of a kind as a `String`. What it holds is stated on
/// `from` itself, over the view of the result.
impl From<ContentType> for String {
    fn from(kind: ContentType) -> (name: String)
        ensures
            name@ == kind.spec_name(),
    {
        String::from_str(kind.name())
    }
}

/// The conversion has no counterpart among specifications, where no
/// `String` can be made: its contract stands on `from`.
impl FromSpecImpl<ContentType> for String {
    open spec fn obeys_from_spec() -> bool {
        false
    }

    open spec fn from_spec(kind: ContentType) -> String {
        arbitrary()
    }
}

/// A content entity with everything that is shown on its own page.
#[derive(Debug, PartialEq, Eq)]
pub struct Post {
    pub id: String,
    pub content_type: ContentType,
    pub title: Option<String>,
    pub link: Option<String>,
    pub via: Option<String>,
    pub quote_author: Option<String>,
    pub date: String,
    pub last_updated: Option<String>,
    pub content: String,
    pub commits: Option<Vec<String>>,
    pub tags: Option<Vec<String>>,
    pub real_commits: Option<Vec<Commit>>,
    pub related_posts: Option<Vec<SummaryPost>>,
}

/// What a `Post` is, as plain sequences.
pub struct PostView {
    pub id: Seq<char>,
    pub content_type: ContentType,
    pub title: Option<Seq<char>>,
    pub link: Option<Seq<char>>,
    pub via: Option<Seq<char>>,
    pub quote_author: Option<Seq<char>>,
    pub date: Seq<char>,
    pub last_updated: Option<Seq<char>>,
    pub content: Seq<char>,
    pub commits: Option<Seq<Seq<char>>>,
    pub tags: Option<Seq<Seq<char>>>,
    pub real_commits: Option<Seq<CommitView>>,
    pub related_posts: Option<Seq<SummaryPostView>>,
}

impl View for Post {
    type V = PostView;

    open spec fn view(&self) -> PostView {
        PostView {
            id: self.id@,
            content_type: self.content_type,
            title: self.title.deep_view(),
            link: self.link.deep_view(),
            via: self.via.deep_view(),
            quote_author: self.quote_author.deep_view(),
            date: self.date@,
            last_updated: self.last_updated.deep_view(),
            content: self.content@,
            commits: self.commits.deep_view(),
            tags: self.tags.deep_view(),
            real_commits: self.real_commits.deep_view(),
            related_posts: self.related_posts.deep_view(),
        }
    }
}

impl DeepView for Post {
    type V = PostView;

    open spec fn deep_view(&self) -> PostView {
        self@
    }
}

/// The fields of a content entity that listings show.
#[derive(Debug, PartialEq, Eq)]
pub struct SummaryPost {
    pub id: String,
    pub content_type: ContentType,
    pub title: Option<String>,
    pub link: Option<String>,
    pub via: Option<String>,
    pub quote_author: Option<String>,
    pub date: String,
}

/// What a `SummaryPost` is, as plain sequences.
pub struct SummaryPostView {
    pub id: Seq<char>,
    pub content_type: ContentType,
    pub title: Option<Seq<char>>,
    pub link: Option<Seq<char>>,
    pub via: Option<Seq<char>>,
    pub quote_author: Option<Seq<char>>,
    pub date: Seq<char>,
}

impl View for SummaryPost {
    type V = SummaryPostView;

    open spec fn view(&self) -> SummaryPostView {
        SummaryPostView {
            id: self.id@,
            content_type: self.content_type,
            title: self.title.deep_view(),
            link: self.link.deep_view(),
            via: self.via.deep_view(),
            quote_author: self.quote_author.deep_view(),
            date: self.date@,
        }
    }
}

impl DeepView for SummaryPost {
    type V = SummaryPostView;

    open spec fn deep_view(&self) -> SummaryPostView {
        self@
    }
}

impl Clone for SummaryPost {
    fn clone(&self) -> (copy: Self)
        ensures
            copy@ == self@,
    {
        SummaryPost {
            id: self.id.clone(),
            content_type: self.content_type,
            title: self.title.clone(),
            link: self.link.clone(),
            via: self.via.clone(),
            quote_author: self.quote_author.clone(),
            date: self.date.clone(),
        }
    }
}

} // verus!
