//! Data model: posts, blog metadata, the persisted feed record, and the
//! error taxonomy shared by every operation.

use vstd::prelude::*;

verus! {

/// Smallest Unix timestamp the library accepts: 0000-01-01T00:00:00 UTC,
/// the earliest instant RFC 3339 can write.
pub const MIN_TIMESTAMP: i64 = -62167219200;

/// Largest Unix timestamp the library accepts: 9999-12-31T23:59:59 UTC,
/// the latest instant RFC 3339 can write.
pub const MAX_TIMESTAMP: i64 = 253402300799;

/// A timestamp the library accepts: one whose calendar date RFC 3339 can
/// represent (years 0000 through 9999). The whole range is far inside what
/// the date formatter accepts, so formatting an accepted timestamp never
/// fails.
pub open spec fn valid_ts(t: i64) -> bool {
    MIN_TIMESTAMP <= t <= MAX_TIMESTAMP
}

/// Runtime check for [`valid_ts`]; unverified callers test inputs with it
/// before calling functions that require it.
pub fn ts_in_range(t: i64) -> (b: bool)
    ensures
        b == valid_ts(t),
{
    MIN_TIMESTAMP <= t && t <= MAX_TIMESTAMP
}

/// Why an operation was refused, one variant per failure class.
#[derive(Clone, Copy, Debug, PartialEq, Eq, Structural)]
pub enum ApiError {
    /// Malformed request shape or body.
    Validation,
    /// Missing or incorrect credential on a mutating operation.
    Auth,
    /// Slug absent, or present but not visible on the public read path.
    NotFound,
    /// Duplicate slug detected at create time.
    Conflict,
    /// Underlying store failure, including failures inside the sync pipeline.
    Persistence,
    /// Blog metadata absent when a feed render was attempted.
    MissingMetadata,
}

impl ApiError {
    /// The HTTP status an unverified boundary should answer with.
    pub fn status_code(&self) -> (s: u16)
        ensures
            s == match *self {
                ApiError::Validation => 400u16,
                ApiError::Auth => 401u16,
                ApiError::NotFound => 404u16,
                ApiError::Conflict => 409u16,
                ApiError::Persistence => 500u16,
                ApiError::MissingMetadata => 500u16,
            },
    {
        match *self {
            ApiError::Validation => 400,
            ApiError::Auth => 401,
            ApiError::NotFound => 404,
            ApiError::Conflict => 409,
            ApiError::Persistence => 500,
            ApiError::MissingMetadata => 500,
        }
    }
}

/// A published or soft-deleted article.
pub struct Post {
    pub id: u64,
    pub title: String,
    pub slug: String,
    pub blog_title: String,
    pub author: String,
    /// Markdown source of the body.
    pub text: String,
    pub description: String,
    pub image: Option<String>,
    pub tags: Option<Vec<String>>,
    /// Slug of the next adjacent post, if any.
    pub next: Option<String>,
    /// Slug of the previous adjacent post, if any.
    pub previous: Option<String>,
    /// Publish timestamp, seconds since the Unix epoch.
    pub date: i64,
    /// Last-modified timestamp, seconds since the Unix epoch.
    pub last_updated: i64,
    /// False means soft-deleted; no row is ever physically removed.
    pub visible: bool,
    /// True once the post has been edited; never set on creation.
    pub edited: bool,
}

/// Mathematical value of a [`Post`].
pub struct PostV {
    pub id: u64,
    pub title: Seq<char>,
    pub slug: Seq<char>,
    pub blog_title: Seq<char>,
    pub author: Seq<char>,
    pub text: Seq<char>,
    pub description: Seq<char>,
    pub image: Option<Seq<char>>,
    pub tags: Option<Seq<Seq<char>>>,
    pub next: Option<Seq<char>>,
    pub previous: Option<Seq<char>>,
    pub date: i64,
    pub last_updated: i64,
    pub visible: bool,
    pub edited: bool,
}

impl View for Post {
    type V = PostV;

    open spec fn view(&self) -> PostV {
        PostV {
            id: self.id,
            title: self.title@,
            slug: self.slug@,
            blog_title: self.blog_title@,
            author: self.author@,
            text: self.text@,
            description: self.description@,
            image: self.image.deep_view(),
            tags: self.tags.deep_view(),
            next: self.next.deep_view(),
            previous: self.previous.deep_view(),
            date: self.date,
            last_updated: self.last_updated,
            visible: self.visible,
            edited: self.edited,
        }
    }
}

impl PostV {
    /// Both timestamps are representable calendar dates.
    pub open spec fn wf(self) -> bool {
        valid_ts(self.date) && valid_ts(self.last_updated)
    }
}

/// Clones an optional string, preserving its mathematical value.
pub(crate) fn clone_opt_string(s: &Option<String>) -> (r: Option<String>)
    ensures
        r.deep_view() == s.deep_view(),
{
    match s {
        Option::Some(v) => Option::Some(v.clone()),
        Option::None => Option::None,
    }
}

/// Clones a string vector, preserving its mathematical value.
pub(crate) fn clone_string_vec(v: &Vec<String>) -> (r: Vec<String>)
    ensures
        r.deep_view() == v.deep_view(),
{
    let mut out: Vec<String> = Vec::new();
    let mut i: usize = 0;
    while i < v.len()
        invariant
            i <= v.len(),
            out.deep_view() =~= v.deep_view().take(i as int),
        decreases v.len() - i,
    {
        let ghost pre = out.deep_view();
        let c = v[i].clone();
        proof {
            assert(c.deep_view() == v.deep_view()[i as int]);
        }
        out.push(c);
        proof {
            assert(out.deep_view() =~= pre.push(v.deep_view()[i as int]));
            assert(v.deep_view().take(i + 1 as int) =~= v.deep_view().take(i as int).push(
                v.deep_view()[i as int],
            ));
        }
        i = i + 1;
    }
    proof {
        assert(v.deep_view().take(v.len() as int) =~= v.deep_view());
    }
    out
}

/// Clones an optional string vector, preserving its mathematical value.
pub(crate) fn clone_opt_string_vec(v: &Option<Vec<String>>) -> (r: Option<Vec<String>>)
    ensures
        r.deep_view() == v.deep_view(),
{
    match v {
        Option::Some(inner) => Option::Some(clone_string_vec(inner)),
        Option::None => Option::None,
    }
}

impl Clone for Post {
    /// Clones every field, preserving the post's mathematical value.
    fn clone(&self) -> (res: Self)
        ensures
            res@ == self@,
    {
        Post {
            id: self.id,
            title: self.title.clone(),
            slug: self.slug.clone(),
            blog_title: self.blog_title.clone(),
            author: self.author.clone(),
            text: self.text.clone(),
            description: self.description.clone(),
            image: clone_opt_string(&self.image),
            tags: clone_opt_string_vec(&self.tags),
            next: clone_opt_string(&self.next),
            previous: clone_opt_string(&self.previous),
            date: self.date,
            last_updated: self.last_updated,
            visible: self.visible,
            edited: self.edited,
        }
    }
}

/// Client-supplied body of a create request: every post field the client
/// controls. The identifier, the edited flag and the last-modified timestamp
/// are assigned by the store.
pub struct NewPost {
    pub title: String,
    pub slug: String,
    pub blog_title: String,
    pub author: String,
    pub text: String,
    pub description: String,
    pub image: Option<String>,
    pub tags: Option<Vec<String>>,
    pub next: Option<String>,
    pub previous: Option<String>,
    pub date: i64,
    pub visible: bool,
}

/// Mathematical value of a [`NewPost`].
pub struct NewPostV {
    pub title: Seq<char>,
    pub slug: Seq<char>,
    pub blog_title: Seq<char>,
    pub author: Seq<char>,
    pub text: Seq<char>,
    pub description: Seq<char>,
    pub image: Option<Seq<char>>,
    pub tags: Option<Seq<Seq<char>>>,
    pub next: Option<Seq<char>>,
    pub previous: Option<Seq<char>>,
    pub date: i64,
    pub visible: bool,
}

impl View for NewPost {
    type V = NewPostV;

    open spec fn view(&self) -> NewPostV {
        NewPostV {
            title: self.title@,
            slug: self.slug@,
            blog_title: self.blog_title@,
            author: self.author@,
            text: self.text@,
            description: self.description@,
            image: self.image.deep_view(),
            tags: self.tags.deep_view(),
            next: self.next.deep_view(),
            previous: self.previous.deep_view(),
            date: self.date,
            visible: self.visible,
        }
    }
}

impl NewPost {
    /// The publish timestamp is a representable calendar date.
    pub open spec fn wf(&self) -> bool {
        valid_ts(self.date)
    }

    /// Runtime check for [`NewPost::wf`].
    pub fn check(&self) -> (b: bool)
        ensures
            b == self.wf(),
    {
        ts_in_range(self.date)
    }
}

/// The post a candidate body becomes when the store accepts it: the store
/// assigns the identifier, clears the edited flag, and stamps last-modified
/// with the mutation time.
pub open spec fn new_post_v(c: NewPostV, id: u64, now: i64) -> PostV {
    PostV {
        id: id,
        title: c.title,
        slug: c.slug,
        blog_title: c.blog_title,
        author: c.author,
        text: c.text,
        description: c.description,
        image: c.image,
        tags: c.tags,
        next: c.next,
        previous: c.previous,
        date: c.date,
        last_updated: now,
        visible: c.visible,
        edited: false,
    }
}

/// A partial edit: only fields that are present change.
pub struct EditRequest {
    pub title: Option<String>,
    pub text: Option<String>,
    pub tags: Option<Vec<String>>,
    pub visible: Option<bool>,
}

/// Mathematical value of an [`EditRequest`].
pub struct EditV {
    pub title: Option<Seq<char>>,
    pub text: Option<Seq<char>>,
    pub tags: Option<Seq<Seq<char>>>,
    pub visible: Option<bool>,
}

impl View for EditRequest {
    type V = EditV;

    open spec fn view(&self) -> EditV {
        EditV {
            title: self.title.deep_view(),
            text: self.text.deep_view(),
            tags: self.tags.deep_view(),
            visible: self.visible,
        }
    }
}

/// The post an edit produces: supplied fields replace the old values, absent
/// fields keep them; the edited flag is set and last-modified is refreshed,
/// even when the supplied fields equal the existing values.
pub open spec fn edited_post(p: PostV, e: EditV, now: i64) -> PostV {
    PostV {
        title: if e.title is Some { e.title.unwrap() } else { p.title },
        text: if e.text is Some { e.text.unwrap() } else { p.text },
        tags: if e.tags is Some { Some(e.tags.unwrap()) } else { p.tags },
        visible: if e.visible is Some { e.visible.unwrap() } else { p.visible },
        edited: true,
        last_updated: now,
        ..p
    }
}

/// The post a soft-delete produces: visibility cleared, all else untouched.
pub open spec fn deleted_post(p: PostV) -> PostV {
    PostV { visible: false, ..p }
}

/// The single record describing the publication.
pub struct BlogMetadata {
    pub title: String,
    pub blog_url: String,
    pub syndication_url: String,
    /// Refreshed as a side effect of every successful post mutation.
    pub last_updated: i64,
    pub author: String,
    pub author_email: Option<String>,
    pub author_url: Option<String>,
}

/// Mathematical value of [`BlogMetadata`].
pub struct MetaV {
    pub title: Seq<char>,
    pub blog_url: Seq<char>,
    pub syndication_url: Seq<char>,
    pub last_updated: i64,
    pub author: Seq<char>,
    pub author_email: Option<Seq<char>>,
    pub author_url: Option<Seq<char>>,
}

impl View for BlogMetadata {
    type V = MetaV;

    open spec fn view(&self) -> MetaV {
        MetaV {
            title: self.title@,
            blog_url: self.blog_url@,
            syndication_url: self.syndication_url@,
            last_updated: self.last_updated,
            author: self.author@,
            author_email: self.author_email.deep_view(),
            author_url: self.author_url.deep_view(),
        }
    }
}

impl MetaV {
    /// The last-updated timestamp is a representable calendar date.
    pub open spec fn wf(self) -> bool {
        valid_ts(self.last_updated)
    }

    /// The metadata after a sync pipeline stamps it: only last-updated moves.
    pub open spec fn stamped(self, now: i64) -> MetaV {
        MetaV { last_updated: now, ..self }
    }
}

impl Clone for BlogMetadata {
    /// Clones every field, preserving the record's mathematical value.
    fn clone(&self) -> (res: Self)
        ensures
            res@ == self@,
    {
        BlogMetadata {
            title: self.title.clone(),
            blog_url: self.blog_url.clone(),
            syndication_url: self.syndication_url.clone(),
            last_updated: self.last_updated,
            author: self.author.clone(),
            author_email: clone_opt_string(&self.author_email),
            author_url: clone_opt_string(&self.author_url),
        }
    }
}

/// Persisted serialized form of the feed, for cold-start recovery.
pub struct FeedRecord {
    /// The serialized feed document.
    pub xml: String,
    /// When the record was last rewritten.
    pub last_updated: i64,
}

/// Mathematical value of a [`FeedRecord`].
pub struct FeedRecV {
    pub xml: Seq<char>,
    pub last_updated: i64,
}

impl View for FeedRecord {
    type V = FeedRecV;

    open spec fn view(&self) -> FeedRecV {
        FeedRecV { xml: self.xml@, last_updated: self.last_updated }
    }
}

impl FeedRecV {
    /// The last-updated timestamp is a representable calendar date.
    pub open spec fn wf(self) -> bool {
        valid_ts(self.last_updated)
    }
}

impl Clone for FeedRecord {
    /// Clones both fields, preserving the record's mathematical value.
    fn clone(&self) -> (res: Self)
        ensures
            res@ == self@,
    {
        FeedRecord { xml: self.xml.clone(), last_updated: self.last_updated }
    }
}

/// One row of the public post listing: title, slug, formatted publish date,
/// and visibility, for visible and hidden posts alike.
pub struct PostSummary {
    pub title: String,
    pub slug: String,
    /// The publish timestamp in RFC 3339 form.
    pub date: String,
    pub visible: bool,
}

/// Mathematical value of a [`PostSummary`].
pub struct SummaryV {
    pub title: Seq<char>,
    pub slug: Seq<char>,
    pub date: Seq<char>,
    pub visible: bool,
}

impl View for PostSummary {
    type V = SummaryV;

    open spec fn view(&self) -> SummaryV {
        SummaryV {
            title: self.title@,
            slug: self.slug@,
            date: self.date@,
            visible: self.visible,
        }
    }
}

/// Process configuration constructed once at startup: the public base URL
/// that post links are built from, and the hash of the shared write secret.
pub struct Config {
    pub base_url: String,
    pub api_key_hash: String,
}

} // verus!
