//! The feed renderer and the rendered document: a pure transform from the
//! blog metadata and the ordered visible posts to a feed document, and the
//! trusted serialization of that document through `atom_syndication`.

use atom_syndication::{ContentBuilder, EntryBuilder, FeedBuilder, LinkBuilder, PersonBuilder, Text};
use chrono::DateTime;
use vstd::prelude::*;
use vstd::string::StringExecFns;

use crate::markdown::{html_of, render_markdown};
use crate::model::{clone_opt_string, valid_ts, BlogMetadata, MetaV, Post, PostV};
use crate::store::views_of;

verus! {

/// One feed entry: a visible post, rendered.
pub struct FeedEntry {
    pub title: String,
    /// Public identifier and link: the configured base URL followed by the
    /// post's slug.
    pub link: String,
    pub author: String,
    /// The post's markdown source converted to HTML.
    pub html: String,
    /// The post's publish timestamp.
    pub published: i64,
    /// The post's last-modified timestamp.
    pub updated: i64,
}

/// Mathematical value of a [`FeedEntry`].
pub struct EntryV {
    pub title: Seq<char>,
    pub link: Seq<char>,
    pub author: Seq<char>,
    pub html: Seq<char>,
    pub published: i64,
    pub updated: i64,
}

impl View for FeedEntry {
    type V = EntryV;

    open spec fn view(&self) -> EntryV {
        EntryV {
            title: self.title@,
            link: self.link@,
            author: self.author@,
            html: self.html@,
            published: self.published,
            updated: self.updated,
        }
    }
}

impl Clone for FeedEntry {
    /// Clones every field, preserving the entry's mathematical value.
    fn clone(&self) -> (res: Self)
        ensures
            res@ == self@,
    {
        FeedEntry {
            title: self.title.clone(),
            link: self.link.clone(),
            author: self.author.clone(),
            html: self.html.clone(),
            published: self.published,
            updated: self.updated,
        }
    }
}

/// The mathematical values of a sequence of entries.
pub open spec fn entry_views(s: Seq<FeedEntry>) -> Seq<EntryV> {
    s.map_values(|e: FeedEntry| e@)
}

/// The entry a post renders to.
pub open spec fn entry_of(p: PostV, base: Seq<char>) -> EntryV {
    EntryV {
        title: p.title,
        link: base + p.slug,
        author: p.author,
        html: html_of(p.text),
        published: p.date,
        updated: p.last_updated,
    }
}

/// The rendered feed document, derived entirely from the metadata record
/// and the visible posts at some point in time.
pub struct FeedDocument {
    pub author_name: String,
    pub author_email: Option<String>,
    pub author_url: Option<String>,
    /// The feed's own public URL.
    pub syndication_url: String,
    /// Render wall-clock time, not derived from any post's timestamp.
    pub updated: i64,
    /// Entries in the same order as the input posts.
    pub entries: Vec<FeedEntry>,
}

/// Mathematical value of a [`FeedDocument`].
pub struct DocV {
    pub author_name: Seq<char>,
    pub author_email: Option<Seq<char>>,
    pub author_url: Option<Seq<char>>,
    pub syndication_url: Seq<char>,
    pub updated: i64,
    pub entries: Seq<EntryV>,
}

impl View for FeedDocument {
    type V = DocV;

    open spec fn view(&self) -> DocV {
        DocV {
            author_name: self.author_name@,
            author_email: self.author_email.deep_view(),
            author_url: self.author_url.deep_view(),
            syndication_url: self.syndication_url@,
            updated: self.updated,
            entries: entry_views(self.entries@),
        }
    }
}

impl DocV {
    /// Every timestamp is a representable calendar date and the entries are
    /// ordered by publish time descending.
    pub open spec fn wf(self) -> bool {
        &&& valid_ts(self.updated)
        &&& (forall|i: int|
            0 <= i < self.entries.len() ==> valid_ts(#[trigger] self.entries[i].published)
                && valid_ts(self.entries[i].updated))
        &&& (forall|i: int, j: int|
            0 <= i < j < self.entries.len() ==> self.entries[i].published
                >= self.entries[j].published)
    }
}

/// Clones a vector of entries, preserving its mathematical values.
fn clone_entries(v: &Vec<FeedEntry>) -> (r: Vec<FeedEntry>)
    ensures
        entry_views(r@) == entry_views(v@),
{
    let mut out: Vec<FeedEntry> = Vec::new();
    let mut i: usize = 0;
    while i < v.len()
        invariant
            i <= v.len(),
            entry_views(out@) =~= entry_views(v@).take(i as int),
        decreases v.len() - i,
    {
        let ghost pre = entry_views(out@);
        out.push(v[i].clone());
        proof {
            assert(entry_views(out@) =~= pre.push(entry_views(v@)[i as int]));
        }
        i = i + 1;
    }
    proof {
        assert(entry_views(v@).take(v.len() as int) =~= entry_views(v@));
    }
    out
}

impl Clone for FeedDocument {
    /// Clones every field, preserving the document's mathematical value.
    fn clone(&self) -> (res: Self)
        ensures
            res@ == self@,
    {
        FeedDocument {
            author_name: self.author_name.clone(),
            author_email: clone_opt_string(&self.author_email),
            author_url: clone_opt_string(&self.author_url),
            syndication_url: self.syndication_url.clone(),
            updated: self.updated,
            entries: clone_entries(&self.entries),
        }
    }
}

/// The document the renderer produces from a metadata record, an ordered
/// sequence of visible posts, the configured base URL, and the render time.
pub open spec fn spec_render(m: MetaV, posts: Seq<PostV>, base: Seq<char>, now: i64) -> DocV {
    DocV {
        author_name: m.author,
        author_email: m.author_email,
        author_url: m.author_url,
        syndication_url: m.syndication_url,
        updated: now,
        entries: posts.map_values(|p: PostV| entry_of(p, base)),
    }
}

/// Renders the feed document: one entry per input post, in the input order
/// (the caller supplies the visible posts in descending publish-time order),
/// each entry's body the HTML rendering of the post's markdown source and
/// its link the base URL followed by the slug. Rendering is total: it never
/// fails, whatever the markdown holds.
pub fn render_feed(meta: &BlogMetadata, posts: &Vec<Post>, base_url: &String, now: i64) -> (d:
    FeedDocument)
    requires
        valid_ts(now),
        crate::store::all_wf(views_of(posts@)),
        crate::store::sorted_desc(views_of(posts@)),
    ensures
        d@ == spec_render(meta@, views_of(posts@), base_url@, now),
        d@.wf(),
{
    let ghost s = views_of(posts@);
    let ghost target = s.map_values(|p: PostV| entry_of(p, base_url@));
    let mut entries: Vec<FeedEntry> = Vec::new();
    let mut i: usize = 0;
    while i < posts.len()
        invariant
            i <= posts.len(),
            s == views_of(posts@),
            target == s.map_values(|p: PostV| entry_of(p, base_url@)),
            entry_views(entries@) =~= target.take(i as int),
        decreases posts.len() - i,
    {
        let ghost pre = entry_views(entries@);
        let p = &posts[i];
        let e = FeedEntry {
            title: p.title.clone(),
            link: base_url.clone().concat(p.slug.as_str()),
            author: p.author.clone(),
            html: render_markdown(p.text.as_str()),
            published: p.date,
            updated: p.last_updated,
        };
        proof {
            assert(p@ == s[i as int]);
            assert(e@ == entry_of(s[i as int], base_url@));
        }
        entries.push(e);
        proof {
            assert(entry_views(entries@) =~= pre.push(target[i as int]));
        }
        i = i + 1;
    }
    proof {
        assert(target.take(posts@.len() as int) =~= target);
    }
    let d = FeedDocument {
        author_name: meta.author.clone(),
        author_email: clone_opt_string(&meta.author_email),
        author_url: clone_opt_string(&meta.author_url),
        syndication_url: meta.syndication_url.clone(),
        updated: now,
        entries,
    };
    proof {
        assert(d@ == spec_render(meta@, s, base_url@, now));
        assert forall|a: int, b: int| 0 <= a < b < d@.entries.len() implies d@.entries[a].published
            >= d@.entries[b].published by {
            assert(d@.entries[a] == entry_of(s[a], base_url@));
            assert(d@.entries[b] == entry_of(s[b], base_url@));
        }
        assert forall|a: int| 0 <= a < d@.entries.len() implies valid_ts(
            #[trigger] d@.entries[a].published,
        ) && valid_ts(d@.entries[a].updated) by {
            assert(d@.entries[a] == entry_of(s[a], base_url@));
            assert(s[a].wf());
        }
    }
    d
}

/// A snapshot readers consume: the rendered document and its serialized
/// form, produced together.
pub struct FeedSnapshot {
    pub doc: FeedDocument,
    /// The document written as an Atom XML string.
    pub xml: String,
}

/// Mathematical value of a [`FeedSnapshot`].
pub struct SnapV {
    pub doc: DocV,
    pub xml: Seq<char>,
}

impl View for FeedSnapshot {
    type V = SnapV;

    open spec fn view(&self) -> SnapV {
        SnapV { doc: self.doc@, xml: self.xml@ }
    }
}

impl FeedSnapshot {
    /// The snapshot's document is well formed.
    pub open spec fn wf(&self) -> bool {
        self.doc@.wf()
    }
}

impl Clone for FeedSnapshot {
    /// Clones both fields, preserving the snapshot's mathematical value.
    fn clone(&self) -> (res: Self)
        ensures
            res@ == self@,
    {
        FeedSnapshot { doc: self.doc.clone(), xml: self.xml.clone() }
    }
}

#[verifier::external_type_specification]
#[verifier::external_body]
pub struct ExAtomEntry(atom_syndication::Entry);

#[verifier::external_type_specification]
#[verifier::external_body]
pub struct ExAtomFeed(atom_syndication::Feed);

/// The Atom XML rendering of a feed document: a fixed function of the
/// document's value alone. The builders and the writer are deterministic
/// (extension maps are ordered maps, the element order is fixed), and the
/// values the serializer fixes — the `self` link relation, the
/// `application/atom+xml` MIME type, the `English` language tags, and the
/// `text/html` content marking — are part of this function.
pub uninterp spec fn atom_xml_of(d: DocV) -> Seq<char>;

/// The document a cold start renders when no feed record is persisted.
pub open spec fn empty_doc() -> DocV {
    DocV {
        author_name: Seq::empty(),
        author_email: None,
        author_url: None,
        syndication_url: Seq::empty(),
        updated: 0,
        entries: Seq::empty(),
    }
}

/// Relies on atom_syndication's builders and `ToString for Feed`, with
/// chrono converting the in-range timestamps: writes the document as an Atom
/// XML string, one entry per document entry, deterministically — so the
/// result is `atom_xml_of` of the document's value. The two helpers below
/// hold the per-entry and per-feed assembly; nothing else calls them.
#[verifier::external_body]
fn feed_to_xml(doc: &FeedDocument) -> (r: String)
    requires
        doc@.wf(),
    ensures
        r@ == atom_xml_of(doc@),
{
    let entries: Vec<atom_syndication::Entry> = doc.entries.iter().map(atom_entry).collect();
    assemble_feed(doc, entries).to_string()
}

/// Relies on `atom_syndication::EntryBuilder` (with chrono converting the
/// two in-range timestamps): carries the entry's title, link, author,
/// timestamps, and HTML body into an Atom entry, marking the content
/// `text/html`. Called only from `feed_to_xml`'s body.
#[verifier::external_body]
fn atom_entry(e: &FeedEntry) -> atom_syndication::Entry
    requires
        valid_ts(e.published),
        valid_ts(e.updated),
{
    let updated = DateTime::from_timestamp(e.updated, 0).unwrap().fixed_offset();
    let published = DateTime::from_timestamp(e.published, 0).unwrap().fixed_offset();
    let author = PersonBuilder::default().name(e.author.clone()).build();
    let link = LinkBuilder::default().href(e.link.clone()).build();
    let content = ContentBuilder::default().content_type(Some("text/html".to_string())).value(
        Some(e.html.clone()),
    ).build();
    EntryBuilder::default().title(Text::plain(e.title.clone())).id(e.link.clone()).updated(
        updated,
    ).published(Some(published)).author(author).link(link).content(Some(content)).build()
}

/// Relies on `atom_syndication::FeedBuilder` (with chrono converting the
/// in-range update time): carries the document's author, its feed URL as the
/// self link, the update time, and the prepared entries into an Atom feed.
/// Called only from `feed_to_xml`'s body.
#[verifier::external_body]
fn assemble_feed(doc: &FeedDocument, entries: Vec<atom_syndication::Entry>) -> atom_syndication::Feed
    requires
        valid_ts(doc.updated),
{
    let updated = DateTime::from_timestamp(doc.updated, 0).unwrap().fixed_offset();
    let author = PersonBuilder::default().name(doc.author_name.clone()).email(
        doc.author_email.clone(),
    ).uri(doc.author_url.clone()).build();
    let self_link = LinkBuilder::default().href(doc.syndication_url.clone()).rel(
        "self".to_string(),
    ).hreflang(Some("English".to_string())).mime_type(
        Some("application/atom+xml".to_string()),
    ).build();
    FeedBuilder::default().author(author).lang(Some("English".to_string())).link(
        self_link,
    ).updated(updated).entries(entries).build()
}

/// Serializes a rendered document and returns the snapshot that pairs the
/// document with its serialized form: the snapshot's bytes are exactly the
/// Atom XML rendering of its document.
pub fn make_snapshot(doc: FeedDocument) -> (s: FeedSnapshot)
    requires
        doc@.wf(),
    ensures
        s.doc@ == doc@,
        s.wf(),
        s.xml@ == atom_xml_of(doc@),
{
    let xml = feed_to_xml(&doc);
    FeedSnapshot { doc, xml }
}

} // verus!
