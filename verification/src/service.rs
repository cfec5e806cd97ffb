//! The mutating entry points and the sync pipeline they trigger: persist the
//! mutation, reload the canonical state, render a new feed document, persist
//! its serialized form, stamp the metadata, and swap the cache — in that
//! order, each step a hard dependency on the previous succeeding. When a
//! later step fails, the already-applied post mutation stays committed: the
//! caller receives a failure while the feed is left stale until the next
//! successful mutation repeats the pipeline.

use vstd::prelude::*;
use vstd::string::{StrSliceExecFns, StringExecFns};

use crate::auth::{authorize, spec_authorized};
use crate::cache::FeedCache;
use crate::feed::{atom_xml_of, empty_doc, make_snapshot, render_feed, spec_render, FeedSnapshot};
use crate::markdown::{html_of, render_markdown};
use crate::model::{
    deleted_post, edited_post, new_post_v, valid_ts, ApiError, Config, EditRequest, FeedRecV,
    FeedRecord, NewPost, Post, PostV,
};
use crate::store::{
    has_slug, insert_pos, lemma_visible_sorted, lemma_visible_wf, visible_of, PostStore,
};

verus! {

/// A post as the public single-post read returns it: the markdown source
/// replaced by its HTML rendering, all other fields untouched.
pub open spec fn rendered_post(p: PostV) -> PostV {
    PostV { text: html_of(p.text), ..p }
}

/// What a successful create hands back: the stored post, the Location value
/// (the public base URL followed by the slug), and the snapshot the cache
/// now holds.
pub struct CreateOk {
    pub post: Post,
    pub location: String,
    pub snapshot: FeedSnapshot,
}

/// What a successful edit or soft-delete hands back: the stored post and the
/// snapshot the cache now holds.
pub struct MutationOk {
    pub post: Post,
    pub snapshot: FeedSnapshot,
}

/// Runs the tail of the pipeline after a post mutation is committed: reloads
/// the canonical state (metadata plus the currently visible posts, freshly
/// queried), renders a new document, persists its serialized form into the
/// feed record, stamps the metadata, and swaps the cache. On any failure it
/// aborts and surfaces the error; nothing already persisted is rolled back.
pub fn sync_feed(store: &mut PostStore, cache: &FeedCache, config: &Config, now: i64) -> (r:
    Result<FeedSnapshot, ApiError>)
    requires
        old(store).wf(),
        cache.wf(),
        valid_ts(now),
    ensures
        final(store).wf(),
        final(store)@.posts == old(store)@.posts,
        final(store)@.next_id == old(store)@.next_id,
        (r is Ok <==> old(store)@.meta is Some && old(store)@.feed is Some),
        match r {
            Ok(snap) => ({
                &&& snap.wf()
                &&& snap.doc@ == spec_render(
                    old(store)@.meta.unwrap(),
                    visible_of(old(store)@.posts),
                    config.base_url@,
                    now,
                )
                &&& snap.xml@ == atom_xml_of(snap.doc@)
                &&& final(store)@.meta == Some(old(store)@.meta.unwrap().stamped(now))
                &&& final(store)@.feed == Some(
                    FeedRecV { xml: snap.xml@, last_updated: now },
                )
            }),
            Err(e) => ({
                &&& final(store)@ == old(store)@
                &&& (e == ApiError::MissingMetadata <==> old(store)@.meta is None)
                &&& (e == ApiError::Persistence <==> old(store)@.meta is Some && old(store)@.feed is None)
                &&& (e == ApiError::MissingMetadata || e == ApiError::Persistence)
            }),
        },
{
    let meta = match store.metadata() {
        Option::Some(m) => m.clone(),
        Option::None => {
            return Err(ApiError::MissingMetadata);
        },
    };
    let posts = store.list_visible();
    proof {
        lemma_visible_sorted(old(store)@.posts);
        lemma_visible_wf(old(store)@.posts);
    }
    let doc = render_feed(&meta, &posts, &config.base_url, now);
    let snap = make_snapshot(doc);
    match store.store_feed(snap.xml.clone(), now) {
        Ok(u) => {},
        Err(e) => {
            return Err(e);
        },
    }
    match store.touch_meta(now) {
        Ok(u) => {},
        Err(e) => {
            proof {
                // The metadata was present when the render began and nothing
                // since removed it, so this arm is unreachable.
                assert(false);
            }
            return Err(e);
        },
    }
    cache.replace(snap.clone());
    Ok(snap)
}

/// Decides a create request: the write gate first, then duplicate detection
/// against the full table (visible and hidden alike), then the insert, then
/// the sync pipeline. A failure after the insert leaves the new post
/// committed while the feed stays stale.
pub fn create_post(
    store: &mut PostStore,
    cache: &FeedCache,
    config: &Config,
    credential: Option<&String>,
    candidate: &NewPost,
    now: i64,
) -> (r: Result<CreateOk, ApiError>)
    requires
        old(store).wf(),
        cache.wf(),
        candidate.wf(),
        valid_ts(now),
    ensures
        final(store).wf(),
        ({
            let authorized = spec_authorized(credential.deep_view(), config.api_key_hash@);
            let dup = has_slug(old(store)@.posts, candidate@.slug);
            let created = new_post_v(candidate@, old(store)@.next_id, now);
            let inserted = old(store)@.posts.insert(
                insert_pos(old(store)@.posts, candidate@.date),
                created,
            );
            &&& (r is Ok <==> authorized && !dup && old(store)@.next_id < u64::MAX && old(store)@.meta is Some && old(store)@.feed is Some)
            &&& match r {
                Ok(k) => ({
                    &&& k.post@ == created
                    &&& k.location@ == config.base_url@ + candidate@.slug
                    &&& final(store)@.posts == inserted
                    &&& final(store)@.next_id == old(store)@.next_id + 1
                    &&& final(store)@.meta == Some(old(store)@.meta.unwrap().stamped(now))
                    &&& final(store)@.feed == Some(
                        FeedRecV { xml: k.snapshot.xml@, last_updated: now },
                    )
                    &&& k.snapshot.doc@ == spec_render(
                        old(store)@.meta.unwrap(),
                        visible_of(inserted),
                        config.base_url@,
                        now,
                    )
                    &&& k.snapshot.xml@ == atom_xml_of(k.snapshot.doc@)
                    &&& k.snapshot.wf()
                }),
                Err(e) => ({
                    &&& (e == ApiError::Auth <==> !authorized)
                    &&& (e == ApiError::Conflict <==> authorized && dup)
                    &&& (e == ApiError::MissingMetadata <==> authorized && !dup && old(store)@.next_id < u64::MAX && old(store)@.meta is None)
                    &&& (e == ApiError::Persistence <==> authorized && !dup && (old(store)@.next_id == u64::MAX || (old(store)@.next_id < u64::MAX && old(store)@.meta is Some && old(store)@.feed is None)))
                    &&& ((e == ApiError::Auth || e == ApiError::Conflict || old(store)@.next_id
                        == u64::MAX) ==> final(store)@ == old(store)@)
                    &&& ((e == ApiError::MissingMetadata || (e == ApiError::Persistence && old(store)@.next_id < u64::MAX)) ==> final(store)@.posts == inserted && final(store)@.next_id == old(store)@.next_id + 1 && final(store)@.meta == old(store)@.meta && final(store)@.feed == old(store)@.feed)
                }),
            }
        }),
{
    if !authorize(credential, &config.api_key_hash) {
        return Err(ApiError::Auth);
    }
    let created = match store.create(candidate, now) {
        Ok(p) => p,
        Err(e) => {
            return Err(e);
        },
    };
    match sync_feed(store, cache, config, now) {
        Ok(snapshot) => {
            let location = config.base_url.clone().concat(candidate.slug.as_str());
            Ok(CreateOk { post: created, location, snapshot })
        },
        Err(e) => Err(e),
    }
}

/// Decides an edit request: the write gate first, then lookup by slug
/// (visible and hidden alike), then the partial update, then the sync
/// pipeline. A failure after the update leaves the edit committed while the
/// feed stays stale.
pub fn edit_post(
    store: &mut PostStore,
    cache: &FeedCache,
    config: &Config,
    credential: Option<&String>,
    slug: &String,
    edits: &EditRequest,
    now: i64,
) -> (r: Result<MutationOk, ApiError>)
    requires
        old(store).wf(),
        cache.wf(),
        valid_ts(now),
    ensures
        final(store).wf(),
        final(store)@.next_id == old(store)@.next_id,
        ({
            let authorized = spec_authorized(credential.deep_view(), config.api_key_hash@);
            let found = has_slug(old(store)@.posts, slug@);
            &&& (r is Ok <==> authorized && found && old(store)@.meta is Some && old(store)@.feed is Some)
            &&& match r {
                Ok(k) => exists|i: int|
                    ({
                        &&& 0 <= i < old(store)@.posts.len()
                        &&& old(store)@.posts[i].slug == slug@
                        &&& k.post@ == edited_post(old(store)@.posts[i], edits@, now)
                        &&& final(store)@.posts == old(store)@.posts.update(i, k.post@)
                        &&& final(store)@.meta == Some(old(store)@.meta.unwrap().stamped(now))
                        &&& final(store)@.feed == Some(
                            FeedRecV { xml: k.snapshot.xml@, last_updated: now },
                        )
                        &&& k.snapshot.doc@ == spec_render(
                            old(store)@.meta.unwrap(),
                            visible_of(final(store)@.posts),
                            config.base_url@,
                            now,
                        )
                        &&& k.snapshot.xml@ == atom_xml_of(k.snapshot.doc@)
                        &&& k.snapshot.wf()
                    }),
                Err(e) => ({
                    &&& (e == ApiError::Auth <==> !authorized)
                    &&& (e == ApiError::NotFound <==> authorized && !found)
                    &&& (e == ApiError::MissingMetadata <==> authorized && found && old(store)@.meta is None)
                    &&& (e == ApiError::Persistence <==> authorized && found && old(store)@.meta is Some && old(store)@.feed is None)
                    &&& ((e == ApiError::Auth || e == ApiError::NotFound) ==> final(store)@
                        == old(store)@)
                    &&& ((e == ApiError::MissingMetadata || e == ApiError::Persistence)
                        ==> final(store)@.meta == old(store)@.meta && final(store)@.feed == old(store)@.feed && exists|i: int|
                        ({
                            &&& 0 <= i < old(store)@.posts.len()
                            &&& old(store)@.posts[i].slug == slug@
                            &&& final(store)@.posts == old(store)@.posts.update(
                                i,
                                edited_post(old(store)@.posts[i], edits@, now),
                            )
                        }))
                }),
            }
        }),
{
    if !authorize(credential, &config.api_key_hash) {
        return Err(ApiError::Auth);
    }
    let updated = match store.apply_edit(slug, edits, now) {
        Ok(p) => p,
        Err(e) => {
            return Err(e);
        },
    };
    match sync_feed(store, cache, config, now) {
        Ok(snapshot) => Ok(MutationOk { post: updated, snapshot }),
        Err(e) => Err(e),
    }
}

/// Decides a soft-delete request: the write gate first, then lookup by slug,
/// then the visibility clear, then the sync pipeline. Succeeds even when the
/// post is already hidden. A failure after the update leaves the soft-delete
/// committed while the feed stays stale.
pub fn delete_post(
    store: &mut PostStore,
    cache: &FeedCache,
    config: &Config,
    credential: Option<&String>,
    slug: &String,
    now: i64,
) -> (r: Result<MutationOk, ApiError>)
    requires
        old(store).wf(),
        cache.wf(),
        valid_ts(now),
    ensures
        final(store).wf(),
        final(store)@.next_id == old(store)@.next_id,
        ({
            let authorized = spec_authorized(credential.deep_view(), config.api_key_hash@);
            let found = has_slug(old(store)@.posts, slug@);
            &&& (r is Ok <==> authorized && found && old(store)@.meta is Some && old(store)@.feed is Some)
            &&& match r {
                Ok(k) => exists|i: int|
                    ({
                        &&& 0 <= i < old(store)@.posts.len()
                        &&& old(store)@.posts[i].slug == slug@
                        &&& k.post@ == deleted_post(old(store)@.posts[i])
                        &&& final(store)@.posts == old(store)@.posts.update(i, k.post@)
                        &&& final(store)@.meta == Some(old(store)@.meta.unwrap().stamped(now))
                        &&& final(store)@.feed == Some(
                            FeedRecV { xml: k.snapshot.xml@, last_updated: now },
                        )
                        &&& k.snapshot.doc@ == spec_render(
                            old(store)@.meta.unwrap(),
                            visible_of(final(store)@.posts),
                            config.base_url@,
                            now,
                        )
                        &&& k.snapshot.xml@ == atom_xml_of(k.snapshot.doc@)
                        &&& k.snapshot.wf()
                    }),
                Err(e) => ({
                    &&& (e == ApiError::Auth <==> !authorized)
                    &&& (e == ApiError::NotFound <==> authorized && !found)
                    &&& (e == ApiError::MissingMetadata <==> authorized && found && old(store)@.meta is None)
                    &&& (e == ApiError::Persistence <==> authorized && found && old(store)@.meta is Some && old(store)@.feed is None)
                    &&& ((e == ApiError::Auth || e == ApiError::NotFound) ==> final(store)@
                        == old(store)@)
                    &&& ((e == ApiError::MissingMetadata || e == ApiError::Persistence)
                        ==> final(store)@.meta == old(store)@.meta && final(store)@.feed == old(store)@.feed && exists|i: int|
                        ({
                            &&& 0 <= i < old(store)@.posts.len()
                            &&& old(store)@.posts[i].slug == slug@
                            &&& final(store)@.posts == old(store)@.posts.update(
                                i,
                                deleted_post(old(store)@.posts[i]),
                            )
                        }))
                }),
            }
        }),
{
    if !authorize(credential, &config.api_key_hash) {
        return Err(ApiError::Auth);
    }
    let hidden = match store.soft_delete(slug) {
        Ok(p) => p,
        Err(e) => {
            return Err(e);
        },
    };
    match sync_feed(store, cache, config, now) {
        Ok(snapshot) => Ok(MutationOk { post: hidden, snapshot }),
        Err(e) => Err(e),
    }
}

/// Decides the public single-post read: found only when a post carries the
/// slug and is visible; a hidden match is reported exactly like an absent
/// one. On success the post is returned with its markdown source replaced by
/// the rendered HTML.
pub fn read_post(store: &PostStore, slug: &String) -> (r: Result<Post, ApiError>)
    requires
        store.wf(),
    ensures
        (r is Ok <==> exists|i: int|
            0 <= i < store@.posts.len() && store@.posts[i].slug == slug@ && store@.posts[i].visible),
        match r {
            Ok(p) => exists|i: int|
                ({
                    &&& 0 <= i < store@.posts.len()
                    &&& store@.posts[i].slug == slug@
                    &&& store@.posts[i].visible
                    &&& p@ == rendered_post(store@.posts[i])
                }),
            Err(e) => e == ApiError::NotFound,
        },
{
    match store.find_by_slug(slug) {
        Option::Some(found) => {
            if found.visible {
                let mut p = found;
                let html = render_markdown(p.text.as_str());
                p.text = html;
                Ok(p)
            } else {
                proof {
                    let i = choose|i: int|
                        0 <= i < store@.posts.len() && store@.posts[i] == found@;
                    assert forall|j: int|
                        0 <= j < store@.posts.len() && store@.posts[j].slug
                            == slug@ implies !store@.posts[j].visible by {
                        assert(crate::store::slugs_unique(store@.posts));
                        if j != i {
                            assert(store@.posts[i].slug == store@.posts[j].slug);
                            assert(false);
                        }
                    }
                }
                Err(ApiError::NotFound)
            }
        },
        Option::None => Err(ApiError::NotFound),
    }
}

/// The slug a well-formed single-post path carries: the characters after
/// `/api/posts/`, which must be at least one, with no further slash. Every
/// other shape is malformed.
pub open spec fn spec_path_slug(path: Seq<char>) -> Option<Seq<char>> {
    let prefix = "/api/posts/"@;
    if path.len() > prefix.len() && path.subrange(0, prefix.len() as int) == prefix && (forall|
        i: int,
    | prefix.len() <= i < path.len() ==> path[i] != '/') {
        Some(path.subrange(prefix.len() as int, path.len() as int))
    } else {
        None
    }
}

/// Decides the single-post path shape: accepts exactly the paths of the form
/// `/api/posts/{slug}` with a nonempty slug and no further slash, and
/// extracts the slug.
pub fn path_slug(path: &str) -> (r: Option<String>)
    ensures
        r.deep_view() == spec_path_slug(path@),
{
    proof {
        reveal_strlit("/api/posts/");
    }
    let ghost prefix = "/api/posts/"@;
    let n = path.unicode_len();
    if n <= 11 {
        return None;
    }
    let mut i: usize = 0;
    while i < 11
        invariant
            i <= 11,
            n == path@.len(),
            n > 11,
            prefix == "/api/posts/"@,
            prefix.len() == 11,
            forall|j: int| 0 <= j < i ==> path@[j] == prefix[j],
        decreases 11 - i,
    {
        let c = path.get_char(i);
        let d = "/api/posts/".get_char(i);
        if c != d {
            proof {
                assert(path@.subrange(0, 11)[i as int] == path@[i as int]);
                assert(path@.subrange(0, 11) != prefix);
            }
            return None;
        }
        i = i + 1;
    }
    proof {
        assert(path@.subrange(0, 11) =~= prefix);
    }
    let mut j: usize = 11;
    while j < n
        invariant
            11 <= j <= n,
            n == path@.len(),
            forall|k: int| 11 <= k < j ==> path@[k] != '/',
        decreases n - j,
    {
        let c = path.get_char(j);
        if c == '/' {
            proof {
                reveal_strlit("/api/posts/");
                assert(path@[j as int] == '/');
                if spec_path_slug(path@) is Some {
                    assert(forall|k: int|
                        "/api/posts/"@.len() <= k < path@.len() ==> path@[k] != '/');
                    assert(path@[j as int] != '/');
                }
            }
            return None;
        }
        j = j + 1;
    }
    let slug = path.substring_char(11, n);
    Some(slug.to_owned())
}

/// Builds the cold-start snapshot: the persisted feed record's serialized
/// form when one exists, else the rendering of the empty default document.
/// The paired document is the empty one in both cases; every later
/// successful mutation replaces the snapshot wholesale.
pub fn init_snapshot(record: Option<&FeedRecord>) -> (s: FeedSnapshot)
    ensures
        s.wf(),
        s.doc@ == empty_doc(),
        match record {
            Some(rec) => s.xml@ == rec@.xml,
            None => s.xml@ == atom_xml_of(empty_doc()),
        },
{
    let doc = crate::feed::FeedDocument {
        author_name: String::new(),
        author_email: Option::None,
        author_url: Option::None,
        syndication_url: String::new(),
        updated: 0,
        entries: Vec::new(),
    };
    proof {
        assert(crate::feed::entry_views(doc.entries@) =~= Seq::<crate::feed::EntryV>::empty());
        assert(doc@ == empty_doc());
    }
    match record {
        Option::Some(rec) => FeedSnapshot { doc, xml: rec.xml.clone() },
        Option::None => make_snapshot(doc),
    }
}

} // verus!
