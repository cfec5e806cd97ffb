//! The post store: the canonical collection of posts, the single blog
//! metadata record, and the persisted feed record. It owns identity (slug
//! uniqueness) and visibility state, keeps posts ordered by publish time
//! descending, and never physically removes a row.

use vstd::prelude::*;

use crate::model::{
    valid_ts, ApiError, BlogMetadata, EditRequest, FeedRecV, FeedRecord, MetaV, NewPost, Post,
    PostSummary, PostV, SummaryV, deleted_post, edited_post, new_post_v,
};
use crate::clock::{rfc3339_of, rfc3339_utc};

verus! {

/// The mathematical values of a sequence of posts.
pub open spec fn views_of(s: Seq<Post>) -> Seq<PostV> {
    s.map_values(|p: Post| p@)
}

/// Some post (visible or hidden) carries the slug.
pub open spec fn has_slug(posts: Seq<PostV>, slug: Seq<char>) -> bool {
    exists|i: int| 0 <= i < posts.len() && posts[i].slug == slug
}

/// No two posts share a slug, regardless of visibility.
pub open spec fn slugs_unique(posts: Seq<PostV>) -> bool {
    forall|i: int, j: int| 0 <= i < j < posts.len() ==> posts[i].slug != posts[j].slug
}

/// Publish timestamps never increase along the sequence.
pub open spec fn sorted_desc(posts: Seq<PostV>) -> bool {
    forall|i: int, j: int| 0 <= i < j < posts.len() ==> posts[i].date >= posts[j].date
}

/// Every post's timestamps are representable calendar dates.
pub open spec fn all_wf(posts: Seq<PostV>) -> bool {
    forall|i: int| 0 <= i < posts.len() ==> posts[i].wf()
}

/// Every identifier is below the bound.
pub open spec fn ids_below(posts: Seq<PostV>, bound: u64) -> bool {
    forall|i: int| 0 <= i < posts.len() ==> posts[i].id < bound
}

/// Where a post with the given publish time is inserted so that descending
/// order is kept: after every post whose time is at least as late.
pub open spec fn insert_pos(posts: Seq<PostV>, date: i64) -> int
    decreases posts.len(),
{
    if posts.len() == 0 {
        0
    } else if posts[0].date >= date {
        1 + insert_pos(posts.drop_first(), date)
    } else {
        0
    }
}

/// The visible posts, in order.
pub open spec fn visible_of(posts: Seq<PostV>) -> Seq<PostV>
    decreases posts.len(),
{
    if posts.len() == 0 {
        Seq::empty()
    } else {
        let pre = visible_of(posts.drop_last());
        if posts.last().visible {
            pre.push(posts.last())
        } else {
            pre
        }
    }
}

/// Every element of the visible subsequence is an element of the input, and
/// it is visible.
pub proof fn lemma_visible_subset(posts: Seq<PostV>)
    ensures
        forall|k: int|
            0 <= k < visible_of(posts).len() ==> posts.contains(#[trigger] visible_of(posts)[k])
                && visible_of(posts)[k].visible,
    decreases posts.len(),
{
    if posts.len() == 0 {
    } else {
        let d = posts.drop_last();
        lemma_visible_subset(d);
        let v = visible_of(posts);
        let pre = visible_of(d);
        assert forall|k: int| 0 <= k < v.len() implies posts.contains(v[k]) && v[k].visible by {
            if k < pre.len() {
                assert(d.contains(pre[k]) && pre[k].visible);
                let m = choose|m: int| 0 <= m < d.len() && d[m] == pre[k];
                assert(posts[m] == pre[k]);
                assert(v[k] == pre[k]);
            } else {
                assert(v[k] == posts.last());
                assert(posts[posts.len() - 1] == posts.last());
            }
        }
    }
}

/// Every visible element of the input appears in the visible subsequence.
pub proof fn lemma_visible_complete(posts: Seq<PostV>)
    ensures
        forall|i: int|
            0 <= i < posts.len() && posts[i].visible ==> visible_of(posts).contains(
                #[trigger] posts[i],
            ),
    decreases posts.len(),
{
    if posts.len() == 0 {
    } else {
        let d = posts.drop_last();
        lemma_visible_complete(d);
        let v = visible_of(posts);
        let pre = visible_of(d);
        assert forall|i: int| 0 <= i < posts.len() && posts[i].visible implies v.contains(
            posts[i],
        ) by {
            if i < posts.len() - 1 {
                assert(d[i] == posts[i]);
                assert(pre.contains(posts[i]));
                let m = choose|m: int| 0 <= m < pre.len() && pre[m] == posts[i];
                assert(v[m] == posts[i]);
            } else {
                assert(v[v.len() - 1] == posts.last());
            }
        }
    }
}

/// Filtering to the visible posts keeps the descending publish order.
pub proof fn lemma_visible_sorted(posts: Seq<PostV>)
    requires
        sorted_desc(posts),
    ensures
        sorted_desc(visible_of(posts)),
    decreases posts.len(),
{
    if posts.len() == 0 {
    } else {
        let d = posts.drop_last();
        assert forall|i: int, j: int| 0 <= i < j < d.len() implies d[i].date >= d[j].date by {
            assert(d[i] == posts[i] && d[j] == posts[j]);
        }
        lemma_visible_sorted(d);
        lemma_visible_subset(d);
        let v = visible_of(posts);
        let pre = visible_of(d);
        assert forall|i: int, j: int| 0 <= i < j < v.len() implies v[i].date >= v[j].date by {
            if j < pre.len() {
                assert(v[i] == pre[i] && v[j] == pre[j]);
            } else {
                assert(v[j] == posts.last());
                assert(v[i] == pre[i]);
                assert(d.contains(pre[i]));
                let m = choose|m: int| 0 <= m < d.len() && d[m] == pre[i];
                assert(posts[m] == pre[i]);
                assert(posts[m].date >= posts[posts.len() - 1].date);
            }
        }
    }
}

/// Every element of the visible subsequence has representable timestamps
/// when every input element does.
pub proof fn lemma_visible_wf(posts: Seq<PostV>)
    requires
        all_wf(posts),
    ensures
        all_wf(visible_of(posts)),
{
    lemma_visible_subset(posts);
    let v = visible_of(posts);
    assert forall|k: int| 0 <= k < v.len() implies v[k].wf() by {
        assert(posts.contains(v[k]));
        let m = choose|m: int| 0 <= m < posts.len() && posts[m] == v[k];
        assert(posts[m].wf());
    }
}

/// The public listing row derived from a post.
pub open spec fn summary_of(p: PostV) -> SummaryV {
    SummaryV { title: p.title, slug: p.slug, date: rfc3339_of(p.date), visible: p.visible }
}

/// The public listing derived from a sequence of posts.
pub open spec fn summaries_of(posts: Seq<PostV>) -> Seq<SummaryV> {
    posts.map_values(|p: PostV| summary_of(p))
}

/// The mathematical values of a sequence of listing rows.
pub open spec fn summary_views(s: Seq<PostSummary>) -> Seq<SummaryV> {
    s.map_values(|x: PostSummary| x@)
}

/// The mathematical value of an optional metadata record.
pub open spec fn meta_view(m: Option<BlogMetadata>) -> Option<MetaV> {
    match m {
        Some(x) => Some(x@),
        None => None,
    }
}

/// The mathematical value of an optional feed record.
pub open spec fn feed_view(f: Option<FeedRecord>) -> Option<FeedRecV> {
    match f {
        Some(x) => Some(x@),
        None => None,
    }
}

/// Mathematical value of a [`PostStore`].
pub struct StoreV {
    pub posts: Seq<PostV>,
    pub next_id: u64,
    pub meta: Option<MetaV>,
    pub feed: Option<FeedRecV>,
}

impl StoreV {
    /// The store's invariant: slugs unique across visible and hidden posts,
    /// posts ordered by publish time descending, timestamps representable,
    /// identifiers below the allocator, and both singleton records sound.
    pub open spec fn wf(self) -> bool {
        &&& slugs_unique(self.posts)
        &&& sorted_desc(self.posts)
        &&& all_wf(self.posts)
        &&& ids_below(self.posts, self.next_id)
        &&& (self.meta matches Some(m) ==> m.wf())
        &&& (self.feed matches Some(f) ==> f.wf())
    }
}

/// The canonical post collection plus the two singleton records.
pub struct PostStore {
    posts: Vec<Post>,
    next_id: u64,
    meta: Option<BlogMetadata>,
    feed: Option<FeedRecord>,
}

impl View for PostStore {
    type V = StoreV;

    closed spec fn view(&self) -> StoreV {
        StoreV {
            posts: views_of(self.posts@),
            next_id: self.next_id,
            meta: meta_view(self.meta),
            feed: feed_view(self.feed),
        }
    }
}

proof fn lemma_insert_pos_at(posts: Seq<PostV>, date: i64, k: int)
    requires
        0 <= k <= posts.len(),
        forall|j: int| 0 <= j < k ==> posts[j].date >= date,
        k < posts.len() ==> posts[k].date < date,
    ensures
        insert_pos(posts, date) == k,
    decreases posts.len(),
{
    if posts.len() == 0 {
    } else if k == 0 {
    } else {
        assert(posts[0].date >= date);
        let rest = posts.drop_first();
        assert forall|j: int| 0 <= j < k - 1 implies rest[j].date >= date by {
            assert(rest[j] == posts[j + 1]);
        }
        lemma_insert_pos_at(rest, date, k - 1);
    }
}

impl PostStore {
    /// The store's invariant, stated on its mathematical value.
    pub open spec fn wf(&self) -> bool {
        self@.wf()
    }

    /// Builds a store around the bootstrap state the persistence layer
    /// loaded: no posts yet, and whichever singleton records exist.
    pub fn new(meta: Option<BlogMetadata>, feed: Option<FeedRecord>) -> (s: Self)
        requires
            (meta matches Some(m) ==> m@.wf()),
            (feed matches Some(f) ==> f@.wf()),
        ensures
            s.wf(),
            s@.posts.len() == 0,
            s@.next_id == 1,
            s@.meta == meta_view(meta),
            s@.feed == feed_view(feed),
    {
        let s = PostStore { posts: Vec::new(), next_id: 1, meta, feed };
        proof {
            assert(views_of(s.posts@) =~= Seq::<PostV>::empty());
        }
        s
    }

    /// The number of rows, visible and hidden alike.
    pub fn post_count(&self) -> (n: usize)
        ensures
            n == self@.posts.len(),
    {
        self.posts.len()
    }

    /// The metadata record, if configured.
    pub fn metadata(&self) -> (r: Option<&BlogMetadata>)
        ensures
            match r {
                Some(m) => self@.meta == Some(m@),
                None => self@.meta is None,
            },
    {
        self.meta.as_ref()
    }

    /// The persisted feed record, if present.
    pub fn feed_record(&self) -> (r: Option<&FeedRecord>)
        ensures
            match r {
                Some(f) => self@.feed == Some(f@),
                None => self@.feed is None,
            },
    {
        self.feed.as_ref()
    }

    fn index_of_slug(&self, slug: &String) -> (r: Option<usize>)
        ensures
            match r {
                Some(i) => i < self@.posts.len() && self@.posts[i as int].slug == slug@,
                None => !has_slug(self@.posts, slug@),
            },
    {
        let mut i: usize = 0;
        while i < self.posts.len()
            invariant
                i <= self.posts.len(),
                forall|j: int| 0 <= j < i ==> views_of(self.posts@)[j].slug != slug@,
            decreases self.posts.len() - i,
        {
            if self.posts[i].slug == *slug {
                return Some(i);
            }
            i = i + 1;
        }
        None
    }

    /// Looks a post up by slug, visible or hidden alike: duplicate detection
    /// checks the full table, never just the visible rows.
    pub fn find_by_slug(&self, slug: &String) -> (r: Option<Post>)
        ensures
            match r {
                Some(p) => p@.slug == slug@ && exists|i: int|
                    0 <= i < self@.posts.len() && self@.posts[i] == p@,
                None => !has_slug(self@.posts, slug@),
            },
    {
        match self.index_of_slug(slug) {
            Some(i) => {
                let p = self.posts[i].clone();
                proof {
                    assert(self@.posts[i as int] == p@);
                }
                Some(p)
            },
            None => None,
        }
    }

    /// Inserts a candidate post. Refused with a conflict when any row,
    /// visible or hidden, already carries the slug; otherwise the store
    /// assigns the next identifier, clears the edited flag, stamps
    /// last-modified with the mutation time, and files the post at its
    /// publish-time position. Identifier exhaustion surfaces as a
    /// persistence failure.
    pub fn create(&mut self, c: &NewPost, now: i64) -> (r: Result<Post, ApiError>)
        requires
            old(self).wf(),
            c.wf(),
            valid_ts(now),
        ensures
            final(self).wf(),
            final(self)@.meta == old(self)@.meta,
            final(self)@.feed == old(self)@.feed,
            (r is Ok <==> !has_slug(old(self)@.posts, c@.slug) && old(self)@.next_id
                < u64::MAX),
            match r {
                Ok(p) => ({
                    &&& p@ == new_post_v(c@, old(self)@.next_id, now)
                    &&& final(self)@.posts == old(self)@.posts.insert(
                        insert_pos(old(self)@.posts, c@.date),
                        p@,
                    )
                    &&& final(self)@.next_id == old(self)@.next_id + 1
                }),
                Err(e) => ({
                    &&& final(self)@ == old(self)@
                    &&& (e == ApiError::Conflict <==> has_slug(old(self)@.posts, c@.slug))
                    &&& (e == ApiError::Conflict || e == ApiError::Persistence)
                }),
            },
    {
        if self.index_of_slug(&c.slug).is_some() {
            return Err(ApiError::Conflict);
        }
        if self.next_id == u64::MAX {
            return Err(ApiError::Persistence);
        }
        let post = Post {
            id: self.next_id,
            title: c.title.clone(),
            slug: c.slug.clone(),
            blog_title: c.blog_title.clone(),
            author: c.author.clone(),
            text: c.text.clone(),
            description: c.description.clone(),
            image: crate::model::clone_opt_string(&c.image),
            tags: crate::model::clone_opt_string_vec(&c.tags),
            next: crate::model::clone_opt_string(&c.next),
            previous: crate::model::clone_opt_string(&c.previous),
            date: c.date,
            last_updated: now,
            visible: c.visible,
            edited: false,
        };
        proof {
            assert(post@ == new_post_v(c@, old(self)@.next_id, now));
        }
        let ghost s0 = self@.posts;
        let mut k: usize = 0;
        while k < self.posts.len() && self.posts[k].date >= c.date
            invariant
                k <= self.posts.len(),
                forall|j: int| 0 <= j < k ==> views_of(self.posts@)[j].date >= c.date,
                self.posts@ == old(self).posts@,
            decreases self.posts.len() - k,
        {
            k = k + 1;
        }
        proof {
            lemma_insert_pos_at(s0, c@.date, k as int);
        }
        let ret = post.clone();
        self.posts.insert(k, post);
        self.next_id = self.next_id + 1;
        proof {
            let s1 = self@.posts;
            assert(s1 =~= s0.insert(k as int, ret@));
            s0.insert_ensures(k as int, ret@);
            assert(slugs_unique(s1));
            assert forall|i: int, j: int| 0 <= i < j < s1.len() implies s1[i].date >= s1[j].date
                by {
                if i < k && j == k {
                    assert(s1[i] == s0[i]);
                } else if i == k && j > k {
                    assert(s1[j] == s0[j - 1]);
                    if k < s0.len() {
                        assert(s0[k as int].date < c@.date);
                    }
                }
            }
            assert(all_wf(s1));
            assert(ids_below(s1, self@.next_id));
        }
        Ok(ret)
    }

    /// Applies a partial edit to the post carrying the slug: supplied fields
    /// replace old values, absent fields keep them; the edited flag is set
    /// and last-modified refreshed even when the supplied values equal the
    /// existing ones. Not-found when no row carries the slug.
    pub fn apply_edit(&mut self, slug: &String, edits: &EditRequest, now: i64) -> (r: Result<
        Post,
        ApiError,
    >)
        requires
            old(self).wf(),
            valid_ts(now),
        ensures
            final(self).wf(),
            final(self)@.meta == old(self)@.meta,
            final(self)@.feed == old(self)@.feed,
            final(self)@.next_id == old(self)@.next_id,
            (r is Ok <==> has_slug(old(self)@.posts, slug@)),
            match r {
                Ok(p) => exists|i: int|
                    0 <= i < old(self)@.posts.len() && old(self)@.posts[i].slug == slug@ && p@
                        == edited_post(old(self)@.posts[i], edits@, now) && final(self)@.posts
                        == old(self)@.posts.update(i, p@),
                Err(e) => e == ApiError::NotFound && final(self)@ == old(self)@,
            },
    {
        let i = match self.index_of_slug(slug) {
            Some(i) => i,
            None => {
                return Err(ApiError::NotFound);
            },
        };
        let ghost s0 = self@.posts;
        let mut p = self.posts.remove(i);
        match &edits.title {
            Option::Some(t) => {
                p.title = t.clone();
            },
            Option::None => {},
        }
        match &edits.text {
            Option::Some(t) => {
                p.text = t.clone();
            },
            Option::None => {},
        }
        match &edits.tags {
            Option::Some(t) => {
                p.tags = Some(crate::model::clone_string_vec(t));
            },
            Option::None => {},
        }
        match edits.visible {
            Option::Some(v) => {
                p.visible = v;
            },
            Option::None => {},
        }
        p.edited = true;
        p.last_updated = now;
        proof {
            assert(p@ == edited_post(s0[i as int], edits@, now));
        }
        let ret = p.clone();
        self.posts.insert(i, p);
        proof {
            let s1 = self@.posts;
            assert(s1 =~= s0.update(i as int, ret@));
        }
        Ok(ret)
    }

    /// Soft-deletes the post carrying the slug: clears visibility and
    /// touches nothing else. Succeeds even when the post is already hidden;
    /// not-found when no row carries the slug.
    pub fn soft_delete(&mut self, slug: &String) -> (r: Result<Post, ApiError>)
        requires
            old(self).wf(),
        ensures
            final(self).wf(),
            final(self)@.meta == old(self)@.meta,
            final(self)@.feed == old(self)@.feed,
            final(self)@.next_id == old(self)@.next_id,
            (r is Ok <==> has_slug(old(self)@.posts, slug@)),
            match r {
                Ok(p) => exists|i: int|
                    0 <= i < old(self)@.posts.len() && old(self)@.posts[i].slug == slug@ && p@
                        == deleted_post(old(self)@.posts[i]) && final(self)@.posts == old(
                        self,
                    )@.posts.update(i, p@),
                Err(e) => e == ApiError::NotFound && final(self)@ == old(self)@,
            },
    {
        let i = match self.index_of_slug(slug) {
            Some(i) => i,
            None => {
                return Err(ApiError::NotFound);
            },
        };
        let ghost s0 = self@.posts;
        let mut p = self.posts.remove(i);
        p.visible = false;
        proof {
            assert(p@ == deleted_post(s0[i as int]));
        }
        let ret = p.clone();
        self.posts.insert(i, p);
        proof {
            let s1 = self@.posts;
            assert(s1 =~= s0.update(i as int, ret@));
        }
        Ok(ret)
    }

    /// The visible posts in publish-time order, for the feed renderer.
    /// Never fails on an empty result.
    pub fn list_visible(&self) -> (r: Vec<Post>)
        ensures
            views_of(r@) == visible_of(self@.posts),
    {
        let ghost s = self@.posts;
        let mut out: Vec<Post> = Vec::new();
        let mut i: usize = 0;
        proof {
            assert(views_of(out@) =~= visible_of(s.take(0)));
        }
        while i < self.posts.len()
            invariant
                i <= self.posts.len(),
                s == views_of(self.posts@),
                views_of(out@) == visible_of(s.take(i as int)),
            decreases self.posts.len() - i,
        {
            let ghost pre = views_of(out@);
            if self.posts[i].visible {
                let c = self.posts[i].clone();
                out.push(c);
                proof {
                    assert(views_of(out@) =~= pre.push(s[i as int]));
                }
            }
            proof {
                assert(s.take(i + 1).drop_last() =~= s.take(i as int));
                assert(s.take(i + 1).last() == s[i as int]);
            }
            i = i + 1;
        }
        proof {
            assert(s.take(self.posts@.len() as int) =~= s);
        }
        out
    }

    /// One listing row per post, visible and hidden alike, in publish-time
    /// order, each with its publish date rendered in RFC 3339 form.
    pub fn list_summaries(&self) -> (r: Vec<PostSummary>)
        requires
            self.wf(),
        ensures
            summary_views(r@) == summaries_of(self@.posts),
    {
        let ghost s = self@.posts;
        let mut out: Vec<PostSummary> = Vec::new();
        let mut i: usize = 0;
        while i < self.posts.len()
            invariant
                i <= self.posts.len(),
                s == views_of(self.posts@),
                all_wf(s),
                summary_views(out@) == summaries_of(s.take(i as int)),
            decreases self.posts.len() - i,
        {
            let ghost pre = summary_views(out@);
            let p = &self.posts[i];
            proof {
                assert(s[i as int].wf());
                assert(p@ == s[i as int]);
            }
            let row = PostSummary {
                title: p.title.clone(),
                slug: p.slug.clone(),
                date: rfc3339_utc(p.date),
                visible: p.visible,
            };
            proof {
                assert(row@ == summary_of(s[i as int]));
            }
            out.push(row);
            proof {
                assert(summary_views(out@) =~= pre.push(summary_of(s[i as int])));
                assert(summaries_of(s.take(i + 1)) =~= summaries_of(s.take(i as int)).push(
                    summary_of(s[i as int]),
                ));
            }
            i = i + 1;
        }
        proof {
            assert(s.take(self.posts@.len() as int) =~= s);
        }
        out
    }

    /// Stamps the metadata record's last-updated timestamp; the sync
    /// pipeline calls this after the feed is persisted. Fails when the
    /// record was never configured.
    pub fn touch_meta(&mut self, now: i64) -> (r: Result<(), ApiError>)
        requires
            old(self).wf(),
            valid_ts(now),
        ensures
            final(self).wf(),
            final(self)@.posts == old(self)@.posts,
            final(self)@.next_id == old(self)@.next_id,
            final(self)@.feed == old(self)@.feed,
            (r is Ok <==> old(self)@.meta is Some),
            match r {
                Ok(u) => final(self)@.meta == Some(old(self)@.meta.unwrap().stamped(now)),
                Err(e) => e == ApiError::Persistence && final(self)@ == old(self)@,
            },
    {
        match &mut self.meta {
            Option::Some(m) => {
                m.last_updated = now;
                Ok(())
            },
            Option::None => Err(ApiError::Persistence),
        }
    }

    /// Rewrites the persisted feed record with a freshly serialized
    /// document, refreshing its last-updated timestamp. Fails when the
    /// record row is absent.
    pub fn store_feed(&mut self, xml: String, now: i64) -> (r: Result<(), ApiError>)
        requires
            old(self).wf(),
            valid_ts(now),
        ensures
            final(self).wf(),
            final(self)@.posts == old(self)@.posts,
            final(self)@.next_id == old(self)@.next_id,
            final(self)@.meta == old(self)@.meta,
            (r is Ok <==> old(self)@.feed is Some),
            match r {
                Ok(u) => final(self)@.feed == Some(
                    FeedRecV { xml: xml@, last_updated: now },
                ),
                Err(e) => e == ApiError::Persistence && final(self)@ == old(self)@,
            },
    {
        match &mut self.feed {
            Option::Some(f) => {
                f.xml = xml;
                f.last_updated = now;
                Ok(())
            },
            Option::None => Err(ApiError::Persistence),
        }
    }
}

} // verus!
