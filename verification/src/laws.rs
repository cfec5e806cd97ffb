//! Laws the store and the renderer obey, stated over the same spec
//! functions the executable contracts use.

use vstd::prelude::*;

use crate::feed::{entry_of, spec_render};
use crate::model::{deleted_post, edited_post, new_post_v, EditV, MetaV, NewPostV, PostV};
use crate::store::{
    has_slug, insert_pos, lemma_visible_complete, lemma_visible_sorted, lemma_visible_subset,
    slugs_unique, sorted_desc, summaries_of, visible_of,
};

verus! {

/// The insertion point the store files a post at is inside the sequence.
pub proof fn lemma_insert_pos_bounds(posts: Seq<PostV>, date: i64)
    ensures
        0 <= insert_pos(posts, date) <= posts.len(),
    decreases posts.len(),
{
    if posts.len() == 0 {
    } else if posts[0].date >= date {
        lemma_insert_pos_bounds(posts.drop_first(), date);
    }
}

/// Once a post with a slug is filed, the slug is occupied — so a later
/// create with the same slug is refused with a conflict (the create
/// contract) — and filing a fresh slug never produces a duplicate row.
pub proof fn lemma_create_occupies_slug(posts: Seq<PostV>, c: NewPostV, id: u64, now: i64)
    requires
        !has_slug(posts, c.slug),
    ensures
        ({
            let inserted = posts.insert(insert_pos(posts, c.date), new_post_v(c, id, now));
            &&& has_slug(inserted, c.slug)
            &&& (slugs_unique(posts) ==> slugs_unique(inserted))
        }),
{
    lemma_insert_pos_bounds(posts, c.date);
    let k = insert_pos(posts, c.date);
    let p = new_post_v(c, id, now);
    let inserted = posts.insert(k, p);
    posts.insert_ensures(k, p);
    assert(inserted[k] == p);
    assert(has_slug(inserted, c.slug));
    if slugs_unique(posts) {
        assert forall|i: int, j: int|
            0 <= i < j < inserted.len() implies inserted[i].slug != inserted[j].slug by {
            if i == k {
                assert(inserted[j] == posts[j - 1]);
            } else if j == k {
                assert(inserted[i] == posts[i]);
            } else {
                let a: int = if i < k { i } else { i - 1 };
                let b: int = if j < k { j } else { j - 1 };
                assert(inserted[i] == posts[a] && inserted[j] == posts[b]);
            }
        }
    }
}

/// A successful edit keeps every field the payload does not carry, byte for
/// byte; it always sets the edited flag and stamps last-modified with the
/// mutation time.
pub proof fn lemma_edit_preserves_absent_fields(p: PostV, e: EditV, now: i64)
    ensures
        ({
            let q = edited_post(p, e, now);
            &&& (e.title is None ==> q.title == p.title)
            &&& (e.text is None ==> q.text == p.text)
            &&& (e.tags is None ==> q.tags == p.tags)
            &&& (e.visible is None ==> q.visible == p.visible)
            &&& q.id == p.id
            &&& q.slug == p.slug
            &&& q.blog_title == p.blog_title
            &&& q.author == p.author
            &&& q.description == p.description
            &&& q.image == p.image
            &&& q.next == p.next
            &&& q.previous == p.previous
            &&& q.date == p.date
            &&& q.edited
            &&& q.last_updated == now
        }),
{
}

/// An edit taken at a time strictly later than the post's last-modified
/// time strictly increases last-modified.
pub proof fn lemma_edit_advances_last_modified(p: PostV, e: EditV, now: i64)
    requires
        now > p.last_updated,
    ensures
        edited_post(p, e, now).last_updated > p.last_updated,
{
}

/// After a soft-delete the post is still present in the full listing, with
/// its slug and with visibility cleared — and no visible row carries the
/// slug any more, so the public single-post read reports it absent (the
/// read contract).
pub proof fn lemma_soft_delete_listed_not_readable(posts: Seq<PostV>, i: int)
    requires
        slugs_unique(posts),
        0 <= i < posts.len(),
    ensures
        ({
            let after = posts.update(i, deleted_post(posts[i]));
            &&& after.len() == posts.len()
            &&& after[i].slug == posts[i].slug
            &&& !after[i].visible
            &&& summaries_of(after)[i].slug == posts[i].slug
            &&& !summaries_of(after)[i].visible
            &&& forall|j: int|
                0 <= j < after.len() && (#[trigger] after[j].slug) == posts[i].slug
                    ==> !after[j].visible
        }),
{
    let after = posts.update(i, deleted_post(posts[i]));
    assert forall|j: int|
        0 <= j < after.len() && (#[trigger] after[j].slug)
            == posts[i].slug implies !after[j].visible by {
        if j != i {
            assert(after[j] == posts[j]);
            assert(posts[j].slug != posts[i].slug);
        }
    }
}

/// Soft-deleting twice succeeds both times and leaves visibility cleared:
/// the slug is still occupied after the first delete, and the second delete
/// changes nothing.
pub proof fn lemma_soft_delete_idempotent(posts: Seq<PostV>, i: int)
    requires
        0 <= i < posts.len(),
    ensures
        ({
            let once = posts.update(i, deleted_post(posts[i]));
            &&& has_slug(once, posts[i].slug)
            &&& !once[i].visible
            &&& deleted_post(once[i]) == once[i]
            &&& once.update(i, deleted_post(once[i])) == once
        }),
{
    let once = posts.update(i, deleted_post(posts[i]));
    assert(once[i].slug == posts[i].slug);
    assert(has_slug(once, posts[i].slug));
    assert(once.update(i, deleted_post(once[i])) =~= once);
}

/// The rendered document holds exactly the visible posts: one entry per
/// visible post, in the stored descending publish order, each entry's body
/// the HTML rendering of the post's markdown and its link the base URL
/// followed by the slug; hidden posts contribute nothing; and the feed's
/// updated field is the render time, not any post's timestamp.
pub proof fn lemma_feed_matches_visible(m: MetaV, posts: Seq<PostV>, base: Seq<char>, now: i64)
    requires
        sorted_desc(posts),
    ensures
        ({
            let vis = visible_of(posts);
            let doc = spec_render(m, vis, base, now);
            &&& doc.updated == now
            &&& doc.entries.len() == vis.len()
            &&& (forall|k: int|
                0 <= k < vis.len() ==> (#[trigger] doc.entries[k]) == entry_of(vis[k], base))
            &&& (forall|k: int|
                0 <= k < vis.len() ==> posts.contains(#[trigger] vis[k]) && vis[k].visible)
            &&& (forall|j: int|
                0 <= j < posts.len() && (#[trigger] posts[j]).visible ==> vis.contains(posts[j]))
            &&& (forall|a: int, b: int|
                0 <= a < b < vis.len() ==> doc.entries[a].published >= doc.entries[b].published)
        }),
{
    lemma_visible_subset(posts);
    lemma_visible_complete(posts);
    lemma_visible_sorted(posts);
    let vis = visible_of(posts);
    let doc = spec_render(m, vis, base, now);
    assert forall|a: int, b: int| 0 <= a < b < vis.len() implies doc.entries[a].published
        >= doc.entries[b].published by {
        assert(doc.entries[a] == entry_of(vis[a], base));
        assert(doc.entries[b] == entry_of(vis[b], base));
    }
}

} // verus!
