use lazy_susan::cache::FeedCache;
use lazy_susan::clock::{now_timestamp, rfc3339_utc};
use lazy_susan::model::{
    ts_in_range, BlogMetadata, Config, FeedRecord, NewPost, MAX_TIMESTAMP, MIN_TIMESTAMP,
};
use lazy_susan::service::{create_post, delete_post, init_snapshot, path_slug};
use lazy_susan::store::PostStore;

const T0: i64 = 1700000000;

fn meta() -> BlogMetadata {
    BlogMetadata {
        title: "Example Blog".to_string(),
        blog_url: "https://blog.example/".to_string(),
        syndication_url: "https://blog.example/api/atom".to_string(),
        last_updated: T0,
        author: "Alex Writer".to_string(),
        author_email: None,
        author_url: None,
    }
}

fn config() -> Config {
    Config {
        base_url: "https://blog.example/posts/".to_string(),
        api_key_hash: lazy_susan::auth::sha256_hex("open-sesame"),
    }
}

fn new_post(slug: &str, title: &str, date: i64, visible: bool) -> NewPost {
    NewPost {
        title: title.to_string(),
        slug: slug.to_string(),
        blog_title: "Example Blog".to_string(),
        author: "Alex Writer".to_string(),
        text: "plain words".to_string(),
        description: String::new(),
        image: None,
        tags: None,
        next: None,
        previous: None,
        date,
        visible,
    }
}

fn fresh() -> (PostStore, FeedCache, Config) {
    let store = PostStore::new(
        Some(meta()),
        Some(FeedRecord { xml: "<feed/>".to_string(), last_updated: T0 }),
    );
    let cache = FeedCache::new(init_snapshot(store.feed_record()));
    (store, cache, config())
}

#[test]
fn feed_entries_match_visible_posts_in_order() {
    let (mut store, cache, cfg) = fresh();
    let cred = Some("open-sesame".to_string());
    create_post(&mut store, &cache, &cfg, cred.as_ref(), &new_post("old", "Old", T0, true), T0 + 1)
        .expect("create should succeed");
    create_post(
        &mut store,
        &cache,
        &cfg,
        cred.as_ref(),
        &new_post("newer", "Newer", T0 + 100, true),
        T0 + 2,
    )
    .expect("create should succeed");
    let third = create_post(
        &mut store,
        &cache,
        &cfg,
        cred.as_ref(),
        &new_post("hidden", "Hidden", T0 + 200, false),
        T0 + 3,
    )
    .expect("create should succeed");

    // Hidden posts contribute nothing; entries come newest first.
    let doc = &third.snapshot.doc;
    assert_eq!(doc.entries.len(), 2);
    assert_eq!(doc.entries[0].title, "Newer");
    assert_eq!(doc.entries[1].title, "Old");
    assert!(doc.entries[0].published >= doc.entries[1].published);
    assert_eq!(doc.updated, T0 + 3);

    // Soft-deleting removes the entry from the next rendering.
    let after = delete_post(&mut store, &cache, &cfg, cred.as_ref(), &"newer".to_string(), T0 + 4)
        .expect("delete should succeed");
    assert_eq!(after.snapshot.doc.entries.len(), 1);
    assert_eq!(after.snapshot.doc.entries[0].title, "Old");

    // What readers see is what the last successful mutation installed.
    let served = cache.read();
    assert_eq!(served.xml, after.snapshot.xml);
}

#[test]
fn feed_xml_is_an_atom_document() {
    let (mut store, cache, cfg) = fresh();
    let cred = Some("open-sesame".to_string());
    let ok = create_post(
        &mut store,
        &cache,
        &cfg,
        cred.as_ref(),
        &new_post("entry", "An Entry", T0, true),
        T0 + 1,
    )
    .expect("create should succeed");
    let xml = &ok.snapshot.xml;
    assert!(xml.contains("<feed"));
    assert!(xml.contains("An Entry"));
    assert!(xml.contains("https://blog.example/posts/entry"));
    assert!(xml.contains("application/atom+xml"));
    assert_ne!(xml, "<feed/>");
}

#[test]
fn cold_start_serves_stored_record_or_default() {
    let rec = FeedRecord { xml: "<feed>stored</feed>".to_string(), last_updated: T0 };
    let from_record = init_snapshot(Some(&rec));
    assert_eq!(from_record.xml, "<feed>stored</feed>");

    let fallback = init_snapshot(None);
    assert!(fallback.xml.contains("<feed"));
    assert_eq!(fallback.doc.entries.len(), 0);
}

#[test]
fn summaries_render_publish_dates_in_rfc3339() {
    let store = PostStore::new(Some(meta()), None);
    let cache = FeedCache::new(init_snapshot(None));
    let cfg = config();
    let cred = Some("open-sesame".to_string());
    let mut store = store;
    let r = create_post(&mut store, &cache, &cfg, cred.as_ref(), &new_post("epoch", "Epoch", 0, true), T0);
    // The pipeline fails (no feed record) but the row is committed.
    assert!(r.is_err());
    let rows = store.list_summaries();
    assert_eq!(rows.len(), 1);
    assert_eq!(rows[0].date, "1970-01-01T00:00:00+00:00");
}

#[test]
fn rfc3339_formats_known_timestamps() {
    assert_eq!(rfc3339_utc(0), "1970-01-01T00:00:00+00:00");
    assert_eq!(rfc3339_utc(1700000000), "2023-11-14T22:13:20+00:00");
    // Pre-epoch instants down to year 0000 are accepted and written plainly.
    assert_eq!(rfc3339_utc(-86400), "1969-12-31T00:00:00+00:00");
    assert_eq!(rfc3339_utc(MIN_TIMESTAMP), "0000-01-01T00:00:00+00:00");
    assert!(ts_in_range(MAX_TIMESTAMP));
    assert!(!ts_in_range(MAX_TIMESTAMP + 1));
    assert!(ts_in_range(-1));
    assert!(ts_in_range(MIN_TIMESTAMP));
    assert!(!ts_in_range(MIN_TIMESTAMP - 1));
}

#[test]
fn pre_epoch_publish_dates_are_accepted() {
    let (mut store, cache, cfg) = fresh();
    let cred = Some("open-sesame".to_string());
    create_post(
        &mut store,
        &cache,
        &cfg,
        cred.as_ref(),
        &new_post("antique", "Antique", -86400, true),
        T0,
    )
    .expect("create should succeed");
    let rows = store.list_summaries();
    assert_eq!(rows[0].date, "1969-12-31T00:00:00+00:00");
}

#[test]
fn path_shape_is_decided_by_the_library() {
    assert_eq!(path_slug("/api/posts/hello-world"), Some("hello-world".to_string()));
    assert_eq!(path_slug("/api/posts/"), None);
    assert_eq!(path_slug("/api/posts"), None);
    assert_eq!(path_slug("/api/posts/a/b"), None);
    assert_eq!(path_slug("/api/other/abc"), None);
    assert_eq!(path_slug(""), None);
}

#[test]
fn cache_swap_replaces_snapshot_for_readers() {
    let a = init_snapshot(Some(&FeedRecord { xml: "<feed>a</feed>".to_string(), last_updated: T0 }));
    let b = init_snapshot(Some(&FeedRecord { xml: "<feed>b</feed>".to_string(), last_updated: T0 }));
    let cache = FeedCache::new(a);
    assert_eq!(cache.read().xml, "<feed>a</feed>");
    cache.replace(b);
    assert_eq!(cache.read().xml, "<feed>b</feed>");
}

#[test]
fn listing_orders_posts_by_publish_date_descending() {
    let (mut store, cache, cfg) = fresh();
    let cred = Some("open-sesame".to_string());
    create_post(&mut store, &cache, &cfg, cred.as_ref(), &new_post("b", "B", T0 + 50, true), T0)
        .expect("create should succeed");
    create_post(&mut store, &cache, &cfg, cred.as_ref(), &new_post("c", "C", T0 + 90, false), T0)
        .expect("create should succeed");
    create_post(&mut store, &cache, &cfg, cred.as_ref(), &new_post("a", "A", T0 + 10, true), T0)
        .expect("create should succeed");
    let rows = store.list_summaries();
    let slugs: Vec<&str> = rows.iter().map(|r| r.slug.as_str()).collect();
    assert_eq!(slugs, vec!["c", "b", "a"]);
}

#[test]
fn clock_reads_a_plausible_time() {
    let now = now_timestamp();
    // After 2020-01-01 and within the library's representable range.
    assert!(now > 1577836800);
    assert!(ts_in_range(now));
}
