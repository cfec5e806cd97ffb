use lazy_susan::auth::{authorize, sha256_hex};
use lazy_susan::cache::FeedCache;
use lazy_susan::model::{ApiError, BlogMetadata, Config, EditRequest, FeedRecord, NewPost};
use lazy_susan::service::{create_post, delete_post, edit_post, init_snapshot, read_post};
use lazy_susan::store::PostStore;

const T0: i64 = 1700000000;

fn meta() -> BlogMetadata {
    BlogMetadata {
        title: "Example Blog".to_string(),
        blog_url: "https://blog.example/".to_string(),
        syndication_url: "https://blog.example/api/atom".to_string(),
        last_updated: T0,
        author: "Alex Writer".to_string(),
        author_email: Some("alex@example.com".to_string()),
        author_url: None,
    }
}

fn feed_record() -> FeedRecord {
    FeedRecord { xml: "<feed/>".to_string(), last_updated: T0 }
}

// SHA-256 of the empty string, in lowercase hex.
const EMPTY_HASH: &str = "e3b0c44298fc1c149afbf4c8996fb92427ae41e4649b934ca495991b7852b855";

fn config() -> Config {
    Config {
        base_url: "https://blog.example/posts/".to_string(),
        api_key_hash: sha256_hex("open-sesame"),
    }
}

fn credential() -> Option<String> {
    Some("open-sesame".to_string())
}

fn new_post(slug: &str, title: &str, text: &str, date: i64, visible: bool) -> NewPost {
    NewPost {
        title: title.to_string(),
        slug: slug.to_string(),
        blog_title: "Example Blog".to_string(),
        author: "Alex Writer".to_string(),
        text: text.to_string(),
        description: "a post".to_string(),
        image: None,
        tags: Some(vec!["news".to_string()]),
        next: None,
        previous: None,
        date,
        visible,
    }
}

fn fresh() -> (PostStore, FeedCache, Config) {
    let store = PostStore::new(Some(meta()), Some(feed_record()));
    let cache = FeedCache::new(init_snapshot(store.feed_record()));
    (store, cache, config())
}

fn no_edit() -> EditRequest {
    EditRequest { title: None, text: None, tags: None, visible: None }
}

#[test]
fn sha256_of_empty_string_matches_known_digest() {
    assert_eq!(sha256_hex(""), EMPTY_HASH);
}

#[test]
fn sha256_does_not_echo_its_input() {
    // Guards the digest wrapper: handing the credential back unchanged
    // would make authorize accept the raw hash as a credential.
    let key = EMPTY_HASH.to_string();
    assert!(!authorize(Some(&key), &key));
    assert!(authorize(Some(&"".to_string()), &EMPTY_HASH.to_string()));
}

#[test]
fn authorize_rejects_missing_and_wrong_credentials() {
    let key_hash = sha256_hex("open-sesame");
    assert!(!authorize(None, &key_hash));
    assert!(!authorize(Some(&"guess".to_string()), &key_hash));
    assert!(authorize(Some(&"open-sesame".to_string()), &key_hash));
}

#[test]
fn create_then_read_hello_world() {
    let (mut store, cache, cfg) = fresh();
    let cred = credential();
    let r = create_post(
        &mut store,
        &cache,
        &cfg,
        cred.as_ref(),
        &new_post("hello-world", "Hello", "# Hi", T0, true),
        T0 + 10,
    );
    let ok = r.expect("create should succeed");
    assert_eq!(ok.location, "https://blog.example/posts/hello-world");
    assert_eq!(ok.post.id, 1);
    assert!(!ok.post.edited);
    assert_eq!(ok.post.last_updated, T0 + 10);

    let p = read_post(&store, &"hello-world".to_string()).expect("read should succeed");
    assert!(p.text.contains("<h1>Hi</h1>"));
    assert_eq!(p.title, "Hello");

    // The feed holds exactly one entry, titled Hello, with the rendered body.
    assert_eq!(ok.snapshot.doc.entries.len(), 1);
    assert_eq!(ok.snapshot.doc.entries[0].title, "Hello");
    assert!(ok.snapshot.doc.entries[0].html.contains("<h1>Hi</h1>"));
    assert_eq!(
        ok.snapshot.doc.entries[0].link,
        "https://blog.example/posts/hello-world"
    );

    // Reading the cache yields the same snapshot the mutation installed.
    let served = cache.read();
    assert_eq!(served.xml, ok.snapshot.xml);
    assert!(served.xml.contains("Hello"));

    // The serialized form was persisted before the swap.
    assert_eq!(store.feed_record().unwrap().xml, ok.snapshot.xml);
    assert_eq!(store.feed_record().unwrap().last_updated, T0 + 10);
    assert_eq!(store.metadata().unwrap().last_updated, T0 + 10);
}

#[test]
fn duplicate_slug_returns_conflict_and_single_row() {
    let (mut store, cache, cfg) = fresh();
    let cred = credential();
    create_post(
        &mut store,
        &cache,
        &cfg,
        cred.as_ref(),
        &new_post("twice", "First", "one", T0, true),
        T0 + 1,
    )
    .expect("first create should succeed");
    // Hidden or visible makes no difference: uniqueness is checked on all rows.
    let second = create_post(
        &mut store,
        &cache,
        &cfg,
        cred.as_ref(),
        &new_post("twice", "Second", "two", T0 + 5, false),
        T0 + 2,
    );
    assert_eq!(second.err().unwrap(), ApiError::Conflict);
    let rows = store.list_summaries();
    assert_eq!(rows.iter().filter(|r| r.slug == "twice").count(), 1);
    assert_eq!(rows.len(), 1);
    assert_eq!(rows[0].title, "First");
}

#[test]
fn duplicate_check_sees_hidden_rows() {
    let (mut store, cache, cfg) = fresh();
    let cred = credential();
    create_post(
        &mut store,
        &cache,
        &cfg,
        cred.as_ref(),
        &new_post("ghost", "Ghost", "boo", T0, true),
        T0 + 1,
    )
    .expect("create should succeed");
    delete_post(&mut store, &cache, &cfg, cred.as_ref(), &"ghost".to_string(), T0 + 2)
        .expect("delete should succeed");
    let again = create_post(
        &mut store,
        &cache,
        &cfg,
        cred.as_ref(),
        &new_post("ghost", "Ghost II", "boo", T0, true),
        T0 + 3,
    );
    assert_eq!(again.err().unwrap(), ApiError::Conflict);
}

#[test]
fn edit_changes_only_supplied_fields() {
    let (mut store, cache, cfg) = fresh();
    let cred = credential();
    create_post(
        &mut store,
        &cache,
        &cfg,
        cred.as_ref(),
        &new_post("art", "Old Title", "body text", T0, true),
        T0 + 1,
    )
    .expect("create should succeed");
    let edits = EditRequest {
        title: Some("New Title".to_string()),
        text: None,
        tags: None,
        visible: None,
    };
    let r = edit_post(
        &mut store,
        &cache,
        &cfg,
        cred.as_ref(),
        &"art".to_string(),
        &edits,
        T0 + 50,
    )
    .expect("edit should succeed");
    assert_eq!(r.post.title, "New Title");
    assert_eq!(r.post.text, "body text");
    assert_eq!(r.post.tags, Some(vec!["news".to_string()]));
    assert_eq!(r.post.description, "a post");
    assert!(r.post.edited);
    assert_eq!(r.post.last_updated, T0 + 50);
    assert!(r.post.last_updated > T0 + 1);
    assert_eq!(r.post.date, T0);
}

#[test]
fn edit_with_identical_values_still_marks_edited() {
    let (mut store, cache, cfg) = fresh();
    let cred = credential();
    create_post(
        &mut store,
        &cache,
        &cfg,
        cred.as_ref(),
        &new_post("same", "Title", "text", T0, true),
        T0 + 1,
    )
    .expect("create should succeed");
    let edits = EditRequest {
        title: Some("Title".to_string()),
        text: Some("text".to_string()),
        tags: None,
        visible: None,
    };
    let r = edit_post(
        &mut store,
        &cache,
        &cfg,
        cred.as_ref(),
        &"same".to_string(),
        &edits,
        T0 + 9,
    )
    .expect("edit should succeed");
    assert!(r.post.edited);
    assert_eq!(r.post.last_updated, T0 + 9);
}

#[test]
fn edit_without_credential_leaves_post_unchanged() {
    let (mut store, cache, cfg) = fresh();
    let cred = credential();
    create_post(
        &mut store,
        &cache,
        &cfg,
        cred.as_ref(),
        &new_post("keep", "Keep", "kept text", T0, true),
        T0 + 1,
    )
    .expect("create should succeed");
    let edits = EditRequest {
        title: Some("Stolen".to_string()),
        text: Some("defaced".to_string()),
        tags: None,
        visible: Some(false),
    };
    let r = edit_post(&mut store, &cache, &cfg, None, &"keep".to_string(), &edits, T0 + 2);
    assert_eq!(r.err().unwrap(), ApiError::Auth);
    assert_eq!(ApiError::Auth.status_code(), 401);
    let p = store.find_by_slug(&"keep".to_string()).expect("post should still exist");
    assert_eq!(p.title, "Keep");
    assert_eq!(p.text, "kept text");
    assert!(p.visible);
    assert!(!p.edited);
    assert_eq!(p.last_updated, T0 + 1);
}

#[test]
fn soft_delete_keeps_row_listed_but_not_readable() {
    let (mut store, cache, cfg) = fresh();
    let cred = credential();
    create_post(
        &mut store,
        &cache,
        &cfg,
        cred.as_ref(),
        &new_post("gone", "Gone", "bye", T0, true),
        T0 + 1,
    )
    .expect("create should succeed");
    delete_post(&mut store, &cache, &cfg, cred.as_ref(), &"gone".to_string(), T0 + 2)
        .expect("delete should succeed");
    let rows = store.list_summaries();
    let row = rows.iter().find(|r| r.slug == "gone").expect("row should stay listed");
    assert!(!row.visible);
    let read = read_post(&store, &"gone".to_string());
    assert_eq!(read.err().unwrap(), ApiError::NotFound);
    assert_eq!(ApiError::NotFound.status_code(), 404);
}

#[test]
fn soft_delete_twice_succeeds_and_stays_hidden() {
    let (mut store, cache, cfg) = fresh();
    let cred = credential();
    create_post(
        &mut store,
        &cache,
        &cfg,
        cred.as_ref(),
        &new_post("twice-gone", "Twice", "bye", T0, true),
        T0 + 1,
    )
    .expect("create should succeed");
    let first = delete_post(
        &mut store,
        &cache,
        &cfg,
        cred.as_ref(),
        &"twice-gone".to_string(),
        T0 + 2,
    )
    .expect("first delete should succeed");
    assert!(!first.post.visible);
    let second = delete_post(
        &mut store,
        &cache,
        &cfg,
        cred.as_ref(),
        &"twice-gone".to_string(),
        T0 + 3,
    )
    .expect("second delete should succeed");
    assert!(!second.post.visible);
    assert_eq!(second.post.title, "Twice");
    let p = store.find_by_slug(&"twice-gone".to_string()).unwrap();
    assert!(!p.visible);
}

#[test]
fn delete_unknown_slug_is_not_found() {
    let (mut store, cache, cfg) = fresh();
    let cred = credential();
    let r = delete_post(&mut store, &cache, &cfg, cred.as_ref(), &"nothing".to_string(), T0 + 1);
    assert_eq!(r.err().unwrap(), ApiError::NotFound);
}

#[test]
fn missing_metadata_fails_pipeline_but_keeps_mutation() {
    let mut store = PostStore::new(None, Some(feed_record()));
    let cache = FeedCache::new(init_snapshot(store.feed_record()));
    let cfg = config();
    let cred = credential();
    let r = create_post(
        &mut store,
        &cache,
        &cfg,
        cred.as_ref(),
        &new_post("orphan", "Orphan", "text", T0, true),
        T0 + 1,
    );
    assert_eq!(r.err().unwrap(), ApiError::MissingMetadata);
    assert_eq!(ApiError::MissingMetadata.status_code(), 500);
    // The post mutation stays committed even though the feed refresh failed.
    assert!(store.find_by_slug(&"orphan".to_string()).is_some());
}

#[test]
fn missing_feed_record_fails_pipeline_but_keeps_mutation() {
    let mut store = PostStore::new(Some(meta()), None);
    let cache = FeedCache::new(init_snapshot(None));
    let cfg = config();
    let cred = credential();
    let r = create_post(
        &mut store,
        &cache,
        &cfg,
        cred.as_ref(),
        &new_post("stale", "Stale", "text", T0, true),
        T0 + 1,
    );
    assert_eq!(r.err().unwrap(), ApiError::Persistence);
    assert_eq!(ApiError::Persistence.status_code(), 500);
    assert!(store.find_by_slug(&"stale".to_string()).is_some());
    // The metadata was not stamped: the pipeline aborted before that step.
    assert_eq!(store.metadata().unwrap().last_updated, T0);
}

#[test]
fn validation_error_maps_to_bad_request() {
    assert_eq!(ApiError::Validation.status_code(), 400);
    assert_eq!(ApiError::Conflict.status_code(), 409);
}

#[test]
fn read_post_unknown_slug_is_not_found() {
    let (store, _cache, _cfg) = fresh();
    let r = read_post(&store, &"absent".to_string());
    assert_eq!(r.err().unwrap(), ApiError::NotFound);
}

#[test]
fn markdown_is_rendered_not_echoed() {
    let (mut store, cache, cfg) = fresh();
    let cred = credential();
    create_post(
        &mut store,
        &cache,
        &cfg,
        cred.as_ref(),
        &new_post("md", "Md", "# Hi", T0, true),
        T0 + 1,
    )
    .expect("create should succeed");
    let p = read_post(&store, &"md".to_string()).expect("read should succeed");
    assert_ne!(p.text, "# Hi");
    assert!(p.text.contains("<h1>Hi</h1>"));
}
