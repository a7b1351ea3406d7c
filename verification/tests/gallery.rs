use klappstuhl_me::images::{
    extension_of, find_image, resolved_image_data, to_image_file, ImageEntry,
};
use klappstuhl_me::state::{AppState, ImageLookup};

fn entry(id: &str, mimetype: &str, uploader: Option<i64>) -> ImageEntry {
    ImageEntry {
        id: id.to_string(),
        mimetype: mimetype.to_string(),
        image_data: vec![1, 2, 3],
        uploaded_at: 100,
        uploader_id: uploader,
    }
}

#[test]
fn extension_from_mimetype() {
    assert_eq!(extension_of("image/png"), "png");
    assert_eq!(extension_of("image/svg+xml"), "svg+xml");
    assert_eq!(extension_of("png"), "png");
    assert_eq!(extension_of("image/"), "");
    assert_eq!(extension_of(""), "");
}

#[test]
fn file_view_of_entry() {
    let e = entry("abc12", "image/png", Some(7));
    let f = to_image_file(&e);
    assert_eq!(f.id, "abc12.png");
    assert_eq!(f.url, "/gallery/abc12.png");
    assert_eq!(f.mimetype, "image/png");
    assert_eq!(f.size, 3);
    assert_eq!(f.image_data, vec![1, 2, 3]);
    assert_eq!(f.uploaded_at, 100);
    assert_eq!(f.uploader_id, Some(7));
}

#[test]
fn commit_populates_both_views_coherently() {
    // Scenario: an entry with id "abc12" and mimetype image/png is in the
    // store; after resolving, the file-view list carries
    // url == "/gallery/abc12.png".
    let mut state = AppState::new();
    let entries = vec![entry("abc12", "image/png", Some(7)), entry("zzz", "image/gif", None)];
    state.commit_images(entries, 1000);
    let files = state.cached_image_files.get(1000).expect("file views fresh after commit");
    let images = state.cached_images.get(1000).expect("entries fresh after commit");
    assert_eq!(files.len(), images.len());
    assert_eq!(files[0].url, "/gallery/abc12.png");
    assert_eq!(files[0].id, "abc12.png");
    assert_eq!(files[1].url, "/gallery/zzz.gif");
}

#[test]
fn empty_catalog_commits_coherently() {
    let mut state = AppState::new();
    state.commit_images(Vec::new(), 10);
    let files = state.cached_image_files.get(10).expect("file views fresh after commit");
    assert!(files.is_empty());
    let images = state.cached_images.get(10).expect("entries fresh after commit");
    assert!(images.is_empty());
}

#[test]
fn image_caches_invalidate_together() {
    let mut state = AppState::new();
    state.commit_images(vec![entry("a", "image/png", None)], 0);
    state.invalidate_image_caches();
    assert!(state.cached_images.get(0).is_none());
    assert!(state.cached_image_files.get(0).is_none());
}

#[test]
fn image_caches_expire_together() {
    let mut state = AppState::new();
    let ttl = state.cached_images.ttl;
    state.commit_images(vec![entry("a", "image/png", None)], 1000);
    assert!(state.cached_images.get(1000 + ttl - 1).is_some());
    assert!(state.cached_image_files.get(1000 + ttl - 1).is_some());
    assert!(state.cached_images.get(1000 + ttl).is_none());
    assert!(state.cached_image_files.get(1000 + ttl).is_none());
}

#[test]
fn point_lookup_from_fresh_cache() {
    let mut state = AppState::new();
    state.commit_images(vec![entry("abc12", "image/png", Some(7))], 10);
    match state.get_image("abc12", 11) {
        ImageLookup::Cached(e) => assert_eq!(e.mimetype, "image/png"),
        ImageLookup::Query => panic!("a fresh cached entry should be found"),
    }
    // An id the cache does not hold still goes to the store.
    assert!(matches!(state.get_image("missing", 11), ImageLookup::Query));
    // A stale cache goes to the store too.
    let ttl = state.cached_images.ttl;
    assert!(matches!(state.get_image("abc12", 10 + ttl), ImageLookup::Query));
}

#[test]
fn find_image_picks_first_match() {
    let entries = vec![entry("a", "image/png", None), entry("b", "image/gif", None)];
    assert_eq!(find_image(&entries, "b").map(|e| e.mimetype.as_str()), Some("image/gif"));
    assert!(find_image(&entries, "c").is_none());
}

#[test]
fn resolved_data_is_base64() {
    let e = entry("a", "image/png", None);
    let data = resolved_image_data(&e);
    assert_eq!(data.bytes, "AQID");
    assert_eq!(data.content_type, "image/png");
}
