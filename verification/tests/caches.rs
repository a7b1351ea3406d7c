use std::cell::RefCell;

use klappstuhl_me::cached::{BodyCache, CachedTemplateResponse, RenderError, Renderable, TimedCachedValue};

struct CountingTemplate {
    body: Vec<u8>,
    calls: RefCell<usize>,
    fail: bool,
}

impl CountingTemplate {
    fn new(body: &[u8]) -> Self {
        CountingTemplate { body: body.to_vec(), calls: RefCell::new(0), fail: false }
    }

    fn failing() -> Self {
        CountingTemplate { body: Vec::new(), calls: RefCell::new(0), fail: true }
    }

    fn calls(&self) -> usize {
        *self.calls.borrow()
    }
}

impl Renderable for CountingTemplate {
    fn render(&self) -> Result<Vec<u8>, RenderError> {
        *self.calls.borrow_mut() += 1;
        if self.fail {
            Err(RenderError)
        } else {
            Ok(self.body.clone())
        }
    }
}

#[test]
fn timed_value_present_within_ttl() {
    let mut slot: TimedCachedValue<u64> = TimedCachedValue::new(100);
    assert!(slot.get(0).is_none());
    slot.set(42, 1000);
    assert_eq!(slot.get(1000).copied(), Some(42));
    assert_eq!(slot.get(1099).copied(), Some(42));
}

#[test]
fn timed_value_absent_after_ttl() {
    let mut slot: TimedCachedValue<u64> = TimedCachedValue::new(100);
    slot.set(42, 1000);
    assert!(slot.get(1100).is_none());
    assert!(slot.get(1101).is_none());
}

#[test]
fn timed_value_boundary() {
    // A value set at t0 with ttl d is present at t0 + d - eps and absent
    // at t0 + d + eps, here with eps = 1.
    let mut slot: TimedCachedValue<&'static str> = TimedCachedValue::new(60);
    slot.set("value", 500);
    assert!(slot.get(500 + 60 - 1).is_some());
    assert!(slot.get(500 + 60 + 1).is_none());
}

#[test]
fn timed_value_invalidate() {
    let mut slot: TimedCachedValue<u64> = TimedCachedValue::new(100);
    slot.set(7, 10);
    slot.invalidate();
    assert!(slot.get(10).is_none());
}

#[test]
fn timed_value_set_returns_view() {
    let mut slot: TimedCachedValue<String> = TimedCachedValue::new(100);
    let view = slot.set(String::from("hello"), 5);
    assert_eq!(view.as_str(), "hello");
}

#[test]
fn render_cached_once_within_ttl() {
    // Two cached renders of the same page within the TTL window invoke
    // the renderer exactly once and serve byte-identical bodies.
    let mut cache = BodyCache::new(120);
    let template = CountingTemplate::new(b"<html>home</html>");
    let first = cache.cache_template("home", &template, true, false, 1000);
    let second = cache.cache_template("home", &template, true, false, 1010);
    assert_eq!(template.calls(), 1);
    let first_bytes = match first {
        CachedTemplateResponse::Cached(ttl, bytes, alt) => {
            assert_eq!(ttl, 120);
            assert!(!alt);
            bytes
        }
        _ => panic!("first render should be cached"),
    };
    let second_bytes = match second {
        CachedTemplateResponse::Cached(_, bytes, alt) => {
            if alt {
                // The precompressed form decodes back to the plain bytes.
                let mut decoded = Vec::new();
                let mut reader = brotli::Decompressor::new(bytes.as_slice(), 4096);
                std::io::Read::read_to_end(&mut reader, &mut decoded).unwrap();
                decoded
            } else {
                bytes
            }
        }
        _ => panic!("second render should be cached"),
    };
    assert_eq!(first_bytes, second_bytes);
}

#[test]
fn render_expired_renders_again() {
    let mut cache = BodyCache::new(120);
    let template = CountingTemplate::new(b"page");
    cache.cache_template("page", &template, false, false, 0);
    let after_ttl = cache.cache_template("page", &template, false, false, 121);
    assert_eq!(template.calls(), 2);
    assert!(matches!(after_ttl, CachedTemplateResponse::Cached(_, _, false)));
}

#[test]
fn render_bypass_never_caches() {
    let mut cache = BodyCache::new(120);
    let template = CountingTemplate::new(b"private");
    let r = cache.cache_template("private", &template, false, true, 0);
    assert!(matches!(r, CachedTemplateResponse::Bypass(_)));
    // The bypass cached nothing: the next non-bypass call renders anew.
    cache.cache_template("private", &template, false, false, 1);
    assert_eq!(template.calls(), 2);
}

#[test]
fn render_failure_not_cached() {
    let mut cache = BodyCache::new(120);
    let failing = CountingTemplate::failing();
    let r = cache.cache_template("broken", &failing, false, false, 0);
    assert!(matches!(r, CachedTemplateResponse::Error));
    let again = cache.cache_template("broken", &failing, false, false, 1);
    assert!(matches!(again, CachedTemplateResponse::Error));
    assert_eq!(failing.calls(), 2);
}

#[test]
fn render_invalidate_all_forces_fresh_render() {
    // After invalidate_all, the next lookup for every previously cached
    // key triggers a fresh render.
    let mut cache = BodyCache::new(120);
    let home = CountingTemplate::new(b"home");
    let projects = CountingTemplate::new(b"projects");
    cache.cache_template("home", &home, false, false, 0);
    cache.cache_template("projects", &projects, false, false, 0);
    cache.invalidate_all();
    cache.cache_template("home", &home, false, false, 1);
    cache.cache_template("projects", &projects, false, false, 1);
    assert_eq!(home.calls(), 2);
    assert_eq!(projects.calls(), 2);
}

#[test]
fn render_invalidate_single_key() {
    let mut cache = BodyCache::new(120);
    let home = CountingTemplate::new(b"home");
    let projects = CountingTemplate::new(b"projects");
    cache.cache_template("home", &home, false, false, 0);
    cache.cache_template("projects", &projects, false, false, 0);
    cache.invalidate("home");
    cache.cache_template("home", &home, false, false, 1);
    cache.cache_template("projects", &projects, false, false, 1);
    assert_eq!(home.calls(), 2);
    assert_eq!(projects.calls(), 1);
}

#[test]
fn admitting_a_render_stores_it() {
    let mut cache = BodyCache::new(120);
    let r = cache.admit_rendered("direct", Ok(b"body".to_vec()), 50);
    match r {
        CachedTemplateResponse::Cached(ttl, bytes, alt) => {
            assert_eq!(ttl, 120);
            assert_eq!(bytes, b"body".to_vec());
            assert!(!alt);
        }
        _ => panic!("a successful render is cached and served plain"),
    }
    // The stored body now answers without rendering.
    let template = CountingTemplate::new(b"never used");
    let hit = cache.cache_template("direct", &template, false, false, 60);
    assert!(matches!(hit, CachedTemplateResponse::Cached(_, _, false)));
    assert_eq!(template.calls(), 0);
    // A failed render is reported and stores nothing.
    let failed = cache.admit_rendered("missing", Err(RenderError), 50);
    assert!(matches!(failed, CachedTemplateResponse::Error));
}

#[test]
fn bypassed_render_passes_bytes_through() {
    let served = BodyCache::bypassed_response(Ok(b"personal".to_vec()));
    match served {
        CachedTemplateResponse::Bypass(bytes) => assert_eq!(bytes, b"personal".to_vec()),
        _ => panic!("a successful bypassed render is served as Bypass"),
    }
    let failed = BodyCache::bypassed_response(Err(RenderError));
    assert!(matches!(failed, CachedTemplateResponse::Error));
}

#[test]
fn refreshed_page_stays_cached() {
    // Re-admitting a key that is already resident keeps it resident with
    // the new body.
    let mut cache = BodyCache::new(120);
    cache.admit_rendered("page", Ok(b"first".to_vec()), 0);
    cache.admit_rendered("page", Ok(b"second".to_vec()), 1);
    let template = CountingTemplate::new(b"never used");
    match cache.cache_template("page", &template, false, false, 2) {
        CachedTemplateResponse::Cached(_, bytes, _) => assert_eq!(bytes, b"second".to_vec()),
        _ => panic!("the refreshed body should be a hit"),
    }
    assert_eq!(template.calls(), 0);
}

#[test]
fn render_alt_encoding_round_trip() {
    // An encoding-aware hit serves the stored brotli form, which decodes
    // to the exact bytes that were rendered.
    let mut cache = BodyCache::new(120);
    let body = b"a page body that the encoder can shrink shrink shrink shrink";
    let template = CountingTemplate::new(body);
    cache.cache_template("alt", &template, true, false, 0);
    let hit = cache.cache_template("alt", &template, true, false, 1);
    match hit {
        CachedTemplateResponse::Cached(_, bytes, true) => {
            assert_ne!(bytes, body.to_vec());
            let mut decoded = Vec::new();
            let mut reader = brotli::Decompressor::new(bytes.as_slice(), 4096);
            std::io::Read::read_to_end(&mut reader, &mut decoded).unwrap();
            assert_eq!(decoded, body.to_vec());
        }
        other => {
            let kind = match other {
                CachedTemplateResponse::Cached(_, _, alt) => format!("cached, alt={alt}"),
                CachedTemplateResponse::Bypass(_) => String::from("bypass"),
                CachedTemplateResponse::Error => String::from("error"),
            };
            panic!("expected an alternate-encoded hit, got {kind}");
        }
    }
}
