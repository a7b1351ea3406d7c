//! A single-slot cache whose value expires a fixed time after insertion.
//!
//! Time is passed in by the caller as a number of seconds; the slot itself
//! never reads a clock.  A value stored at `inserted_at` with time-to-live
//! `ttl` is fresh at every instant strictly before `inserted_at + ttl` and
//! stale from that instant on (absolute expiry, never refreshed by reads).

use vstd::prelude::*;

use quick_cache::sync::Cache;

use crate::backend::body_cache_capacity;
use crate::backend::body_cache_clear;
use crate::backend::body_cache_entries;
use crate::backend::body_cache_get;
use crate::backend::body_cache_insert;
use crate::backend::body_cache_new;
use crate::backend::body_cache_remove;
use crate::images::clone_bytes;
use crate::outside::compressed_form;
use crate::outside::try_compress;

verus! {

/// A timed cache value that only lasts for a specified duration before expiring.
///
/// The fields are public so that specifications elsewhere in the crate can
/// speak about the slot's state; executable code outside this module goes
/// through the methods.
pub struct TimedCachedValue<T> {
    pub value: Option<T>,
    pub inserted_at: u64,
    pub ttl: u64,
}

impl<T> TimedCachedValue<T> {
    /// The instants at which the slot currently answers with its value.
    pub open spec fn is_fresh(self, now: int) -> bool {
        self.value is Some && now < self.inserted_at + self.ttl
    }

    pub open spec fn spec_value(self) -> Option<T> {
        self.value
    }

    pub open spec fn spec_inserted_at(self) -> u64 {
        self.inserted_at
    }

    pub open spec fn spec_ttl(self) -> u64 {
        self.ttl
    }

    pub fn new(ttl: u64) -> (r: Self)
        ensures
            r.spec_value() is None,
            r.spec_ttl() == ttl,
    {
        Self { value: None, inserted_at: 0, ttl }
    }

    /// Returns the cached value, or `None` if it cannot be found or is expired.
    pub fn get(&self, now: u64) -> (r: Option<&T>)
        ensures
            match r {
                Some(v) => self.is_fresh(now as int) && self.spec_value() == Some(*v),
                None => !self.is_fresh(now as int),
            },
    {
        match &self.value {
            Some(v) => {
                if now < self.inserted_at || now - self.inserted_at < self.ttl {
                    Some(v)
                } else {
                    None
                }
            }
            None => None,
        }
    }

    /// Sets the value in the cache, timestamped `now`, and returns a read
    /// view of the value that was just stored.
    pub fn set(&mut self, value: T, now: u64) -> (r: &T)
        ensures
            final(self).spec_value() == Some(*r),
            final(self).spec_inserted_at() == now,
            final(self).spec_ttl() == old(self).spec_ttl(),
            final(self).spec_value() == Some(value),
    {
        self.value = Some(value);
        self.inserted_at = now;
        match &self.value {
            Some(v) => v,
            None => unreached(),
        }
    }

    /// Invalidates the cache: the next `get` returns `None`.
    pub fn invalidate(&mut self)
        ensures
            final(self).spec_value() is None,
            final(self).spec_ttl() == old(self).spec_ttl(),
    {
        self.value = None;
    }
}

/// One rendered page held by the page cache: the plain bytes, an optional
/// precompressed alternate encoding of the same bytes, and the insertion
/// time (unix seconds) from which the absolute TTL is measured.
pub struct CachedBody {
    pub decompressed: Vec<u8>,
    pub brotli: Option<Vec<u8>>,
    pub inserted_at: u64,
}

impl Clone for CachedBody {
    fn clone(&self) -> (r: Self)
        ensures
            r.decompressed@ == self.decompressed@,
            r.brotli is Some <==> self.brotli is Some,
            r.brotli is Some ==> r.brotli->0@ == self.brotli->0@,
            r.inserted_at == self.inserted_at,
    {
        CachedBody {
            decompressed: self.decompressed.clone(),
            brotli: match &self.brotli {
                Some(b) => Some(b.clone()),
                None => None,
            },
            inserted_at: self.inserted_at,
        }
    }
}

/// A value set at `t0` with time-to-live `d` is present `eps` before
/// `t0 + d` and absent `eps` after it, for every positive `eps`.
pub proof fn lemma_ttl_boundary<T>(c: TimedCachedValue<T>, eps: int)
    requires
        c.spec_value() is Some,
        eps > 0,
    ensures
        c.is_fresh(c.spec_inserted_at() + c.spec_ttl() - eps),
        !c.is_fresh(c.spec_inserted_at() + c.spec_ttl() + eps),
{
}

/// Rendering failed; the outcome is never cached.
pub struct RenderError;

/// The page renderer consulted by `BodyCache::cache_template`; the HTTP
/// layer implements it for each template it wants cached.
pub trait Renderable {
    fn render(&self) -> Result<Vec<u8>, RenderError>;
}

/// What `cache_template` hands back.
pub enum CachedTemplateResponse {
    /// Served from (or stored into) the cache: the TTL to advertise, the
    /// body bytes, and whether they carry the alternate encoding.
    Cached(u64, Vec<u8>, bool),
    /// The cache was bypassed; the freshly rendered bytes, uncached.
    Bypass(Vec<u8>),
    /// Rendering failed.
    Error,
}

/// How many distinct page keys the cache holds; the set of cacheable
/// pages is small and fixed.
pub const BODY_CACHE_CAPACITY: usize = 10;

/// A bounded cache of rendered page bodies with absolute per-entry TTL.
pub struct BodyCache {
    pub templates: Cache<&'static str, CachedBody>,
    pub ttl: u64,
}

impl BodyCache {
    pub open spec fn entries(self) -> Map<Seq<char>, CachedBody> {
        body_cache_entries(self.templates)
    }

    pub open spec fn wf(self) -> bool {
        body_cache_capacity(self.templates) >= 1
    }

    /// The cache can serve `key` at time `now` without rendering.
    pub open spec fn has_fresh(self, key: Seq<char>, now: int) -> bool {
        self.entries().contains_key(key) && now < self.entries()[key].inserted_at + self.ttl
    }

    pub fn new(ttl: u64) -> (r: Self)
        ensures
            r.wf(),
            forall|k: Seq<char>| !r.entries().contains_key(k),
            r.ttl == ttl,
    {
        BodyCache { templates: body_cache_new(BODY_CACHE_CAPACITY), ttl }
    }

    /// Returns the cached body under `key` if it is still fresh.
    fn get_cached(&self, key: &'static str, now: u64) -> (r: Option<CachedBody>)
        ensures
            match r {
                Some(b) => self.has_fresh(key@, now as int) && b == self.entries()[key@],
                None => !self.has_fresh(key@, now as int),
            },
    {
        match body_cache_get(&self.templates, key) {
            Some(b) => {
                if now < b.inserted_at || now - b.inserted_at < self.ttl {
                    Some(b)
                } else {
                    None
                }
            }
            None => None,
        }
    }

    /// Drops one page from the cache.
    pub fn invalidate(&mut self, key: &'static str)
        requires
            old(self).wf(),
        ensures
            final(self).wf(),
            final(self).ttl == old(self).ttl,
            final(self).entries() == old(self).entries().remove(key@),
    {
        body_cache_remove(&mut self.templates, key);
    }

    /// Drops every page from the cache.
    pub fn invalidate_all(&mut self)
        requires
            old(self).wf(),
        ensures
            final(self).wf(),
            final(self).ttl == old(self).ttl,
            forall|k: Seq<char>| !final(self).entries().contains_key(k),
    {
        body_cache_clear(&mut self.templates);
    }

    /// The outcome of a bypassed request: the freshly rendered bytes are
    /// served as they are, never cached; a failed render is an error.
    pub fn bypassed_response(rendered: Result<Vec<u8>, RenderError>) -> (r: CachedTemplateResponse)
        ensures
            match rendered {
                Ok(b) => r == CachedTemplateResponse::Bypass(b),
                Err(_) => r is Error,
            },
    {
        match rendered {
            Ok(b) => CachedTemplateResponse::Bypass(b),
            Err(_) => CachedTemplateResponse::Error,
        }
    }

    /// Folds a finished render into the cache.  A successful render is
    /// stored under `key` (together with a best-effort precompressed
    /// alternate form, and for as long as the bounded cache keeps it) and
    /// served plain; a failed render changes nothing and is reported as
    /// an error.
    pub fn admit_rendered(&mut self, key: &'static str, rendered: Result<Vec<u8>, RenderError>, now: u64) -> (r:
        CachedTemplateResponse)
        requires
            old(self).wf(),
        ensures
            final(self).wf(),
            final(self).ttl == old(self).ttl,
            match rendered {
                Ok(b) => (r matches CachedTemplateResponse::Cached(t, served, alt) && t == old(self).ttl && served@ == b@ && alt == false) && (old(self).entries().contains_key(key@)
                    ==> final(self).entries().contains_key(key@)) && (final(self).entries().contains_key(key@)
                    ==> final(self).entries()[key@].decompressed@ == b@ && final(self).entries()[key@].inserted_at == now && (final(self).entries()[key@].brotli
                    matches Some(c) ==> c@ == compressed_form(b@))) && forall|k: Seq<char>|
                    k != key@ && #[trigger] final(self).entries().contains_key(k) ==> old(self).entries().contains_key(k) && final(self).entries()[k] == old(self).entries()[k],
                Err(_) => r is Error && final(self).entries() == old(self).entries(),
            },
    {
        match rendered {
            Ok(b) => {
                let compressed = try_compress(b.as_slice());
                let stored = CachedBody {
                    decompressed: clone_bytes(&b),
                    brotli: compressed,
                    inserted_at: now,
                };
                body_cache_insert(&mut self.templates, key, stored);
                CachedTemplateResponse::Cached(self.ttl, b, false)
            }
            Err(_) => CachedTemplateResponse::Error,
        }
    }

    /// Serves `key` from the cache when possible, otherwise renders and
    /// caches the result together with a best-effort precompressed
    /// alternate form.
    ///
    /// With `bypass_cache` the template is always rendered and nothing is
    /// cached.  On a fresh hit the alternate encoding is served only when
    /// the caller accepts it and a precompressed form exists.  On a miss
    /// the caller that rendered receives the plain bytes; the compressed
    /// form is stored, for as long as the bounded cache keeps it, for
    /// later encoding-aware hits.  A failed render is never cached.
    pub fn cache_template<T: Renderable>(
        &mut self,
        key: &'static str,
        template: &T,
        brotli_accepted: bool,
        bypass_cache: bool,
        now: u64,
    ) -> (r: CachedTemplateResponse)
        requires
            old(self).wf(),
        ensures
            final(self).wf(),
            final(self).ttl == old(self).ttl,
            bypass_cache ==> final(self).entries() == old(self).entries() && (r is Bypass || r
                is Error),
            !bypass_cache && old(self).has_fresh(key@, now as int) ==> final(self).entries()
                == old(self).entries() && (r matches CachedTemplateResponse::Cached(t, b, alt) && t
                == old(self).ttl && alt == (brotli_accepted && old(self).entries()[key@].brotli
                is Some) && b@ == (if alt {
                old(self).entries()[key@].brotli->0@
            } else {
                old(self).entries()[key@].decompressed@
            })),
            !bypass_cache && !old(self).has_fresh(key@, now as int) ==> (r is Cached || r is Error)
                && (r is Error ==> final(self).entries() == old(self).entries()) && (r matches
            CachedTemplateResponse::Cached(t, b, alt) ==> t == old(self).ttl && alt == false
                && (old(self).entries().contains_key(key@) ==> final(self).entries().contains_key(
                key@,
            )) && (final(self).entries().contains_key(key@) ==> final(self).entries()[key@].decompressed@ == b@ && final(self).entries()[key@].inserted_at == now
                && (final(self).entries()[key@].brotli matches Some(c) ==> c@ == compressed_form(
                b@,
            ))) && forall|k: Seq<char>|
                k != key@ && #[trigger] final(self).entries().contains_key(k) ==> old(self).entries().contains_key(k) && final(self).entries()[k] == old(self).entries()[k]),
    {
        if bypass_cache {
            return Self::bypassed_response(template.render());
        }
        match self.get_cached(key, now) {
            Some(cached) => {
                if brotli_accepted {
                    match cached.brotli {
                        Some(compressed) => CachedTemplateResponse::Cached(
                            self.ttl,
                            compressed,
                            true,
                        ),
                        None => CachedTemplateResponse::Cached(self.ttl, cached.decompressed, false),
                    }
                } else {
                    CachedTemplateResponse::Cached(self.ttl, cached.decompressed, false)
                }
            }
            None => self.admit_rendered(key, template.render(), now),
        }
    }
}

/// After `invalidate_all`, no key has a fresh entry at any time, so the
/// next `cache_template` for any page can only render it anew.
pub proof fn lemma_invalidate_all_renders(c: BodyCache, key: Seq<char>, now: int)
    requires
        forall|k: Seq<char>| !c.entries().contains_key(k),
    ensures
        !c.has_fresh(key, now),
{
}

} // verus!
