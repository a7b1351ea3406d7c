//! Process-wide cache state and the decisions taken against it.
//!
//! Every method that would touch the store in a running service is split
//! at the store boundary: a lookup method reports whether the caller holds
//! a cached answer, must query the store, or must wait for a query that
//! another caller already started; an admit method takes the store's
//! answer and folds it into the caches.  The `..._in_flight` vectors are
//! the single-writer-per-key bookkeeping: a key is pushed when a caller is
//! told to populate and removed when the answer is admitted, so that of
//! any number of concurrent misses on one key exactly one caller queries
//! the store.

use vstd::prelude::*;

use quick_cache::sync::Cache;

use crate::backend::account_cache_capacity;
use crate::backend::account_cache_clear;
use crate::backend::account_cache_entries;
use crate::backend::account_cache_get;
use crate::backend::account_cache_insert;
use crate::backend::account_cache_new;
use crate::backend::account_cache_remove;
use crate::backend::session_cache_capacity;
use crate::backend::session_cache_clear;
use crate::backend::session_cache_entries;
use crate::backend::session_cache_get;
use crate::backend::session_cache_insert;
use crate::backend::session_cache_new;
use crate::backend::session_cache_remove;
use crate::cached::TimedCachedValue;
use crate::images::derive_files;
use crate::images::entries_sorted;
use crate::images::find_image;
use crate::images::matches_file;
use crate::images::same_entry;
use crate::images::str_eq;
use crate::images::ImageEntry;
use crate::images::ImageFile;
use crate::models::Account;
use crate::models::Session;

verus! {

/// How long a non-API session stays valid after creation, in seconds.
pub const MAX_SESSION_AGE: u64 = 60 * 60 * 24 * 30;

/// How long the image caches keep a value, in seconds.
pub const IMAGE_CACHE_TTL: u64 = 60 * 30;

/// How many accounts and sessions the keyed caches hold.
pub const KEYED_CACHE_CAPACITY: usize = 1000;

/// Metadata of a session held in the session cache.
///
/// An invariant of the whole system is that such a value is only ever
/// constructed from a session row that was read from the store.
#[derive(Debug, Clone, Copy)]
pub struct SessionInfo {
    /// The account ID that owns the session.
    pub id: i64,
    /// Whether the session is an API key.
    pub api_key: bool,
    /// When the session was created, in unix seconds.
    pub created_at: u64,
}

impl SessionInfo {
    pub open spec fn spec_is_expired(self, now: int) -> bool {
        !self.api_key && now > self.created_at + MAX_SESSION_AGE
    }

    /// Returns `true` if the session is expired at time `now`.
    pub fn is_expired(&self, now: u64) -> (r: bool)
        ensures
            r == self.spec_is_expired(now as int),
    {
        !self.api_key && now > self.created_at && now - self.created_at > MAX_SESSION_AGE
    }
}

impl From<Session> for SessionInfo {
    /// The cacheable metadata of a session row.  The `id` field holds
    /// the owning account's id, not the token.
    fn from(value: Session) -> (r: Self)
        ensures
            r == (SessionInfo {
                id: value.account_id,
                api_key: value.api_key,
                created_at: value.created_at,
            }),
    {
        SessionInfo { id: value.account_id, api_key: value.api_key, created_at: value.created_at }
    }
}

impl vstd::std_specs::convert::FromSpecImpl<Session> for SessionInfo {
    open spec fn obeys_from_spec() -> bool {
        true
    }

    open spec fn from_spec(value: Session) -> Self {
        SessionInfo { id: value.account_id, api_key: value.api_key, created_at: value.created_at }
    }
}

/// A browser session created `MAX_SESSION_AGE` plus one second ago is
/// expired, while an API-key session with the identical creation time is
/// not.
pub proof fn lemma_session_expiry_policy(browser: SessionInfo, api: SessionInfo, now: u64)
    requires
        !browser.api_key,
        api.api_key,
        browser.created_at + MAX_SESSION_AGE + 1 == now,
        api.created_at == browser.created_at,
    ensures
        browser.spec_is_expired(now as int),
        !api.spec_is_expired(now as int),
{
}

pub open spec fn spec_tokens_contain(v: Seq<String>, t: Seq<char>) -> bool {
    exists|i: int| 0 <= i < v.len() && v[i]@ == t
}

proof fn lemma_tokens_contain_push(v: Seq<String>, x: String, t: Seq<char>)
    ensures
        spec_tokens_contain(v.push(x), t) <==> (spec_tokens_contain(v, t) || x@ == t),
{
    if spec_tokens_contain(v.push(x), t) {
        let k = choose|k: int| 0 <= k < v.push(x).len() && v.push(x)[k]@ == t;
        if k < v.len() {
            assert(v[k]@ == t);
        } else {
            assert(x@ == t);
        }
    }
    if spec_tokens_contain(v, t) {
        let k = choose|k: int| 0 <= k < v.len() && v[k]@ == t;
        assert(v.push(x)[k]@ == t);
    }
    if x@ == t {
        assert(v.push(x)[v.len() as int]@ == t);
    }
}

proof fn lemma_ids_contain_push(v: Seq<i64>, x: i64, y: i64)
    ensures
        v.push(x).contains(y) <==> (v.contains(y) || x == y),
{
    if v.push(x).contains(y) {
        let k = choose|k: int| 0 <= k < v.push(x).len() && v.push(x)[k] == y;
        if k < v.len() {
            assert(v[k] == y);
        }
    }
    if v.contains(y) {
        let k = choose|k: int| 0 <= k < v.len() && v[k] == y;
        assert(v.push(x)[k] == y);
    }
    if x == y {
        assert(v.push(x)[v.len() as int] == y);
    }
}

proof fn lemma_users_keyed_unchanged(pre: AppState, post: AppState)
    requires
        pre.users_keyed(),
        post.users() == pre.users(),
    ensures
        post.users_keyed(),
{
    assert forall|k: int| #[trigger]
        post.users().contains_key(k) implies post.users()[k].id == k by {
        assert(pre.users().contains_key(k));
    }
}

/// Whether `token` occurs in the in-flight list.
fn token_pending(v: &Vec<String>, token: &str) -> (r: bool)
    ensures
        r == spec_tokens_contain(v@, token@),
{
    let n = v.len();
    let mut i: usize = 0;
    while i < n
        invariant
            n == v@.len(),
            i <= n,
            forall|j: int| 0 <= j < i ==> v@[j]@ != token@,
        decreases n - i,
    {
        if str_eq(v[i].as_str(), token) {
            return true;
        }
        i += 1;
    }
    false
}

/// Removes every occurrence of `token` from the in-flight list.
fn remove_token(v: &mut Vec<String>, token: &str)
    ensures
        forall|t: Seq<char>|
            #[trigger] spec_tokens_contain(final(v)@, t) <==> spec_tokens_contain(old(v)@, t) && t
                != token@,
{
    let n = v.len();
    let mut out: Vec<String> = Vec::new();
    let mut i: usize = 0;
    while i < n
        invariant
            n == v@.len(),
            i <= n,
            forall|t: Seq<char>|
                #[trigger] spec_tokens_contain(out@, t) <==> spec_tokens_contain(
                    v@.take(i as int),
                    t,
                ) && t != token@,
        decreases n - i,
    {
        let ghost prev = out@;
        let keep = !str_eq(v[i].as_str(), token);
        if keep {
            out.push(v[i].clone());
        }
        proof {
            assert(v@.take(i + 1) =~= v@.take(i as int).push(v@[i as int]));
            if keep {
                assert(out@ =~= prev.push(v@[i as int]));
            }
            assert forall|t: Seq<char>| #[trigger]
                spec_tokens_contain(out@, t) <==> spec_tokens_contain(v@.take(i + 1), t) && t
                != token@ by {
                lemma_tokens_contain_push(v@.take(i as int), v@[i as int], t);
                if keep {
                    lemma_tokens_contain_push(prev, v@[i as int], t);
                }
            }
        }
        i += 1;
    }
    proof {
        assert(v@.take(n as int) =~= v@);
    }
    *v = out;
}

/// Whether `id` occurs in the in-flight list.
fn id_pending(v: &Vec<i64>, id: i64) -> (r: bool)
    ensures
        r == v@.contains(id),
{
    let n = v.len();
    let mut i: usize = 0;
    while i < n
        invariant
            n == v@.len(),
            i <= n,
            forall|j: int| 0 <= j < i ==> v@[j] != id,
        decreases n - i,
    {
        if v[i] == id {
            return true;
        }
        i += 1;
    }
    false
}

/// Removes every occurrence of `id` from the in-flight list.
fn remove_id(v: &mut Vec<i64>, id: i64)
    ensures
        forall|x: i64| #[trigger] final(v)@.contains(x) <==> old(v)@.contains(x) && x != id,
{
    let n = v.len();
    let mut out: Vec<i64> = Vec::new();
    let mut i: usize = 0;
    while i < n
        invariant
            n == v@.len(),
            i <= n,
            forall|x: i64| #[trigger] out@.contains(x) <==> v@.take(i as int).contains(x) && x != id,
        decreases n - i,
    {
        let ghost prev = out@;
        let keep = v[i] != id;
        if keep {
            out.push(v[i]);
        }
        proof {
            assert(v@.take(i + 1) =~= v@.take(i as int).push(v@[i as int]));
            if keep {
                assert(out@ =~= prev.push(v@[i as int]));
            }
            assert forall|x: i64| #[trigger]
                out@.contains(x) <==> v@.take(i + 1).contains(x) && x != id by {
                lemma_ids_contain_push(v@.take(i as int), v@[i as int], x);
                if keep {
                    lemma_ids_contain_push(prev, v@[i as int], x);
                }
            }
        }
        i += 1;
    }
    proof {
        assert(v@.take(n as int) =~= v@);
    }
    *v = out;
}

/// The outcome of an account lookup.
pub enum AccountStep {
    /// The cache held the record.
    Hit(Account),
    /// The caller must query the store and then call `admit_account`.
    Query,
    /// Another caller is already querying the store for this id; wait for
    /// its result.
    Wait,
}

/// The outcome of a session lookup.
pub enum SessionStep {
    /// A cached, unexpired session.
    Valid(SessionInfo),
    /// The cached session had expired; it was dropped from the cache and
    /// the caller should issue a best-effort store delete for the row.
    Expired,
    /// The caller must query the store and then call `admit_session`.
    Query,
    /// Another caller is already querying the store for this token; wait
    /// for its result.
    Wait,
}

/// The outcome of admitting a store answer for a session token.
pub enum SessionAdmit {
    /// The row exists and is not expired; it is now cached.
    Valid(SessionInfo),
    /// The row exists but has expired: nothing is cached and the caller
    /// should issue a best-effort store delete for the row.
    ExpiredDelete,
    /// No such row; nothing is cached (negative results never are).
    NotFound,
}

/// The outcome of an account-behind-session lookup.
pub enum SessionAccountStep {
    /// A cached, unexpired session; continue with `get_account` for the
    /// reported account id.
    HasSession(SessionInfo),
    /// The cached session had expired; it was dropped from the cache and
    /// the caller should issue a best-effort store delete for the row.
    Expired,
    /// The caller must run the joined account-and-session store query
    /// and then call `admit_session_account`.
    QueryJoined,
    /// Another caller is already querying the store for this token; wait
    /// for its result.
    Wait,
}

/// The outcome of admitting a joined account-and-session store answer.
pub enum SessionAccountAdmit {
    /// Session valid: both the session and the account are now cached.
    Valid(Account),
    /// The row exists but has expired: nothing is cached and the caller
    /// should issue a best-effort store delete for the session row.
    ExpiredDelete,
    /// No such pair; nothing is cached.
    NotFound,
}

/// The outcome of an image point lookup.
pub enum ImageLookup {
    /// Found in the fresh cached entry list.
    Cached(ImageEntry),
    /// Not answerable from the cache; the caller must query the store.
    Query,
}

/// Global application cache state, shared by every request.
pub struct AppState {
    /// All image entries, ordered by id, as last read from the store.
    pub cached_images: TimedCachedValue<Vec<ImageEntry>>,
    /// The gallery file views derived from `cached_images`.
    pub cached_image_files: TimedCachedValue<Vec<ImageFile>>,
    /// Account records by account id.
    pub cached_users: Cache<i64, Account>,
    /// Account ids with a store query in flight.
    pub users_in_flight: Vec<i64>,
    /// Session records by token.
    pub valid_sessions: Cache<String, SessionInfo>,
    /// Tokens with a store query in flight.
    pub sessions_in_flight: Vec<String>,
}

impl AppState {
    pub open spec fn users(self) -> Map<int, Account> {
        account_cache_entries(self.cached_users)
    }

    pub open spec fn sessions(self) -> Map<Seq<char>, SessionInfo> {
        session_cache_entries(self.valid_sessions)
    }

    pub open spec fn user_pending(self, id: i64) -> bool {
        self.users_in_flight@.contains(id)
    }

    pub open spec fn session_pending(self, t: Seq<char>) -> bool {
        spec_tokens_contain(self.sessions_in_flight@, t)
    }

    /// The two derived image caches always hold matching values: either
    /// both are empty, or the file views are exactly the derivation of the
    /// entry list, stored at the same instant with the same TTL.
    pub open spec fn images_coherent(self) -> bool {
        &&& self.cached_images.ttl == self.cached_image_files.ttl
        &&& match (self.cached_images.value, self.cached_image_files.value) {
            (Some(entries), Some(files)) => self.cached_images.inserted_at
                == self.cached_image_files.inserted_at && entries_sorted(entries@) && files.len()
                == entries.len() && forall|i: int|
                0 <= i < entries.len() ==> matches_file(entries[i], #[trigger] files[i]),
            (None, None) => true,
            _ => false,
        }
    }

    /// Every cached account record sits under its own id.
    pub open spec fn users_keyed(self) -> bool {
        forall|k: int| #[trigger] self.users().contains_key(k) ==> self.users()[k].id == k
    }

    pub open spec fn wf(self) -> bool {
        &&& account_cache_capacity(self.cached_users) >= 1
        &&& session_cache_capacity(self.valid_sessions) >= 1
        &&& self.users_keyed()
        &&& self.images_coherent()
    }

    pub open spec fn users_unchanged(pre: AppState, post: AppState) -> bool {
        &&& post.users() == pre.users()
        &&& post.users_in_flight@ == pre.users_in_flight@
    }

    pub open spec fn sessions_unchanged(pre: AppState, post: AppState) -> bool {
        &&& post.sessions() == pre.sessions()
        &&& post.sessions_in_flight@ == pre.sessions_in_flight@
    }

    pub open spec fn images_unchanged(pre: AppState, post: AppState) -> bool {
        &&& post.cached_images == pre.cached_images
        &&& post.cached_image_files == pre.cached_image_files
    }

    /// Builds the process-wide state with empty caches.
    pub fn new() -> (r: Self)
        ensures
            r.wf(),
            forall|k: int| !r.users().contains_key(k),
            forall|t: Seq<char>| !r.sessions().contains_key(t),
            forall|id: i64| !r.user_pending(id),
            forall|t: Seq<char>| !r.session_pending(t),
            r.cached_images.value is None,
            r.cached_image_files.value is None,
    {
        let r = AppState {
            cached_images: TimedCachedValue::new(IMAGE_CACHE_TTL),
            cached_image_files: TimedCachedValue::new(IMAGE_CACHE_TTL),
            cached_users: account_cache_new(KEYED_CACHE_CAPACITY),
            users_in_flight: Vec::new(),
            valid_sessions: session_cache_new(KEYED_CACHE_CAPACITY),
            sessions_in_flight: Vec::new(),
        };
        proof {
            assert(r.users_keyed());
        }
        r
    }

    /// Looks an account up in the cache, or claims the right to populate
    /// it.
    pub fn get_account(&mut self, id: i64) -> (r: AccountStep)
        requires
            old(self).wf(),
        ensures
            final(self).wf(),
            Self::sessions_unchanged(*old(self), *final(self)),
            Self::images_unchanged(*old(self), *final(self)),
            final(self).users() == old(self).users(),
            account_lookup_transition(*old(self), *final(self), id, r),
            match r {
                AccountStep::Hit(a) => old(self).users().contains_key(id as int) && a == old(self).users()[id as int] && a.id == id && final(self).users_in_flight@ == old(self).users_in_flight@,
                AccountStep::Query => !old(self).users().contains_key(id as int) && !old(self).user_pending(id) && forall|x: i64|
                    #[trigger] final(self).user_pending(x) <==> old(self).user_pending(x) || x
                        == id,
                AccountStep::Wait => !old(self).users().contains_key(id as int) && old(self).user_pending(id) && final(self).users_in_flight@ == old(self).users_in_flight@,
            },
    {
        match account_cache_get(&self.cached_users, id) {
            Some(a) => {
                proof {
                    assert(old(self).users().contains_key(id as int));
                }
                AccountStep::Hit(a)
            }
            None => {
                if id_pending(&self.users_in_flight, id) {
                    AccountStep::Wait
                } else {
                    let ghost prev = self.users_in_flight@;
                    self.users_in_flight.push(id);
                    proof {
                        assert forall|x: i64| #[trigger]
                            self.user_pending(x) <==> old(self).user_pending(x) || x == id by {
                            lemma_ids_contain_push(prev, id, x);
                        }
                        lemma_users_keyed_unchanged(*old(self), *self);
                    }
                    AccountStep::Query
                }
            }
        }
    }

    /// Admits the store's answer for an account id: a found record is
    /// cached (as far as the bounded cache keeps it) and handed back, a
    /// missing record is never cached.  The store's point lookup returns
    /// the row with that very id, which the caller passes on.
    pub fn admit_account(&mut self, id: i64, row: Option<Account>) -> (r: Option<Account>)
        requires
            old(self).wf(),
            old(self).user_pending(id),
            (match row {
                Some(a) => a.id == id,
                None => true,
            }),
        ensures
            final(self).wf(),
            Self::sessions_unchanged(*old(self), *final(self)),
            Self::images_unchanged(*old(self), *final(self)),
            forall|x: i64|
                #[trigger] final(self).user_pending(x) <==> old(self).user_pending(x) && x != id,
            r == row,
            match row {
                Some(a) => (old(self).users().contains_key(id as int) ==> final(self).users().contains_key(id as int)) && (final(self).users().contains_key(id as int)
                    ==> final(self).users()[id as int] == a) && forall|k: int|
                    k != id as int && #[trigger] final(self).users().contains_key(k) ==> old(self).users().contains_key(k) && final(self).users()[k] == old(self).users()[k],
                None => final(self).users() == old(self).users(),
            },
    {
        remove_id(&mut self.users_in_flight, id);
        match row {
            Some(a) => {
                account_cache_insert(&mut self.cached_users, id, a.clone());
                proof {
                    assert forall|k: int| #[trigger]
                        self.users().contains_key(k) implies self.users()[k].id == k by {
                        if k != id as int {
                            assert(old(self).users().contains_key(k));
                        }
                    }
                }
                Some(a)
            }
            None => {
                proof {
                    lemma_users_keyed_unchanged(*old(self), *self);
                }
                None
            }
        }
    }

    /// Drops one account from the cache.
    pub fn invalidate_account_cache(&mut self, id: i64)
        requires
            old(self).wf(),
        ensures
            final(self).wf(),
            Self::sessions_unchanged(*old(self), *final(self)),
            Self::images_unchanged(*old(self), *final(self)),
            final(self).users() == old(self).users().remove(id as int),
            final(self).users_in_flight@ == old(self).users_in_flight@,
    {
        account_cache_remove(&mut self.cached_users, id);
        proof {
            assert forall|k: int| #[trigger]
                self.users().contains_key(k) implies self.users()[k].id == k by {
                assert(old(self).users().contains_key(k));
            }
        }
    }

    /// Drops every account from the cache.
    pub fn clear_account_cache(&mut self)
        requires
            old(self).wf(),
        ensures
            final(self).wf(),
            Self::sessions_unchanged(*old(self), *final(self)),
            Self::images_unchanged(*old(self), *final(self)),
            forall|k: int| !final(self).users().contains_key(k),
            final(self).users_in_flight@ == old(self).users_in_flight@,
    {
        account_cache_clear(&mut self.cached_users);
        proof {
            assert(self.users_keyed());
        }
    }

    /// Drops every session from the cache.
    pub fn clear_session_cache(&mut self)
        requires
            old(self).wf(),
        ensures
            final(self).wf(),
            Self::users_unchanged(*old(self), *final(self)),
            Self::images_unchanged(*old(self), *final(self)),
            forall|t: Seq<char>| !final(self).sessions().contains_key(t),
            final(self).sessions_in_flight@ == old(self).sessions_in_flight@,
    {
        session_cache_clear(&mut self.valid_sessions);
        proof {
            lemma_users_keyed_unchanged(*old(self), *self);
        }
    }

    /// Decides whether a session token is valid at time `now`, from the
    /// cache alone.
    pub fn is_session_valid(&mut self, token: &str, now: u64) -> (r: SessionStep)
        requires
            old(self).wf(),
        ensures
            final(self).wf(),
            Self::users_unchanged(*old(self), *final(self)),
            Self::images_unchanged(*old(self), *final(self)),
            session_lookup_transition(*old(self), *final(self), token@, now as int, r),
            match r {
                SessionStep::Valid(info) => old(self).sessions().contains_key(token@) && info
                    == old(self).sessions()[token@] && !info.spec_is_expired(now as int)
                    && Self::sessions_unchanged(*old(self), *final(self)),
                SessionStep::Expired => old(self).sessions().contains_key(token@) && old(self).sessions()[token@].spec_is_expired(now as int) && final(self).sessions() == old(self).sessions().remove(token@) && final(self).sessions_in_flight@ == old(self).sessions_in_flight@,
                SessionStep::Query => !old(self).sessions().contains_key(token@) && !old(self).session_pending(token@) && final(self).sessions() == old(self).sessions()
                    && forall|t: Seq<char>|
                    #[trigger] final(self).session_pending(t) <==> old(self).session_pending(t)
                        || t == token@,
                SessionStep::Wait => !old(self).sessions().contains_key(token@) && old(self).session_pending(token@) && Self::sessions_unchanged(*old(self), *final(self)),
            },
    {
        match session_cache_get(&self.valid_sessions, token) {
            Some(info) => {
                if info.is_expired(now) {
                    session_cache_remove(&mut self.valid_sessions, token);
                    proof {
                        lemma_users_keyed_unchanged(*old(self), *self);
                    }
                    SessionStep::Expired
                } else {
                    SessionStep::Valid(info)
                }
            }
            None => {
                if token_pending(&self.sessions_in_flight, token) {
                    SessionStep::Wait
                } else {
                    let ghost prev = self.sessions_in_flight@;
                    let owned = token.to_owned();
                    let ghost pushed = owned;
                    self.sessions_in_flight.push(owned);
                    proof {
                        assert forall|t: Seq<char>| #[trigger]
                            self.session_pending(t) <==> old(self).session_pending(t) || t
                            == token@ by {
                            lemma_tokens_contain_push(prev, pushed, t);
                        }
                        lemma_users_keyed_unchanged(*old(self), *self);
                    }
                    SessionStep::Query
                }
            }
        }
    }

    /// Admits the store's answer for a session token.  A missing or
    /// expired row is never cached.
    pub fn admit_session(&mut self, token: &str, row: Option<SessionInfo>, now: u64) -> (r:
        SessionAdmit)
        requires
            old(self).wf(),
            old(self).session_pending(token@),
        ensures
            final(self).wf(),
            Self::users_unchanged(*old(self), *final(self)),
            Self::images_unchanged(*old(self), *final(self)),
            forall|t: Seq<char>|
                #[trigger] final(self).session_pending(t) <==> old(self).session_pending(t) && t
                    != token@,
            match r {
                SessionAdmit::Valid(info) => row == Some(info) && !info.spec_is_expired(now as int)
                    && (old(self).sessions().contains_key(token@) ==> final(self).sessions().contains_key(token@)) && (final(self).sessions().contains_key(token@)
                    ==> final(self).sessions()[token@] == info) && forall|t: Seq<char>|
                    t != token@ && #[trigger] final(self).sessions().contains_key(t) ==> old(self).sessions().contains_key(t) && final(self).sessions()[t] == old(self).sessions()[t],
                SessionAdmit::ExpiredDelete => (match row {
                    Some(info) => info.spec_is_expired(now as int),
                    None => false,
                }) && final(self).sessions() == old(self).sessions().remove(token@),
                SessionAdmit::NotFound => row is None && final(self).sessions() == old(self).sessions(),
            },
    {
        remove_token(&mut self.sessions_in_flight, token);
        let outcome = match row {
            Some(info) => {
                if info.is_expired(now) {
                    session_cache_remove(&mut self.valid_sessions, token);
                    SessionAdmit::ExpiredDelete
                } else {
                    session_cache_insert(&mut self.valid_sessions, token, info);
                    SessionAdmit::Valid(info)
                }
            }
            None => SessionAdmit::NotFound,
        };
        proof {
            lemma_users_keyed_unchanged(*old(self), *self);
        }
        outcome
    }

    /// Looks up the account behind a session token in one step.  On a
    /// session-cache hit the caller continues with `get_account` for the
    /// reported account id and hands the answer to
    /// `session_account_result`; on a miss it runs the joined
    /// account-and-session store query and hands the row to
    /// `admit_session_account`, saving a second store round trip on a
    /// cold cache.
    pub fn get_session_account(&mut self, token: &str, now: u64) -> (r: SessionAccountStep)
        requires
            old(self).wf(),
        ensures
            final(self).wf(),
            Self::users_unchanged(*old(self), *final(self)),
            Self::images_unchanged(*old(self), *final(self)),
            match r {
                SessionAccountStep::HasSession(info) => old(self).sessions().contains_key(token@)
                    && info == old(self).sessions()[token@] && !info.spec_is_expired(now as int)
                    && Self::sessions_unchanged(*old(self), *final(self)),
                SessionAccountStep::Expired => old(self).sessions().contains_key(token@) && old(self).sessions()[token@].spec_is_expired(now as int) && final(self).sessions() == old(self).sessions().remove(token@),
                SessionAccountStep::QueryJoined => session_query_transition(
                    *old(self),
                    *final(self),
                    token@,
                ),
                SessionAccountStep::Wait => !old(self).sessions().contains_key(token@) && old(self).session_pending(token@) && Self::sessions_unchanged(*old(self), *final(self)),
            },
    {
        match self.is_session_valid(token, now) {
            SessionStep::Valid(info) => SessionAccountStep::HasSession(info),
            SessionStep::Expired => SessionAccountStep::Expired,
            SessionStep::Query => SessionAccountStep::QueryJoined,
            SessionStep::Wait => SessionAccountStep::Wait,
        }
    }

    /// Finishes the hit path of `get_session_account`: folds the account
    /// directory's answer in.  A found account is the result; a missing
    /// one means the cached session points at a dead account, so the
    /// session is dropped from the cache and the lookup fails.
    pub fn session_account_result(&mut self, token: &str, account: Option<Account>) -> (r: Option<
        Account,
    >)
        requires
            old(self).wf(),
        ensures
            final(self).wf(),
            Self::users_unchanged(*old(self), *final(self)),
            Self::images_unchanged(*old(self), *final(self)),
            final(self).sessions_in_flight@ == old(self).sessions_in_flight@,
            r == account,
            match account {
                Some(_) => final(self).sessions() == old(self).sessions(),
                None => final(self).sessions() == old(self).sessions().remove(token@),
            },
    {
        let outcome = match account {
            Some(a) => Some(a),
            None => {
                session_cache_remove(&mut self.valid_sessions, token);
                None
            }
        };
        proof {
            lemma_users_keyed_unchanged(*old(self), *self);
        }
        outcome
    }

    /// Admits the store's answer to the joined account-and-session query
    /// used on a cold session cache: a valid pair populates both caches in
    /// one step.  The join condition ties the pair together: the session
    /// metadata's account id is the account's own id.
    pub fn admit_session_account(
        &mut self,
        token: &str,
        row: Option<(Account, SessionInfo)>,
        now: u64,
    ) -> (r: SessionAccountAdmit)
        requires
            old(self).wf(),
            old(self).session_pending(token@),
            (match row {
                Some(p) => p.1.id == p.0.id,
                None => true,
            }),
        ensures
            final(self).wf(),
            Self::images_unchanged(*old(self), *final(self)),
            final(self).users_in_flight@ == old(self).users_in_flight@,
            forall|t: Seq<char>|
                #[trigger] final(self).session_pending(t) <==> old(self).session_pending(t) && t
                    != token@,
            match r {
                SessionAccountAdmit::Valid(acc) => (match row {
                    Some(p) => acc == p.0 && !p.1.spec_is_expired(now as int) && (old(self).sessions().contains_key(token@) ==> final(self).sessions().contains_key(token@))
                        && (final(self).sessions().contains_key(token@) ==> final(self).sessions()[token@] == p.1)
                        && (old(self).users().contains_key(p.0.id as int) ==> final(self).users().contains_key(p.0.id as int))
                        && (final(self).users().contains_key(p.0.id as int) ==> final(self).users()[p.0.id as int] == p.0) && forall|t: Seq<char>|
                        t != token@ && #[trigger] final(self).sessions().contains_key(t) ==> old(self).sessions().contains_key(t) && final(self).sessions()[t] == old(self).sessions()[t],
                    None => false,
                }) && (match row {
                    Some(p) => forall|k: int|
                        k != p.0.id as int && #[trigger] final(self).users().contains_key(k) ==> old(self).users().contains_key(k) && final(self).users()[k] == old(self).users()[k],
                    None => false,
                }),
                SessionAccountAdmit::ExpiredDelete => (match row {
                    Some(p) => p.1.spec_is_expired(now as int),
                    None => false,
                }) && final(self).sessions() == old(self).sessions().remove(token@) && final(self).users() == old(self).users(),
                SessionAccountAdmit::NotFound => row is None && final(self).sessions() == old(self).sessions() && final(self).users() == old(self).users(),
            },
    {
        remove_token(&mut self.sessions_in_flight, token);
        match row {
            Some((account, info)) => {
                if info.is_expired(now) {
                    session_cache_remove(&mut self.valid_sessions, token);
                    proof {
                        lemma_users_keyed_unchanged(*old(self), *self);
                    }
                    SessionAccountAdmit::ExpiredDelete
                } else {
                    session_cache_insert(&mut self.valid_sessions, token, info);
                    account_cache_insert(&mut self.cached_users, account.id, account.clone());
                    proof {
                        assert forall|k: int| #[trigger]
                            self.users().contains_key(k) implies self.users()[k].id == k by {
                            if k != account.id as int {
                                assert(old(self).users().contains_key(k));
                            }
                        }
                    }
                    SessionAccountAdmit::Valid(account)
                }
            }
            None => {
                proof {
                    lemma_users_keyed_unchanged(*old(self), *self);
                }
                SessionAccountAdmit::NotFound
            }
        }
    }

    /// Drops one session from the cache.  On logout the caller also
    /// deletes the store row; after a failed account lookup for a cached
    /// session only this cache entry is dropped.
    pub fn invalidate_session(&mut self, token: &str)
        requires
            old(self).wf(),
        ensures
            final(self).wf(),
            Self::users_unchanged(*old(self), *final(self)),
            Self::images_unchanged(*old(self), *final(self)),
            final(self).sessions() == old(self).sessions().remove(token@),
            final(self).sessions_in_flight@ == old(self).sessions_in_flight@,
    {
        session_cache_remove(&mut self.valid_sessions, token);
        proof {
            lemma_users_keyed_unchanged(*old(self), *self);
        }
    }

    /// Drops the cache entry of every given session row; used after the
    /// store reported which rows a bulk delete removed.
    pub fn remove_sessions(&mut self, rows: &Vec<Session>)
        requires
            old(self).wf(),
        ensures
            final(self).wf(),
            Self::users_unchanged(*old(self), *final(self)),
            Self::images_unchanged(*old(self), *final(self)),
            final(self).sessions_in_flight@ == old(self).sessions_in_flight@,
            forall|t: Seq<char>|
                #[trigger] final(self).sessions().contains_key(t) <==> old(self).sessions().contains_key(t) && !exists|i: int|
                    0 <= i < rows@.len() && rows@[i].id@ == t,
            forall|t: Seq<char>|
                #[trigger] final(self).sessions().contains_key(t) ==> final(self).sessions()[t]
                    == old(self).sessions()[t],
    {
        let n = rows.len();
        let mut i: usize = 0;
        while i < n
            invariant
                self.wf(),
                n == rows@.len(),
                i <= n,
                Self::users_unchanged(*old(self), *self),
                Self::images_unchanged(*old(self), *self),
                self.sessions_in_flight@ == old(self).sessions_in_flight@,
                forall|t: Seq<char>|
                    #[trigger] self.sessions().contains_key(t) <==> old(self).sessions().contains_key(t) && !exists|j: int|
                        0 <= j < i && rows@[j].id@ == t,
                forall|t: Seq<char>|
                    #[trigger] self.sessions().contains_key(t) ==> self.sessions()[t] == old(self).sessions()[t],
            decreases n - i,
        {
            let ghost before = self.sessions();
            session_cache_remove(&mut self.valid_sessions, rows[i].id.as_str());
            proof {
                lemma_users_keyed_unchanged(*old(self), *self);
                let key = rows@[i as int].id@;
                assert(self.sessions() == before.remove(key));
                assert forall|t: Seq<char>| #[trigger]
                    self.sessions().contains_key(t) <==> (old(self).sessions().contains_key(t)
                        && !exists|j: int| 0 <= j < i + 1 && rows@[j].id@ == t) by {
                    if self.sessions().contains_key(t) {
                        assert(before.contains_key(t) && t != key);
                        if exists|j: int| 0 <= j < i + 1 && rows@[j].id@ == t {
                            let j = choose|j: int| 0 <= j < i + 1 && rows@[j].id@ == t;
                            if j < i {
                                assert(exists|j2: int| 0 <= j2 < i && rows@[j2].id@ == t);
                            }
                            assert(false);
                        }
                    } else {
                        if old(self).sessions().contains_key(t) && !exists|j: int|
                            0 <= j < i + 1 && rows@[j].id@ == t {
                            assert(forall|j: int|
                                0 <= j < i ==> rows@[j].id@ != t) by {
                                assert forall|j: int| 0 <= j < i implies rows@[j].id@ != t by {
                                    if rows@[j].id@ == t {
                                        assert(exists|j2: int|
                                            0 <= j2 < i + 1 && rows@[j2].id@ == t);
                                    }
                                }
                            }
                            assert(!exists|j: int| 0 <= j < i && rows@[j].id@ == t);
                            assert(before.contains_key(t));
                            if t == key {
                                assert(rows@[i as int].id@ == t);
                                assert(exists|j: int| 0 <= j < i + 1 && rows@[j].id@ == t);
                            }
                            assert(self.sessions().contains_key(t));
                            assert(false);
                        }
                    }
                }
            }
            i += 1;
        }
    }

    /// Commits a freshly loaded entry list together with its derived file
    /// views; both caches become visible in the same operation, stamped
    /// with the same instant.  The store hands the entries out ordered
    /// ascending by id, and the cache carries that order.
    pub fn commit_images(&mut self, entries: Vec<ImageEntry>, now: u64) -> (r: &Vec<ImageEntry>)
        requires
            old(self).wf(),
            entries_sorted(entries@),
        ensures
            final(self).wf(),
            Self::users_unchanged(*old(self), *final(self)),
            Self::sessions_unchanged(*old(self), *final(self)),
            *r == entries,
            final(self).cached_images.value == Some(entries),
            final(self).cached_images.inserted_at == now,
            final(self).cached_images.ttl == old(self).cached_images.ttl,
            final(self).cached_image_files.value is Some,
            final(self).cached_image_files.inserted_at == now,
    {
        let files = derive_files(&entries);
        let _ = self.cached_image_files.set(files, now);
        let _ = self.cached_images.set(entries, now);
        proof {
            lemma_users_keyed_unchanged(*old(self), *self);
        }
        match &self.cached_images.value {
            Some(committed) => committed,
            None => unreached(),
        }
    }

    /// Invalidates both derived image caches together, keeping them
    /// coherent; mutation handlers call this after a confirmed store
    /// write.
    pub fn invalidate_image_caches(&mut self)
        requires
            old(self).wf(),
        ensures
            final(self).wf(),
            Self::users_unchanged(*old(self), *final(self)),
            Self::sessions_unchanged(*old(self), *final(self)),
            final(self).cached_images.value is None,
            final(self).cached_image_files.value is None,
            final(self).cached_images.ttl == old(self).cached_images.ttl,
            final(self).cached_image_files.ttl == old(self).cached_image_files.ttl,
    {
        self.cached_images.invalidate();
        self.cached_image_files.invalidate();
        proof {
            lemma_users_keyed_unchanged(*old(self), *self);
        }
    }

    /// Answers an image point lookup from the fresh cached entry list, or
    /// tells the caller to query the store.
    pub fn get_image(&self, id: &str, now: u64) -> (r: ImageLookup)
        requires
            self.wf(),
        ensures
            match r {
                ImageLookup::Cached(e) => self.cached_images.is_fresh(now as int) && e.id@ == id@
                    && exists|i: int|
                    0 <= i < self.cached_images.value->0@.len() && same_entry(
                        #[trigger] self.cached_images.value->0@[i],
                        e,
                    ),
                ImageLookup::Query => !(self.cached_images.is_fresh(now as int) && exists|i: int|
                    0 <= i < self.cached_images.value->0@.len() && (
                    #[trigger] self.cached_images.value->0@[i]).id@ == id@),
            },
    {
        match self.cached_images.get(now) {
            Some(entries) => {
                match find_image(entries, id) {
                    Some(e) => {
                        let copy = e.clone();
                        proof {
                            let list = self.cached_images.value->0@;
                            assert(list == entries@);
                            let i = choose|i: int| 0 <= i < list.len() && list[i] == *e;
                            assert(same_entry(list[i], copy));
                        }
                        ImageLookup::Cached(copy)
                    }
                    None => ImageLookup::Query,
                }
            }
            None => ImageLookup::Query,
        }
    }
}

/// After a committed entry load, the derived file views are fresh exactly
/// when the entries are, have the same length, and each file view is the
/// derivation of its entry — in particular its filename is the entry id,
/// a dot and the mime extension, and its URL prefixes that with
/// `/gallery/`.
pub proof fn lemma_image_coherence(s: AppState, now: int)
    requires
        s.wf(),
        s.cached_images.is_fresh(now),
    ensures
        s.cached_image_files.is_fresh(now),
        s.cached_image_files.value->0.len() == s.cached_images.value->0.len(),
        forall|i: int|
            0 <= i < s.cached_images.value->0.len() ==> matches_file(
                s.cached_images.value->0[i],
                #[trigger] s.cached_image_files.value->0[i],
            ),
{
}

/// The state change of a lookup that was told to populate: the token was
/// neither cached nor in flight, the cache is untouched, and the token is
/// now marked in flight.
pub open spec fn session_query_transition(pre: AppState, post: AppState, token: Seq<char>) -> bool {
    &&& !pre.sessions().contains_key(token)
    &&& !pre.session_pending(token)
    &&& post.sessions() == pre.sessions()
    &&& forall|t: Seq<char>|
        #[trigger] post.session_pending(t) <==> pre.session_pending(t) || t == token
}

/// The transition `is_session_valid` makes on the session state for a
/// given outcome, as stated in its contract.
pub open spec fn session_lookup_transition(
    pre: AppState,
    post: AppState,
    token: Seq<char>,
    now: int,
    outcome: SessionStep,
) -> bool {
    match outcome {
        SessionStep::Valid(info) => pre.sessions().contains_key(token) && info
            == pre.sessions()[token] && !info.spec_is_expired(now) && AppState::sessions_unchanged(
            pre,
            post,
        ),
        SessionStep::Expired => pre.sessions().contains_key(token)
            && pre.sessions()[token].spec_is_expired(now) && post.sessions()
            == pre.sessions().remove(token) && post.sessions_in_flight@
            == pre.sessions_in_flight@,
        SessionStep::Query => session_query_transition(pre, post, token),
        SessionStep::Wait => !pre.sessions().contains_key(token) && pre.session_pending(token)
            && AppState::sessions_unchanged(pre, post),
    }
}

/// Dogpile protection: across any chain of session lookups for one token
/// with no intervening admit, at most one lookup is told to populate —
/// the first miss marks the token in flight, every later lookup in the
/// chain finds the mark and waits.
pub proof fn lemma_dogpile_single_populate(
    states: Seq<AppState>,
    outcomes: Seq<SessionStep>,
    times: Seq<int>,
    token: Seq<char>,
    first: int,
    later: int,
)
    requires
        states.len() == outcomes.len() + 1,
        times.len() == outcomes.len(),
        forall|i: int|
            0 <= i < outcomes.len() ==> session_lookup_transition(
                states[i],
                states[i + 1],
                token,
                times[i],
                #[trigger] outcomes[i],
            ),
        0 <= first < later < outcomes.len(),
        outcomes[first] is Query,
    ensures
        !(outcomes[later] is Query),
{
    assert forall|j: int| first < j <= later implies states[j].session_pending(token) by {
        lemma_pending_persists(states, outcomes, times, token, first, j);
    }
}

proof fn lemma_pending_persists(
    states: Seq<AppState>,
    outcomes: Seq<SessionStep>,
    times: Seq<int>,
    token: Seq<char>,
    first: int,
    upto: int,
)
    requires
        states.len() == outcomes.len() + 1,
        times.len() == outcomes.len(),
        forall|i: int|
            0 <= i < outcomes.len() ==> session_lookup_transition(
                states[i],
                states[i + 1],
                token,
                times[i],
                #[trigger] outcomes[i],
            ),
        0 <= first < outcomes.len(),
        outcomes[first] is Query,
        first < upto <= outcomes.len(),
    ensures
        states[upto].session_pending(token),
    decreases upto - first,
{
    if upto == first + 1 {
        assert(session_lookup_transition(
            states[first],
            states[first + 1],
            token,
            times[first],
            outcomes[first],
        ));
    } else {
        lemma_pending_persists(states, outcomes, times, token, first, upto - 1);
        assert(session_lookup_transition(
            states[upto - 1],
            states[upto],
            token,
            times[upto - 1],
            outcomes[upto - 1],
        ));
    }
}

/// After the session cache is cleared, the next lookup for any token with
/// no populate in flight is a fresh populate.
pub proof fn lemma_invalidate_all_sessions(
    cleared: AppState,
    post: AppState,
    token: Seq<char>,
    now: int,
    outcome: SessionStep,
)
    requires
        forall|t: Seq<char>| !cleared.sessions().contains_key(t),
        !cleared.session_pending(token),
        session_lookup_transition(cleared, post, token, now, outcome),
    ensures
        outcome is Query,
{
}

/// The transition `get_account` makes on the account state for a given
/// outcome, as stated in its contract.
pub open spec fn account_lookup_transition(
    pre: AppState,
    post: AppState,
    id: i64,
    outcome: AccountStep,
) -> bool {
    match outcome {
        AccountStep::Hit(a) => pre.users().contains_key(id as int) && a == pre.users()[id as int]
            && AppState::users_unchanged(pre, post),
        AccountStep::Query => !pre.users().contains_key(id as int) && !pre.user_pending(id)
            && post.users() == pre.users() && forall|x: i64|
            #[trigger] post.user_pending(x) <==> pre.user_pending(x) || x == id,
        AccountStep::Wait => !pre.users().contains_key(id as int) && pre.user_pending(id)
            && AppState::users_unchanged(pre, post),
    }
}

/// After the account cache is cleared, the next lookup for any id with no
/// populate in flight is a fresh populate.
pub proof fn lemma_invalidate_all_accounts(
    cleared: AppState,
    post: AppState,
    id: i64,
    outcome: AccountStep,
)
    requires
        forall|k: int| !cleared.users().contains_key(k),
        !cleared.user_pending(id),
        account_lookup_transition(cleared, post, id, outcome),
    ensures
        outcome is Query,
{
}

/// Dogpile protection for account lookups, one step: a lookup that is
/// told to populate marks the id in flight, so a lookup that follows it
/// before the answer is admitted cannot be told to populate again.
pub proof fn lemma_dogpile_account(
    pre: AppState,
    mid: AppState,
    post: AppState,
    id: i64,
    first: AccountStep,
    second: AccountStep,
)
    requires
        account_lookup_transition(pre, mid, id, first),
        account_lookup_transition(mid, post, id, second),
        first is Query,
    ensures
        !(second is Query),
{
}

} // verus!
