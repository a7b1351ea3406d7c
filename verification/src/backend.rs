//! Trusted boundary to the keyed cache of the `quick_cache` crate.
//!
//! The rest of the crate reasons about each cache through two names — the
//! map of entries it currently holds and the capacity it was built with —
//! and through the wrappers below, whose contracts state what the crate's
//! source shows of `new`, `get`, `insert`, `remove` and `clear`:
//!
//! * `get` returns a clone of the entry stored under the key, or `None`;
//! * `insert` admits the given entry, but the eviction scan that runs
//!   while a shard is over budget can drop it again straight away (a
//!   readmission from a ghost slot enters with reference count zero and
//!   sits first in the eviction order), so presence afterwards is not
//!   promised in general; what is promised: a key that was already
//!   resident stays resident (replacing it changes no weight at unit
//!   weight, so the trim loop at the end of the replace path never
//!   runs), if the key is present it holds the new value, and other
//!   surviving keys are unchanged;
//! * `remove` removes exactly the given key; `clear` empties the cache.

use vstd::prelude::*;

use quick_cache::sync::Cache;
use quick_cache::sync::DefaultLifecycle;
use quick_cache::{DefaultHashBuilder, UnitWeighter};

use crate::cached::CachedBody;
use crate::models::Account;
use crate::state::SessionInfo;

verus! {

#[verifier::external_type_specification]
#[verifier::external_body]
#[verifier::reject_recursive_types(Key)]
#[verifier::reject_recursive_types(Val)]
#[verifier::reject_recursive_types(We)]
#[verifier::reject_recursive_types(B)]
#[verifier::reject_recursive_types(L)]
pub struct ExCache<Key, Val, We, B, L>(Cache<Key, Val, We, B, L>);

#[verifier::external_type_specification]
#[verifier::external_body]
pub struct ExUnitWeighter(UnitWeighter);

#[verifier::external_type_specification]
#[verifier::external_body]
pub struct ExDefaultHashBuilder(DefaultHashBuilder);

#[verifier::external_type_specification]
#[verifier::external_body]
#[verifier::reject_recursive_types(Key)]
#[verifier::reject_recursive_types(Val)]
pub struct ExDefaultLifecycle<Key, Val>(DefaultLifecycle<Key, Val>);

/// The account records currently held by an account cache, keyed by
/// account id.
pub uninterp spec fn account_cache_entries(c: Cache<i64, Account>) -> Map<int, Account>;

/// The unit-weight capacity an account cache was built with.
pub uninterp spec fn account_cache_capacity(c: Cache<i64, Account>) -> int;

/// Relies on `quick_cache::sync::Cache::new`: a fresh cache holds nothing.
#[verifier::external_body]
pub fn account_cache_new(capacity: usize) -> (r: Cache<i64, Account>)
    requires
        capacity >= 1,
    ensures
        forall|k: int| !account_cache_entries(r).contains_key(k),
        account_cache_capacity(r) == capacity as int,
{
    Cache::new(capacity)
}

/// Relies on `quick_cache::sync::Cache::get`: returns a clone of the entry
/// under the key, if present.
#[verifier::external_body]
pub fn account_cache_get(c: &Cache<i64, Account>, id: i64) -> (r: Option<Account>)
    ensures
        match r {
            Some(a) => account_cache_entries(*c).contains_key(id as int) && a
                == account_cache_entries(*c)[id as int],
            None => !account_cache_entries(*c).contains_key(id as int),
        },
{
    c.get(&id)
}

/// Relies on `quick_cache::sync::Cache::insert`: the entry is admitted,
/// but the eviction scan may drop it again at once, so only this much is
/// promised: a key that was already resident stays resident, if the key
/// is present afterwards it holds the new value, and every other
/// surviving key is unchanged.
#[verifier::external_body]
pub fn account_cache_insert(c: &mut Cache<i64, Account>, id: i64, account: Account)
    ensures
        account_cache_capacity(*final(c)) == account_cache_capacity(*old(c)),
        account_cache_entries(*old(c)).contains_key(id as int) ==> account_cache_entries(
            *final(c),
        ).contains_key(id as int),
        account_cache_entries(*final(c)).contains_key(id as int) ==> account_cache_entries(
            *final(c),
        )[id as int] == account,
        forall|k: int|
            k != id as int && #[trigger] account_cache_entries(*final(c)).contains_key(k)
                ==> account_cache_entries(*old(c)).contains_key(k)
                && account_cache_entries(*final(c))[k] == account_cache_entries(*old(c))[k],
{
    c.insert(id, account);
}

/// Relies on `quick_cache::sync::Cache::remove`: removes exactly the
/// entry under the key.
#[verifier::external_body]
pub fn account_cache_remove(c: &mut Cache<i64, Account>, id: i64)
    ensures
        account_cache_capacity(*final(c)) == account_cache_capacity(*old(c)),
        account_cache_entries(*final(c)) == account_cache_entries(*old(c)).remove(id as int),
{
    c.remove(&id);
}

/// Relies on `quick_cache::sync::Cache::clear`: empties every shard.
#[verifier::external_body]
pub fn account_cache_clear(c: &mut Cache<i64, Account>)
    ensures
        account_cache_capacity(*final(c)) == account_cache_capacity(*old(c)),
        forall|k: int| !account_cache_entries(*final(c)).contains_key(k),
{
    c.clear();
}

/// The session records currently held by a session cache, keyed by the
/// session token.
pub uninterp spec fn session_cache_entries(c: Cache<String, SessionInfo>) -> Map<
    Seq<char>,
    SessionInfo,
>;

/// The unit-weight capacity a session cache was built with.
pub uninterp spec fn session_cache_capacity(c: Cache<String, SessionInfo>) -> int;

/// Relies on `quick_cache::sync::Cache::new`: a fresh cache holds nothing.
#[verifier::external_body]
pub fn session_cache_new(capacity: usize) -> (r: Cache<String, SessionInfo>)
    requires
        capacity >= 1,
    ensures
        forall|k: Seq<char>| !session_cache_entries(r).contains_key(k),
        session_cache_capacity(r) == capacity as int,
{
    Cache::new(capacity)
}

/// Relies on `quick_cache::sync::Cache::get`: returns a copy of the entry
/// under the token, if present.
#[verifier::external_body]
pub fn session_cache_get(c: &Cache<String, SessionInfo>, token: &str) -> (r: Option<SessionInfo>)
    ensures
        match r {
            Some(s) => session_cache_entries(*c).contains_key(token@) && s
                == session_cache_entries(*c)[token@],
            None => !session_cache_entries(*c).contains_key(token@),
        },
{
    c.get(token)
}

/// Relies on `quick_cache::sync::Cache::insert`, as for the account cache.
#[verifier::external_body]
pub fn session_cache_insert(c: &mut Cache<String, SessionInfo>, token: &str, info: SessionInfo)
    ensures
        session_cache_capacity(*final(c)) == session_cache_capacity(*old(c)),
        session_cache_entries(*old(c)).contains_key(token@) ==> session_cache_entries(
            *final(c),
        ).contains_key(token@),
        session_cache_entries(*final(c)).contains_key(token@) ==> session_cache_entries(
            *final(c),
        )[token@] == info,
        forall|k: Seq<char>|
            k != token@ && #[trigger] session_cache_entries(*final(c)).contains_key(k)
                ==> session_cache_entries(*old(c)).contains_key(k)
                && session_cache_entries(*final(c))[k] == session_cache_entries(*old(c))[k],
{
    c.insert(token.to_owned(), info);
}

/// Relies on `quick_cache::sync::Cache::remove`: removes exactly the
/// entry under the token.
#[verifier::external_body]
pub fn session_cache_remove(c: &mut Cache<String, SessionInfo>, token: &str)
    ensures
        session_cache_capacity(*final(c)) == session_cache_capacity(*old(c)),
        session_cache_entries(*final(c)) == session_cache_entries(*old(c)).remove(token@),
{
    c.remove(token);
}

/// Relies on `quick_cache::sync::Cache::clear`: empties every shard.
#[verifier::external_body]
pub fn session_cache_clear(c: &mut Cache<String, SessionInfo>)
    ensures
        session_cache_capacity(*final(c)) == session_cache_capacity(*old(c)),
        forall|k: Seq<char>| !session_cache_entries(*final(c)).contains_key(k),
{
    c.clear();
}

/// The rendered pages currently held by a page cache, keyed by the logical
/// page name.
pub uninterp spec fn body_cache_entries(c: Cache<&'static str, CachedBody>) -> Map<
    Seq<char>,
    CachedBody,
>;

/// The unit-weight capacity a page cache was built with.
pub uninterp spec fn body_cache_capacity(c: Cache<&'static str, CachedBody>) -> int;

/// Relies on `quick_cache::sync::Cache::new`: a fresh cache holds nothing.
#[verifier::external_body]
pub fn body_cache_new(capacity: usize) -> (r: Cache<&'static str, CachedBody>)
    requires
        capacity >= 1,
    ensures
        forall|k: Seq<char>| !body_cache_entries(r).contains_key(k),
        body_cache_capacity(r) == capacity as int,
{
    Cache::new(capacity)
}

/// Relies on `quick_cache::sync::Cache::get`: returns a clone of the entry
/// under the key, if present.
#[verifier::external_body]
pub fn body_cache_get(c: &Cache<&'static str, CachedBody>, key: &'static str) -> (r: Option<
    CachedBody,
>)
    ensures
        match r {
            Some(b) => body_cache_entries(*c).contains_key(key@) && b == body_cache_entries(
                *c,
            )[key@],
            None => !body_cache_entries(*c).contains_key(key@),
        },
{
    c.get(key)
}

/// Relies on `quick_cache::sync::Cache::insert`, as for the account cache.
#[verifier::external_body]
pub fn body_cache_insert(c: &mut Cache<&'static str, CachedBody>, key: &'static str, body: CachedBody)
    ensures
        body_cache_capacity(*final(c)) == body_cache_capacity(*old(c)),
        body_cache_entries(*old(c)).contains_key(key@) ==> body_cache_entries(
            *final(c),
        ).contains_key(key@),
        body_cache_entries(*final(c)).contains_key(key@) ==> body_cache_entries(*final(c))[key@]
            == body,
        forall|k: Seq<char>|
            k != key@ && #[trigger] body_cache_entries(*final(c)).contains_key(k)
                ==> body_cache_entries(*old(c)).contains_key(k) && body_cache_entries(*final(c))[k]
                == body_cache_entries(*old(c))[k],
{
    c.insert(key, body);
}

/// Relies on `quick_cache::sync::Cache::remove`: removes exactly the
/// entry under the key.
#[verifier::external_body]
pub fn body_cache_remove(c: &mut Cache<&'static str, CachedBody>, key: &'static str)
    ensures
        body_cache_capacity(*final(c)) == body_cache_capacity(*old(c)),
        body_cache_entries(*final(c)) == body_cache_entries(*old(c)).remove(key@),
{
    c.remove(key);
}

/// Relies on `quick_cache::sync::Cache::clear`: empties every shard.
#[verifier::external_body]
pub fn body_cache_clear(c: &mut Cache<&'static str, CachedBody>)
    ensures
        body_cache_capacity(*final(c)) == body_cache_capacity(*old(c)),
        forall|k: Seq<char>| !body_cache_entries(*final(c)).contains_key(k),
{
    c.clear();
}

} // verus!
