use klappstuhl_me::models::{Account, AccountFlags, Session};
use klappstuhl_me::state::{
    AccountStep, AppState, SessionAccountAdmit, SessionAccountStep, SessionAdmit, SessionInfo,
    SessionStep, MAX_SESSION_AGE,
};

fn account(id: i64, name: &str) -> Account {
    Account {
        id,
        name: name.to_string(),
        password: String::from("hash"),
        flags: AccountFlags::new(),
    }
}

fn session_row(id: &str, account_id: i64, created_at: u64, api_key: bool) -> Session {
    Session {
        id: id.to_string(),
        account_id,
        created_at,
        description: None,
        api_key,
    }
}

#[test]
fn session_miss_with_no_row_caches_nothing() {
    // A token with no backing store row: the validator reports a miss,
    // the admit returns not-found, and nothing is cached, so the next
    // lookup triggers a fresh populate again.
    let mut state = AppState::new();
    let step = state.is_session_valid("ghost-token", 1000);
    assert!(matches!(step, SessionStep::Query));
    let admitted = state.admit_session("ghost-token", None, 1000);
    assert!(matches!(admitted, SessionAdmit::NotFound));
    let again = state.is_session_valid("ghost-token", 1001);
    assert!(matches!(again, SessionStep::Query));
}

#[test]
fn session_dogpile_single_populate() {
    // Of concurrent lookups that miss on one token, only the first is
    // told to populate; the others wait until the answer is admitted.
    let mut state = AppState::new();
    assert!(matches!(state.is_session_valid("tok", 10), SessionStep::Query));
    assert!(matches!(state.is_session_valid("tok", 11), SessionStep::Wait));
    assert!(matches!(state.is_session_valid("tok", 12), SessionStep::Wait));
    let info = SessionInfo { id: 7, api_key: false, created_at: 5 };
    assert!(matches!(state.admit_session("tok", Some(info), 13), SessionAdmit::Valid(_)));
    match state.is_session_valid("tok", 14) {
        SessionStep::Valid(cached) => assert_eq!(cached.id, 7),
        _ => panic!("the admitted session should now be a cache hit"),
    }
}

#[test]
fn session_expiry_policy() {
    // A browser session created MAX_SESSION_AGE + 1 seconds ago is
    // invalid; an API-key session with the identical creation time is
    // valid.
    let now = MAX_SESSION_AGE + 1000;
    let created = now - MAX_SESSION_AGE - 1;
    let browser = SessionInfo { id: 1, api_key: false, created_at: created };
    let api = SessionInfo { id: 1, api_key: true, created_at: created };
    assert!(browser.is_expired(now));
    assert!(!api.is_expired(now));

    let mut state = AppState::new();
    assert!(matches!(state.is_session_valid("browser", now), SessionStep::Query));
    assert!(matches!(
        state.admit_session("browser", Some(browser), now),
        SessionAdmit::ExpiredDelete
    ));
    assert!(matches!(state.is_session_valid("api", now), SessionStep::Query));
    assert!(matches!(state.admit_session("api", Some(api), now), SessionAdmit::Valid(_)));
}

#[test]
fn session_expired_on_hit_is_dropped() {
    let mut state = AppState::new();
    let info = SessionInfo { id: 3, api_key: false, created_at: 0 };
    assert!(matches!(state.is_session_valid("old", 10), SessionStep::Query));
    assert!(matches!(state.admit_session("old", Some(info), 10), SessionAdmit::Valid(_)));
    // Time passes beyond the session age: the cached entry expires.
    let later = MAX_SESSION_AGE + 1;
    assert!(matches!(state.is_session_valid("old", later), SessionStep::Expired));
    // The entry is gone; the next lookup is a fresh populate.
    assert!(matches!(state.is_session_valid("old", later), SessionStep::Query));
}

#[test]
fn session_clear_forces_fresh_populate() {
    let mut state = AppState::new();
    let info = SessionInfo { id: 5, api_key: true, created_at: 0 };
    assert!(matches!(state.is_session_valid("keep", 1), SessionStep::Query));
    assert!(matches!(state.admit_session("keep", Some(info), 1), SessionAdmit::Valid(_)));
    state.clear_session_cache();
    assert!(matches!(state.is_session_valid("keep", 2), SessionStep::Query));
}

#[test]
fn session_invalidate_single() {
    let mut state = AppState::new();
    let info = SessionInfo { id: 5, api_key: true, created_at: 0 };
    assert!(matches!(state.is_session_valid("gone", 1), SessionStep::Query));
    assert!(matches!(state.admit_session("gone", Some(info), 1), SessionAdmit::Valid(_)));
    state.invalidate_session("gone");
    assert!(matches!(state.is_session_valid("gone", 2), SessionStep::Query));
}

#[test]
fn remove_sessions_evicts_reported_rows() {
    let mut state = AppState::new();
    for (token, id) in [("a", 1), ("b", 2), ("c", 3)] {
        let info = SessionInfo { id, api_key: true, created_at: 0 };
        assert!(matches!(state.is_session_valid(token, 1), SessionStep::Query));
        assert!(matches!(state.admit_session(token, Some(info), 1), SessionAdmit::Valid(_)));
    }
    let deleted = vec![session_row("a", 1, 0, true), session_row("c", 3, 0, true)];
    state.remove_sessions(&deleted);
    assert!(matches!(state.is_session_valid("a", 2), SessionStep::Query));
    assert!(matches!(state.is_session_valid("c", 2), SessionStep::Query));
    assert!(matches!(state.is_session_valid("b", 2), SessionStep::Valid(_)));
}

#[test]
fn account_populate_and_hit() {
    let mut state = AppState::new();
    assert!(matches!(state.get_account(7), AccountStep::Query));
    assert!(matches!(state.get_account(7), AccountStep::Wait));
    let fetched = state.admit_account(7, Some(account(7, "holder")));
    assert_eq!(fetched.map(|a| a.name), Some(String::from("holder")));
    match state.get_account(7) {
        AccountStep::Hit(a) => assert_eq!(a.id, 7),
        _ => panic!("the admitted account should now be a cache hit"),
    }
}

#[test]
fn account_negative_lookup_not_cached() {
    let mut state = AppState::new();
    assert!(matches!(state.get_account(9), AccountStep::Query));
    assert!(state.admit_account(9, None).is_none());
    assert!(matches!(state.get_account(9), AccountStep::Query));
}

#[test]
fn account_clear_forces_fresh_populate() {
    // After invalidate-all on the account cache, the next lookup for any
    // previously cached id is a fresh populate.
    let mut state = AppState::new();
    assert!(matches!(state.get_account(1), AccountStep::Query));
    state.admit_account(1, Some(account(1, "one")));
    assert!(matches!(state.get_account(1), AccountStep::Hit(_)));
    state.clear_account_cache();
    assert!(matches!(state.get_account(1), AccountStep::Query));
}

#[test]
fn account_invalidate_single() {
    let mut state = AppState::new();
    assert!(matches!(state.get_account(1), AccountStep::Query));
    state.admit_account(1, Some(account(1, "one")));
    state.invalidate_account_cache(1);
    assert!(matches!(state.get_account(1), AccountStep::Query));
}

#[test]
fn joined_session_account_populates_both() {
    let mut state = AppState::new();
    assert!(matches!(state.is_session_valid("joined", 50), SessionStep::Query));
    let info = SessionInfo { id: 4, api_key: false, created_at: 40 };
    let admitted = state.admit_session_account("joined", Some((account(4, "four"), info)), 50);
    match admitted {
        SessionAccountAdmit::Valid(acc) => assert_eq!(acc.id, 4),
        _ => panic!("a fresh pair should be admitted"),
    }
    assert!(matches!(state.is_session_valid("joined", 51), SessionStep::Valid(_)));
    assert!(matches!(state.get_account(4), AccountStep::Hit(_)));
}

#[test]
fn joined_session_account_expired_pair() {
    let mut state = AppState::new();
    let now = MAX_SESSION_AGE + 100;
    assert!(matches!(state.is_session_valid("stale", now), SessionStep::Query));
    let info = SessionInfo { id: 4, api_key: false, created_at: 0 };
    let admitted = state.admit_session_account("stale", Some((account(4, "four"), info)), now);
    assert!(matches!(admitted, SessionAccountAdmit::ExpiredDelete));
    assert!(matches!(state.is_session_valid("stale", now + 1), SessionStep::Query));
    assert!(matches!(state.get_account(4), AccountStep::Query));
}

#[test]
fn session_account_lookup_steps() {
    let mut state = AppState::new();
    // Cold caches: the joined query is requested.
    assert!(matches!(state.get_session_account("tok", 10), SessionAccountStep::QueryJoined));
    // Another caller waits for it.
    assert!(matches!(state.get_session_account("tok", 10), SessionAccountStep::Wait));
    let info = SessionInfo { id: 2, api_key: false, created_at: 1 };
    state.admit_session_account("tok", Some((account(2, "two"), info)), 10);
    // Warm session cache: the caller goes on to the account directory.
    match state.get_session_account("tok", 11) {
        SessionAccountStep::HasSession(i) => assert_eq!(i.id, 2),
        _ => panic!("the admitted session should be a hit"),
    }
}

#[test]
fn session_account_missing_account_drops_session() {
    let mut state = AppState::new();
    assert!(matches!(state.get_session_account("tok", 10), SessionAccountStep::QueryJoined));
    let info = SessionInfo { id: 9, api_key: false, created_at: 1 };
    state.admit_session_account("tok", Some((account(9, "nine"), info)), 10);
    // The session is a hit, but the account directory later answers None:
    // the session cache entry is dropped with it.
    match state.get_session_account("tok", 11) {
        SessionAccountStep::HasSession(i) => assert_eq!(i.id, 9),
        _ => panic!("the admitted session should be a hit"),
    }
    assert!(state.session_account_result("tok", None).is_none());
    assert!(matches!(state.get_session_account("tok", 12), SessionAccountStep::QueryJoined));
    // A found account passes through and keeps the session cached.
    state.admit_session_account("tok", Some((account(9, "nine"), info)), 12);
    let through = state.session_account_result("tok", Some(account(9, "nine")));
    assert_eq!(through.map(|a| a.id), Some(9));
    assert!(matches!(state.is_session_valid("tok", 13), SessionStep::Valid(_)));
}

#[test]
fn session_info_from_row() {
    let row = session_row("token", 11, 77, true);
    let info = SessionInfo::from(row);
    assert_eq!(info.id, 11);
    assert!(info.api_key);
    assert_eq!(info.created_at, 77);
}
