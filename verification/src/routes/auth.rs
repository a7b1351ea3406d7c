//! Authentication decision logic: parsing the requested action and
//! validating credentials before any store or hashing work is done.

use vstd::prelude::*;

use crate::images::str_eq;
use crate::models::spec_is_valid_username;
use crate::models::is_valid_username;
use crate::models::Session;
use crate::utils::spec_utf8_len;
use crate::utils::utf8_len;

verus! {

/// Which form action the client requested.
#[derive(Debug, Clone, Copy, PartialEq, Eq, Structural)]
pub enum AuthenticationAction {
    Login,
    Register,
}

/// Parses an authentication action field; only the two exact strings are
/// accepted.
pub fn parse_authentication_action(s: &str) -> (r: Option<AuthenticationAction>)
    ensures
        r == Some(AuthenticationAction::Login) <==> s@ == "login"@,
        r == Some(AuthenticationAction::Register) <==> s@ == "register"@,
        r is None <==> s@ != "login"@ && s@ != "register"@,
    {
    proof {
        reveal_strlit("login");
        reveal_strlit("register");
        assert("login"@.len() == 5);
        assert("register"@.len() == 8);
    }
    if str_eq(s, "login") {
        Some(AuthenticationAction::Login)
    } else if str_eq(s, "register") {
        Some(AuthenticationAction::Register)
    } else {
        None
    }
}

/// Why a set of credentials was rejected before touching the store.
#[derive(Debug, Clone, Copy, PartialEq, Eq, Structural)]
pub enum CredentialError {
    /// The username breaks the username rules.
    InvalidUsername,
    /// The password is shorter than 8 or longer than 128 bytes.
    BadPasswordLength,
}

/// Checks the username and the password length; `Ok` exactly when the
/// username is valid and the password is 8 to 128 bytes long.  The
/// username is checked first.
pub fn validate_credentials(username: &str, password: &str) -> (r: Result<(), CredentialError>)
    ensures
        r is Ok <==> spec_is_valid_username(username@) && 8 <= spec_utf8_len(password@) <= 128,
        r == Err::<(), CredentialError>(CredentialError::InvalidUsername) <==> !spec_is_valid_username(username@),
        r == Err::<(), CredentialError>(CredentialError::BadPasswordLength) <==> spec_is_valid_username(username@)
            && !(8 <= spec_utf8_len(password@) <= 128),
{
    if !is_valid_username(username) {
        return Err(CredentialError::InvalidUsername);
    }
    let len = utf8_len(password);
    if len < 8 || len > 128 {
        return Err(CredentialError::BadPasswordLength);
    }
    Ok(())
}

/// Why a registration was refused before touching the store.
#[derive(Debug, Clone, Copy, PartialEq, Eq, Structural)]
pub enum RegisterError {
    /// The client already holds a session token.
    AlreadyRegistered,
    /// The credentials were rejected.
    BadCredentials(CredentialError),
}

/// Pre-checks a registration: refused when the client is already logged
/// in or the credentials fail validation.
pub fn register_precheck(has_token: bool, username: &str, password: &str) -> (r: Result<
    (),
    RegisterError,
>)
    ensures
        r is Ok <==> !has_token && spec_is_valid_username(username@) && 8 <= spec_utf8_len(
            password@,
        ) <= 128,
        r == Err::<(), RegisterError>(RegisterError::AlreadyRegistered) <==> has_token,
{
    if has_token {
        return Err(RegisterError::AlreadyRegistered);
    }
    match validate_credentials(username, password) {
        Ok(_) => Ok(()),
        Err(e) => Err(RegisterError::BadCredentials(e)),
    }
}

/// The outcome of an authentication attempt, once the store lookup and
/// the password check are done.
#[derive(Debug, Clone, Copy, PartialEq, Eq, Structural)]
pub enum AuthDecision {
    /// The account exists and the password matched: issue a session.
    Success,
    /// Anything else: the same error regardless of which check failed.
    IncorrectLogin,
}

/// Decides an authentication attempt.  The password hash is compared by
/// the caller even when no account was found (against a fixed default
/// hash) so that the timing does not reveal whether the name exists;
/// success still requires both.
pub fn authenticate_decision(account_found: bool, password_ok: bool) -> (r: AuthDecision)
    ensures
        r == AuthDecision::Success <==> account_found && password_ok,
{
    if account_found && password_ok {
        AuthDecision::Success
    } else {
        AuthDecision::IncorrectLogin
    }
}

/// Whether a password has an acceptable length (8 to 128 bytes).
pub fn password_length_ok(password: &str) -> (r: bool)
    ensures
        r == (8 <= spec_utf8_len(password@) <= 128),
{
    let len = utf8_len(password);
    8 <= len && len <= 128
}

/// The account page's session list, split up: the session presented by
/// the current request, the account's API key, and the rest.
pub struct PartitionedSessions {
    /// The session whose id is the current token, if present.
    pub current: Option<Session>,
    /// The id of the first API-key session among the others.
    pub api_key: Option<String>,
    /// Every other session.
    pub rest: Vec<Session>,
}

/// Splits the session rows for the account page: the first row matching
/// the current token is set aside, then the first API-key row; the rest
/// keep their order.  Every row lands in exactly one of the three
/// places.
pub fn partition_sessions(sessions: Vec<Session>, session_id: &str) -> (r: PartitionedSessions)
    ensures
        match r.current {
            Some(s) => s.id@ == session_id@ && sessions@.contains(s),
            None => true,
        },
        match r.api_key {
            Some(k) => exists|x: int|
                0 <= x < sessions@.len() && (#[trigger] sessions@[x]).api_key && sessions@[x].id
                    == k,
            None => true,
        },
        r.rest@.len() + (if r.current is Some {
            1int
        } else {
            0int
        }) + (if r.api_key is Some {
            1int
        } else {
            0int
        }) == sessions@.len(),
        forall|j: int| 0 <= j < r.rest@.len() ==> sessions@.contains(#[trigger] r.rest@[j]),
{
    let mut current: Option<Session> = None;
    let mut api_key: Option<String> = None;
    let mut rest: Vec<Session> = Vec::new();
    let n = sessions.len();
    let mut i: usize = 0;
    while i < n
        invariant
            n == sessions@.len(),
            i <= n,
            match current {
                Some(s) => s.id@ == session_id@ && sessions@.contains(s),
                None => true,
            },
            match api_key {
                Some(k) => exists|x: int|
                    0 <= x < i && (#[trigger] sessions@[x]).api_key && sessions@[x].id == k,
                None => true,
            },
            rest@.len() + (if current is Some {
                1int
            } else {
                0int
            }) + (if api_key is Some {
                1int
            } else {
                0int
            }) == i,
            forall|j: int| 0 <= j < rest@.len() ==> sessions@.contains(#[trigger] rest@[j]),
        decreases n - i,
    {
        let s = sessions[i].clone();
        let ghost s_spec = s;
        proof {
            assert(s_spec == sessions@[i as int]);
            assert(sessions@.contains(s_spec));
        }
        let ghost prev_rest = rest@;
        if current.is_none() && str_eq(s.id.as_str(), session_id) {
            current = Some(s);
        } else if api_key.is_none() && s.api_key {
            proof {
                assert((#[trigger] sessions@[i as int]).api_key && sessions@[i as int].id
                    == s_spec.id);
            }
            api_key = Some(s.id);
        } else {
            rest.push(s);
            proof {
                assert forall|j: int|
                    0 <= j < rest@.len() implies sessions@.contains(#[trigger] rest@[j]) by {
                    if j < prev_rest.len() {
                        assert(rest@[j] == prev_rest[j]);
                    } else {
                        assert(rest@[j] == s_spec);
                    }
                }
            }
        }
        i += 1;
    }
    PartitionedSessions { current, api_key, rest }
}

/// Sorts sessions by creation time, newest first, keeping exactly the
/// same sessions (as a multiset).
pub fn sort_sessions_desc(sessions: Vec<Session>) -> (r: Vec<Session>)
    ensures
        r@.to_multiset() == sessions@.to_multiset(),
        forall|i: int, j: int| 0 <= i < j < r@.len() ==> r@[i].created_at >= r@[j].created_at,
{
    let mut out: Vec<Session> = Vec::new();
    let mut rest = sessions;
    proof {
        out@.to_multiset_ensures();
        vstd::multiset::lemma_multiset_empty_len(out@.to_multiset());
        assert(out@.to_multiset().add(rest@.to_multiset()) =~= sessions@.to_multiset());
    }
    while rest.len() > 0
        invariant
            out@.to_multiset().add(rest@.to_multiset()) == sessions@.to_multiset(),
            forall|i: int, j: int| 0 <= i < j < out@.len() ==> out@[i].created_at >= out@[j].created_at,
            forall|i: int, j: int|
                0 <= i < out@.len() && 0 <= j < rest@.len() ==> out@[i].created_at
                    >= rest@[j].created_at,
        decreases rest@.len(),
    {
        proof {
            rest@.to_multiset_ensures();
        }
        let mut best: usize = 0;
        let mut k: usize = 1;
        while k < rest.len()
            invariant
                rest@.len() > 0,
                best < rest@.len(),
                k <= rest@.len(),
                forall|j: int| 0 <= j < k ==> rest@[best as int].created_at >= rest@[j].created_at,
            decreases rest@.len() - k,
        {
            if rest[k].created_at > rest[best].created_at {
                best = k;
            }
            k += 1;
        }
        let ghost prev_rest = rest@;
        let ghost prev_out = out@;
        let picked = rest.remove(best);
        let ghost picked_spec = picked;
        out.push(picked);
        proof {
            prev_rest.to_multiset_ensures();
            prev_out.to_multiset_ensures();
            assert(rest@.to_multiset() =~= prev_rest.to_multiset().remove(picked_spec));
            assert(out@.to_multiset() =~= prev_out.to_multiset().insert(picked_spec));
            assert(prev_rest.to_multiset().contains(picked_spec));
            assert(out@.to_multiset().add(rest@.to_multiset()) =~= sessions@.to_multiset());
            assert forall|i2: int, j: int|
                0 <= i2 < out@.len() && 0 <= j < rest@.len() implies out@[i2].created_at
                >= rest@[j].created_at by {
                let jj = if j < best {
                    j
                } else {
                    j + 1
                };
                assert(rest@[j] == prev_rest[jj]);
                if i2 < prev_out.len() {
                    assert(out@[i2] == prev_out[i2]);
                } else {
                    assert(out@[i2] == picked_spec);
                    assert(picked_spec.created_at >= prev_rest[jj].created_at);
                }
            }
            assert forall|i2: int, j: int|
                0 <= i2 < j < out@.len() implies out@[i2].created_at >= out@[j].created_at by {
                if j == out@.len() - 1 {
                    assert(out@[j] == picked_spec);
                    assert(prev_out[i2].created_at >= prev_rest[best as int].created_at);
                }
            }
        }
    }
    proof {
        rest@.to_multiset_ensures();
        vstd::multiset::lemma_multiset_empty_len(rest@.to_multiset());
        assert(out@.to_multiset().add(rest@.to_multiset()) =~= out@.to_multiset());
    }
    out
}

} // verus!
