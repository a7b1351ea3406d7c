//! Core data model: accounts, account flags, sessions and username rules.
//!
//! Timestamps are unix seconds carried as plain integers; the store supplies
//! them when rows are read and the callers supply the current time.

use vstd::prelude::*;

verus! {

/// Bit flags attached to an account.
pub struct AccountFlags(pub u32);

pub const ADMIN_FLAG: u32 = 1;

impl AccountFlags {
    pub open spec fn spec_is_admin(self) -> bool {
        self.0 & ADMIN_FLAG == ADMIN_FLAG
    }

    pub fn new() -> (r: Self)
        ensures
            r.0 == 0,
    {
        AccountFlags(0)
    }

    pub fn has_flag(&self, val: u32) -> (r: bool)
        ensures
            r == (self.0 & val == val),
    {
        (self.0 & val) == val
    }

    pub fn toggle_flag(&mut self, val: u32, toggle: bool)
        ensures
            final(self).0 == if toggle {
                old(self).0 | val
            } else {
                old(self).0 & !val
            },
    {
        if toggle {
            self.0 = self.0 | val;
        } else {
            self.0 = self.0 & !val;
        }
    }

    pub fn is_admin(&self) -> (r: bool)
        ensures
            r == self.spec_is_admin(),
    {
        self.has_flag(ADMIN_FLAG)
    }

    pub fn set_admin(&mut self, toggle: bool)
        ensures
            final(self).spec_is_admin() == toggle,
            final(self).0 == if toggle {
                old(self).0 | ADMIN_FLAG
            } else {
                old(self).0 & !ADMIN_FLAG
            },
    {
        let ghost before = self.0;
        self.toggle_flag(ADMIN_FLAG, toggle);
        proof {
            if toggle {
                assert((before | 1u32) & 1u32 == 1u32) by (bit_vector);
            } else {
                assert((before & !1u32) & 1u32 != 1u32) by (bit_vector);
            }
        }
    }
}

impl Clone for AccountFlags {
    fn clone(&self) -> (r: Self)
        ensures
            r == *self,
    {
        AccountFlags(self.0)
    }
}

impl Default for AccountFlags {
    fn default() -> (r: Self)
        ensures
            r.0 == 0,
    {
        AccountFlags(0)
    }
}

/// A registered account.
///
/// Accounts are immutable once cached: the cache replaces or removes whole
/// records, it never edits one in place.
pub struct Account {
    /// The account ID.
    pub id: i64,
    /// The username of the account.
    pub name: String,
    /// The hashed password.
    pub password: String,
    /// The account flags associated with this account.
    pub flags: AccountFlags,
}

impl Clone for Account {
    fn clone(&self) -> (r: Self)
        ensures
            r == *self,
    {
        Account {
            id: self.id,
            name: self.name.clone(),
            password: self.password.clone(),
            flags: self.flags.clone(),
        }
    }
}

/// A way of reading flags uniformly out of an account or an optional account.
pub trait AccountCheck {
    spec fn spec_flags(&self) -> AccountFlags;

    fn flags(&self) -> (r: AccountFlags)
        ensures
            r == self.spec_flags(),
    ;
}

impl AccountCheck for Account {
    open spec fn spec_flags(&self) -> AccountFlags {
        self.flags
    }

    fn flags(&self) -> (r: AccountFlags) {
        self.flags.clone()
    }
}

impl AccountCheck for Option<Account> {
    open spec fn spec_flags(&self) -> AccountFlags {
        match self {
            Some(a) => a.flags,
            None => AccountFlags(0),
        }
    }

    fn flags(&self) -> (r: AccountFlags) {
        match self {
            Some(a) => a.flags.clone(),
            None => AccountFlags(0),
        }
    }
}

pub open spec fn valid_username_char(c: char) -> bool {
    ('a' <= c && c <= 'z') || ('0' <= c && c <= '9') || c == '.' || c == '_' || c == '-'
}

pub open spec fn spec_is_valid_username(s: Seq<char>) -> bool {
    3 <= s.len() && s.len() <= 32 && forall|i: int|
        0 <= i < s.len() ==> valid_username_char(#[trigger] s[i])
}

/// Usernames are 3 to 32 characters, all lowercase letters, digits,
/// `.`, `_` or `-`.
pub fn is_valid_username(s: &str) -> (r: bool)
    ensures
        r == spec_is_valid_username(s@),
{
    let len = s.unicode_len();
    if len < 3 || len > 32 {
        return false;
    }
    let mut i: usize = 0;
    while i < len
        invariant
            len == s@.len(),
            3 <= len <= 32,
            i <= len,
            forall|j: int| 0 <= j < i ==> valid_username_char(#[trigger] s@[j]),
        decreases len - i,
    {
        let c = s.get_char(i);
        let ok = (c >= 'a' && c <= 'z') || (c >= '0' && c <= '9') || c == '.' || c == '_'
            || c == '-';
        if !ok {
            return false;
        }
        i += 1;
    }
    true
}

/// An authentication session row, as read from the store.
pub struct Session {
    /// The session ID.
    pub id: String,
    /// The account ID.
    pub account_id: i64,
    /// When the session was created, in unix seconds.
    pub created_at: u64,
    /// The description associated with this session.
    pub description: Option<String>,
    /// Whether the session is an API key.
    pub api_key: bool,
}

impl Clone for Session {
    fn clone(&self) -> (r: Self)
        ensures
            r == *self,
    {
        Session {
            id: self.id.clone(),
            account_id: self.account_id,
            created_at: self.created_at,
            description: match &self.description {
                Some(d) => Some(d.clone()),
                None => None,
            },
            api_key: self.api_key,
        }
    }
}

impl Session {
    /// A human readable label used for the user.
    pub fn label(&self) -> (r: &str)
        ensures
            r@ == match self.description {
                Some(d) => d@,
                None => "No description"@,
            },
    {
        match &self.description {
            Some(d) => d.as_str(),
            None => "No description",
        }
    }
}

} // verus!
