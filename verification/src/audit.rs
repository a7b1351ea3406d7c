//! Audit log trail for editor actions.
//!
//! Entry ids are unix timestamps with millisecond precision; the audit
//! data itself is a closed set of operation records.  How an entry is
//! persisted (it is serialised to JSON in the store) is the store
//! layer's concern.

use vstd::prelude::*;

use crate::outside::now_unix_raw;

verus! {

/// Inner data for a file operation.
pub struct FileOperation {
    /// The name of the file.
    pub name: String,
    /// Whether the file failed to be moved over.
    pub failed: bool,
}

impl FileOperation {
    /// Creates an empty placeholder operation.
    pub fn placeholder() -> (r: Self)
        ensures
            r.name@ == Seq::<char>::empty(),
            !r.failed,
    {
        FileOperation { name: String::new(), failed: false }
    }
}

impl Clone for FileOperation {
    fn clone(&self) -> (r: Self)
        ensures
            r == *self,
    {
        FileOperation { name: self.name.clone(), failed: self.failed }
    }
}

/// Audit log data for a file upload operation.
pub struct Upload {
    pub files: Vec<FileOperation>,
    pub api: bool,
}

/// Audit log data for an entry delete operation.
pub struct DeleteImage {
    pub file: FileOperation,
    pub api: bool,
}

/// Audit log data for a file delete operation.
pub struct DeleteFiles {
    pub files: Vec<FileOperation>,
}

impl DeleteFiles {
    pub fn new() -> (r: Self)
        ensures
            r.files@.len() == 0,
    {
        DeleteFiles { files: Vec::new() }
    }

    /// Records one more file operation.
    pub fn add_file(&mut self, name: String, failed: bool)
        ensures
            final(self).files@.len() == old(self).files@.len() + 1,
            final(self).files@.last().name == name,
            final(self).files@.last().failed == failed,
            final(self).files@.drop_last() == old(self).files@,
    {
        self.files.push(FileOperation { name, failed });
    }
}

/// The payload of one audit log entry.
pub enum AuditLogData {
    Upload(Upload),
    DeleteImage(DeleteImage),
    DeleteFiles(DeleteFiles),
}

/// An audit log entry.
pub struct AuditLogEntry {
    /// The ID of the entry: the unix time, in milliseconds, at which it
    /// was created.
    pub id: i64,
    /// The account ID that created this entry.
    pub account_id: Option<i64>,
    /// The actual data for this audit log entry.
    pub data: AuditLogData,
}

/// The current unix time in milliseconds, from the seconds clock; an
/// out-of-range reading clamps.
fn now_entry_id() -> i64 {
    let t = now_unix_raw();
    if t > i64::MAX / 1000 {
        i64::MAX
    } else if t < i64::MIN / 1000 {
        i64::MIN
    } else {
        t * 1000
    }
}

impl AuditLogEntry {
    /// Creates a new entry with no account, stamped with the current
    /// time (of which nothing further can be said).
    pub fn new(data: AuditLogData) -> (r: Self)
        ensures
            r.account_id is None,
            r.data == data,
    {
        AuditLogEntry { id: now_entry_id(), account_id: None, data }
    }

    /// Creates a new entry attributed to an account.
    pub fn full(data: AuditLogData, account_id: i64) -> (r: Self)
        ensures
            r.account_id == Some(account_id),
            r.data == data,
    {
        AuditLogEntry { id: now_entry_id(), account_id: Some(account_id), data }
    }

    /// Attributes the entry to an account.
    pub fn with_account(self, account_id: i64) -> (r: Self)
        ensures
            r.account_id == Some(account_id),
            r.id == self.id,
            r.data == self.data,
    {
        AuditLogEntry { id: self.id, account_id: Some(account_id), data: self.data }
    }

    /// When the entry was created, in unix milliseconds: entry ids are
    /// creation times.
    pub fn created_at(&self) -> (r: i64)
        ensures
            r == self.id,
    {
        self.id
    }
}

} // verus!
