//! Upload and gallery decision logic: filename screening, link building,
//! collision renaming, upload and bulk-delete summaries, and the per-user
//! gallery listing.

use vstd::prelude::*;

use crate::audit::DeleteFiles;
use crate::audit::FileOperation;
use crate::images::index_after_last;
use crate::images::matches_file;
use crate::images::spec_suffix_after_last;
use crate::images::str_eq;
use crate::images::to_image_file;
use crate::images::ImageEntry;
use crate::images::ImageFile;
use crate::utils::get_new_image_id;

verus! {

/// The result of an upload operation.
pub struct UploadResult {
    /// The number of files that did not succeed due to a filesystem error.
    pub errors: usize,
    /// The number of files that were processed.
    pub total: usize,
    /// The number of files that were skipped due to some reason.
    pub skipped: usize,
    /// The links to the newly uploaded files.
    pub links: Vec<String>,
}

impl UploadResult {
    pub fn is_success(&self) -> (r: bool)
        ensures
            r == (self.total > 0 && self.errors == 0 && self.skipped == 0),
    {
        self.total > 0 && self.errors == 0 && self.skipped == 0
    }

    pub fn is_error(&self) -> (r: bool)
        ensures
            r == (self.total == self.errors),
    {
        self.total == self.errors
    }

    pub fn successful(&self) -> (r: usize)
        requires
            self.errors <= self.total,
        ensures
            r == self.total - self.errors,
    {
        self.total - self.errors
    }
}

/// The result of a delete operation.
pub struct DeleteResult {
    /// The file that was deleted.
    pub file: String,
    /// Whether the delete operation failed.
    pub failed: bool,
}

impl DeleteResult {
    pub fn is_success(&self) -> (r: bool)
        ensures
            r == !self.failed,
    {
        !self.failed
    }

    pub fn is_error(&self) -> (r: bool)
        ensures
            r == self.failed,
    {
        self.failed
    }
}

/// The extensions accepted for upload.
pub open spec fn spec_allowed_ext(e: Seq<char>) -> bool {
    ||| e == "apng"@
    ||| e == "png"@
    ||| e == "jpg"@
    ||| e == "jpeg"@
    ||| e == "gif"@
    ||| e == "avif"@
}

fn allowed_ext(e: &str) -> (r: bool)
    ensures
        r == spec_allowed_ext(e@),
{
    str_eq(e, "apng") || str_eq(e, "png") || str_eq(e, "jpg") || str_eq(e, "jpeg") || str_eq(
        e,
        "gif",
    ) || str_eq(e, "avif")
}

/// The filename extension: the part after the last `.`, provided that
/// dot is not the leading character.
pub open spec fn spec_file_ext(m: Seq<char>) -> Seq<char> {
    spec_suffix_after_last(m, '.')
}

pub open spec fn spec_has_ext(m: Seq<char>) -> bool {
    exists|i: int| 1 <= i < m.len() && m[i] == '.'
}

/// The extension of a filename, or `None` when it has none (no dot, or
/// only a leading dot).
pub fn file_extension(name: &str) -> (r: Option<String>)
    ensures
        match r {
            Some(e) => spec_has_ext(name@) && e@ == spec_file_ext(name@),
            None => !spec_has_ext(name@),
        },
{
    let i = index_after_last(name, '.');
    if i >= 2 {
        Some(name.substring_char(i, name.unicode_len()).to_owned())
    } else {
        proof {
            if spec_has_ext(name@) {
                let j = choose|j: int| 1 <= j < name@.len() && name@[j] == '.';
                assert(name@[j] == '.');
            }
        }
        None
    }
}

/// The part of the string before the first occurrence of `sep`; the
/// whole string when `sep` does not occur.
pub open spec fn spec_prefix_before_first(m: Seq<char>, sep: char) -> Seq<char>
    decreases m.len(),
{
    if m.len() == 0 {
        m
    } else if m[0] == sep {
        Seq::empty()
    } else {
        seq![m[0]] + spec_prefix_before_first(m.subrange(1, m.len() as int), sep)
    }
}

proof fn lemma_prefix_before_first(m: Seq<char>, sep: char, i: int)
    requires
        0 <= i <= m.len(),
        forall|j: int| 0 <= j < i ==> m[j] != sep,
        i < m.len() ==> m[i] == sep,
    ensures
        spec_prefix_before_first(m, sep) == m.subrange(0, i),
    decreases m.len(),
{
    if m.len() == 0 {
        assert(spec_prefix_before_first(m, sep) =~= m.subrange(0, i));
    } else if m[0] == sep {
        assert(i == 0);
        assert(spec_prefix_before_first(m, sep) =~= m.subrange(0, i));
    } else {
        assert(i >= 1);
        let rest = m.subrange(1, m.len() as int);
        lemma_prefix_before_first(rest, sep, i - 1);
        assert(rest.subrange(0, i - 1) =~= m.subrange(1, i));
        assert(spec_prefix_before_first(m, sep) =~= m.subrange(0, i));
    }
}

/// The filename stem: the part before the first `.`, the whole name when
/// there is no dot.
pub open spec fn spec_file_stem(m: Seq<char>) -> Seq<char> {
    spec_prefix_before_first(m, '.')
}

/// Extracts the stem of a filename.
pub fn file_stem(name: &str) -> (r: String)
    ensures
        r@ == spec_file_stem(name@),
{
    let len = name.unicode_len();
    let mut i: usize = 0;
    loop
        invariant
            len == name@.len(),
            i <= len,
            forall|j: int| 0 <= j < i ==> name@[j] != '.',
        ensures
            i <= len,
            forall|j: int| 0 <= j < i ==> name@[j] != '.',
            i < len ==> name@[i as int] == '.',
        decreases len - i,
    {
        if i == len {
            break;
        }
        if name.get_char(i) == '.' {
            break;
        }
        i += 1;
    }
    proof {
        lemma_prefix_before_first(name@, '.', i as int);
    }
    name.substring_char(0, i).to_owned()
}

/// A file that passed the upload screening: its stem and its accepted
/// extension.
pub struct ScreenedFile {
    pub name: String,
    pub ext: String,
}

/// Screens an uploaded filename.  The name is first sanitised; it is
/// accepted exactly when the sanitised name carries one of the allowed
/// image extensions.  The stem is everything before the first dot, as
/// the stored image id.
pub fn screen_file(filename: &str) -> (r: Option<ScreenedFile>)
    ensures
        ({
            let clean = crate::outside::sanitised_of(filename@);
            match r {
                Some(f) => spec_has_ext(clean) && spec_allowed_ext(spec_file_ext(clean)) && f.ext@
                    == spec_file_ext(clean) && f.name@ == spec_file_stem(clean),
                None => !(spec_has_ext(clean) && spec_allowed_ext(spec_file_ext(clean))),
            }
        }),
{
    let clean = crate::outside::sanitise_filename(filename);
    match file_extension(clean.as_str()) {
        Some(ext) => {
            if allowed_ext(ext.as_str()) {
                Some(ScreenedFile { name: file_stem(clean.as_str()), ext })
            } else {
                None
            }
        }
        None => None,
    }
}

/// The gallery path of an uploaded file: `/gallery/`, stem, dot,
/// extension.
pub fn gallery_link(name: &str, ext: &str) -> (r: String)
    ensures
        r@ == "/gallery/"@ + name@ + "."@ + ext@,
{
    let mut link = String::from_str("/gallery/");
    link.append(name);
    link.append(".");
    link.append(ext);
    link
}

/// Renames a file whose id collided with an existing row: the name, a
/// dash, and five fresh random ASCII letters.
pub fn collision_rename(name: &str) -> (r: String)
    ensures
        r@.len() == name@.len() + 6,
        r@.subrange(0, name@.len() as int + 1) == name@ + "-"@,
        forall|i: int|
            name@.len() + 1 <= i < r@.len() ==> crate::utils::spec_image_id_char(
                #[trigger] r@[i],
            ),
{
    let mut renamed = name.to_owned();
    renamed.append("-");
    let suffix = get_new_image_id();
    renamed.append(suffix.as_str());
    proof {
        reveal_strlit("-");
        assert(renamed@.subrange(0, name@.len() as int + 1) =~= name@ + "-"@);
        assert forall|i: int|
            name@.len() + 1 <= i < renamed@.len() implies crate::utils::spec_image_id_char(
            #[trigger] renamed@[i],
        ) by {
            assert(renamed@[i] == suffix@[i - name@.len() - 1]);
        }
    }
    renamed
}

/// How many of the operations failed.
pub open spec fn count_failed(s: Seq<FileOperation>) -> int
    decreases s.len(),
{
    if s.len() == 0 {
        0
    } else {
        count_failed(s.drop_last()) + if s.last().failed {
            1int
        } else {
            0int
        }
    }
}

/// Summarises a finished upload: the error count is exactly the number
/// of failed file operations.
pub fn upload_result(ops: &Vec<FileOperation>, skipped: usize, links: Vec<String>) -> (r:
    UploadResult)
    ensures
        r.total == ops@.len(),
        r.errors == count_failed(ops@),
        r.skipped == skipped,
        r.links == links,
{
    let total = ops.len();
    let mut errors: usize = 0;
    let mut i: usize = 0;
    while i < total
        invariant
            total == ops@.len(),
            i <= total,
            errors == count_failed(ops@.take(i as int)),
            errors <= i,
        decreases total - i,
    {
        proof {
            assert(ops@.take(i + 1).drop_last() =~= ops@.take(i as int));
        }
        if ops[i].failed {
            errors += 1;
        }
        i += 1;
    }
    proof {
        assert(ops@.take(total as int) =~= ops@);
    }
    UploadResult { errors, total, skipped, links }
}

/// The response of a bulk file delete.
pub struct BulkFileOperationResponse {
    pub success: usize,
    pub failed: usize,
}

/// How many of the per-file outcomes failed.
pub open spec fn count_errs(s: Seq<(String, bool)>) -> int
    decreases s.len(),
{
    if s.len() == 0 {
        0
    } else {
        count_errs(s.drop_last()) + if s.last().1 {
            1int
        } else {
            0int
        }
    }
}

/// Summarises a bulk delete from the per-file outcomes (name, failed):
/// the counts split the total, and the audit data records every file
/// with its outcome, in order.
pub fn bulk_delete_summary(results: &Vec<(String, bool)>) -> (r: (
    BulkFileOperationResponse,
    DeleteFiles,
))
    ensures
        r.0.success + r.0.failed == results@.len(),
        r.0.failed == count_errs(results@),
        r.1.files@.len() == results@.len(),
        forall|i: int|
            0 <= i < results@.len() ==> (#[trigger] r.1.files@[i]).name@ == results@[i].0@
                && r.1.files@[i].failed == results@[i].1,
{
    let total = results.len();
    let mut failed: usize = 0;
    let mut audit = DeleteFiles::new();
    let mut i: usize = 0;
    while i < total
        invariant
            total == results@.len(),
            i <= total,
            failed <= i,
            failed == count_errs(results@.take(i as int)),
            audit.files@.len() == i,
            forall|j: int|
                0 <= j < i ==> (#[trigger] audit.files@[j]).name@ == results@[j].0@
                    && audit.files@[j].failed == results@[j].1,
        decreases total - i,
    {
        proof {
            assert(results@.take(i + 1).drop_last() =~= results@.take(i as int));
            assert(results@.take(i + 1).drop_last() == results@.take(i as int));
            assert(results@.take(i + 1).last() == results@[i as int]);
        }
        let (name, was_err) = (results[i].0.clone(), results[i].1);
        let ghost prev_files = audit.files@;
        audit.add_file(name, was_err);
        proof {
            assert forall|j: int|
                0 <= j < i + 1 implies (#[trigger] audit.files@[j]).name@ == results@[j].0@
                && audit.files@[j].failed == results@[j].1 by {
                if j < i {
                    assert(audit.files@[j] == audit.files@.drop_last()[j]);
                    assert(audit.files@[j] == prev_files[j]);
                } else {
                    assert(audit.files@[j] == audit.files@.last());
                }
            }
        }
        if was_err {
            failed += 1;
        }
        i += 1;
    }
    proof {
        assert(results@.take(total as int) =~= results@);
    }
    let success = total - failed;
    (BulkFileOperationResponse { success, failed }, audit)
}

pub open spec fn uploaded_by(e: ImageEntry, user_id: i64) -> bool {
    e.uploader_id == Some(user_id)
}

/// The entries of one uploader, in their cache order.
pub open spec fn user_entries(entries: Seq<ImageEntry>, user_id: i64) -> Seq<ImageEntry> {
    entries.filter(|e: ImageEntry| uploaded_by(e, user_id))
}

/// The gallery file views of one user: the file view of each of the
/// user's entries, in order.
pub fn get_file_images(entries: &Vec<ImageEntry>, user_id: i64) -> (files: Vec<ImageFile>)
    ensures
        files@.len() == user_entries(entries@, user_id).len(),
        forall|i: int|
            0 <= i < files@.len() ==> matches_file(
                user_entries(entries@, user_id)[i],
                #[trigger] files@[i],
            ),
{
    let n = entries.len();
    let mut files: Vec<ImageFile> = Vec::new();
    let mut i: usize = 0;
    proof {
        reveal(Seq::filter);
        assert(entries@.take(0).filter(|e: ImageEntry| uploaded_by(e, user_id))
            =~= Seq::<ImageEntry>::empty());
    }
    while i < n
        invariant
            n == entries@.len(),
            i <= n,
            files@.len() == user_entries(entries@.take(i as int), user_id).len(),
            forall|j: int|
                0 <= j < files@.len() ==> matches_file(
                    user_entries(entries@.take(i as int), user_id)[j],
                    #[trigger] files@[j],
                ),
        decreases n - i,
    {
        let matching = match entries[i].uploader_id {
            Some(uid) => uid == user_id,
            None => false,
        };
        if matching {
            files.push(to_image_file(&entries[i]));
        }
        proof {
            reveal(Seq::filter);
            let prefix = entries@.take(i as int);
            let next = entries@.take(i + 1);
            assert(next.drop_last() =~= prefix);
            assert(next.drop_last() == prefix);
            assert(next.last() == entries@[i as int]);
            if matching {
                assert(user_entries(next, user_id) =~= user_entries(prefix, user_id).push(
                    entries@[i as int],
                ));
            } else {
                assert(user_entries(next, user_id) =~= user_entries(prefix, user_id));
            }
        }
        i += 1;
    }
    proof {
        assert(entries@.take(n as int) =~= entries@);
    }
    files
}

/// Normalises a gallery path parameter to a bare image id: everything
/// after the first dot is dropped.
pub fn normalize_image_id(id: &str) -> (r: String)
    ensures
        r@ == spec_file_stem(id@),
{
    file_stem(id)
}

/// The entries of one uploader, as owned copies, in their cache order.
pub fn filter_user_entries(entries: &Vec<ImageEntry>, user_id: i64) -> (r: Vec<ImageEntry>)
    ensures
        r@.len() == user_entries(entries@, user_id).len(),
        forall|i: int|
            0 <= i < r@.len() ==> crate::images::same_entry(
                user_entries(entries@, user_id)[i],
                #[trigger] r@[i],
            ),
{
    let n = entries.len();
    let mut out: Vec<ImageEntry> = Vec::new();
    let mut i: usize = 0;
    proof {
        reveal(Seq::filter);
        assert(entries@.take(0).filter(|e: ImageEntry| uploaded_by(e, user_id))
            =~= Seq::<ImageEntry>::empty());
    }
    while i < n
        invariant
            n == entries@.len(),
            i <= n,
            out@.len() == user_entries(entries@.take(i as int), user_id).len(),
            forall|j: int|
                0 <= j < out@.len() ==> crate::images::same_entry(
                    user_entries(entries@.take(i as int), user_id)[j],
                    #[trigger] out@[j],
                ),
        decreases n - i,
    {
        let matching = match entries[i].uploader_id {
            Some(uid) => uid == user_id,
            None => false,
        };
        if matching {
            out.push(entries[i].clone());
        }
        proof {
            reveal(Seq::filter);
            let prefix = entries@.take(i as int);
            let next = entries@.take(i + 1);
            assert(next.drop_last() =~= prefix);
            assert(next.drop_last() == prefix);
            assert(next.last() == entries@[i as int]);
            if matching {
                assert(user_entries(next, user_id) =~= user_entries(prefix, user_id).push(
                    entries@[i as int],
                ));
            } else {
                assert(user_entries(next, user_id) =~= user_entries(prefix, user_id));
            }
        }
        i += 1;
    }
    proof {
        assert(entries@.take(n as int) =~= entries@);
    }
    out
}

/// Why an image delete request was refused.
#[derive(Debug, Clone, Copy, PartialEq, Eq, Structural)]
pub enum DeleteImageError {
    /// No such image, or the requester does not own it; the two cases
    /// are indistinguishable to the requester.
    NotFound,
}

/// Decides an image delete request: the image must exist and the
/// requester must be its uploader.
pub fn delete_image_decision(img: Option<ImageEntry>, account_id: i64) -> (r: Result<
    ImageEntry,
    DeleteImageError,
>)
    ensures
        match r {
            Ok(e) => img == Some(e) && e.uploader_id == Some(account_id),
            Err(_) => (match img {
                Some(e) => e.uploader_id != Some(account_id),
                None => true,
            }),
        },
{
    match img {
        Some(e) => {
            let owned = match e.uploader_id {
                Some(uid) => uid == account_id,
                None => false,
            };
            if owned {
                Ok(e)
            } else {
                Err(DeleteImageError::NotFound)
            }
        }
        None => Err(DeleteImageError::NotFound),
    }
}

} // verus!
