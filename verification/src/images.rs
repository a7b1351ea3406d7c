//! Image records and the file views derived from them.
//!
//! Every `ImageFile` is derived deterministically from an `ImageEntry`:
//! the filename is the entry id, a dot, and the extension taken from the
//! mime type (the part after its last `/`); the URL prefixes the filename
//! with `/gallery/`.

use vstd::prelude::*;

verus! {

/// An entry that represents a saved image.
pub struct ImageEntry {
    /// The ID of the image.
    pub id: String,
    /// The mime type of the image.
    pub mimetype: String,
    /// The representable image bytes.
    pub image_data: Vec<u8>,
    /// When the image was uploaded, in unix seconds.
    pub uploaded_at: u64,
    /// The id of the uploader.
    pub uploader_id: Option<i64>,
}

/// Represents an image file as shown in the gallery.
pub struct ImageFile {
    /// The file's download URL.
    pub url: String,
    /// The file name: image id, dot, extension.
    pub id: String,
    /// The mime type of the image.
    pub mimetype: String,
    /// The representable image bytes.
    pub image_data: Vec<u8>,
    /// The file's size in bytes.
    pub size: u64,
    /// When the image was uploaded, in unix seconds.
    pub uploaded_at: u64,
    /// The id of the uploader.
    pub uploader_id: Option<i64>,
}

/// Copies a byte vector; the copy has the same contents.
pub fn clone_bytes(v: &Vec<u8>) -> (r: Vec<u8>)
    ensures
        r@ == v@,
{
    let r = v.clone();
    assert(r@ =~= v@);
    r
}

/// Character-by-character string equality.
pub fn str_eq(a: &str, b: &str) -> (r: bool)
    ensures
        r == (a@ == b@),
{
    let len = a.unicode_len();
    if len != b.unicode_len() {
        return false;
    }
    let mut i: usize = 0;
    while i < len
        invariant
            len == a@.len(),
            len == b@.len(),
            i <= len,
            forall|j: int| 0 <= j < i ==> a@[j] == b@[j],
        decreases len - i,
    {
        if a.get_char(i) != b.get_char(i) {
            return false;
        }
        i += 1;
    }
    proof {
        assert(a@ =~= b@);
    }
    true
}

/// The part of the string after the last occurrence of `sep`; the whole
/// string when `sep` does not occur.
pub open spec fn spec_suffix_after_last(m: Seq<char>, sep: char) -> Seq<char>
    decreases m.len(),
{
    if m.len() == 0 {
        m
    } else if m[m.len() - 1] == sep {
        Seq::empty()
    } else {
        spec_suffix_after_last(m.take(m.len() - 1), sep).push(m[m.len() - 1])
    }
}

pub proof fn lemma_suffix_after_last(m: Seq<char>, sep: char, i: int)
    requires
        0 <= i <= m.len(),
        forall|j: int| i <= j < m.len() ==> m[j] != sep,
        i > 0 ==> m[i - 1] == sep,
    ensures
        spec_suffix_after_last(m, sep) == m.subrange(i, m.len() as int),
    decreases m.len(),
{
    if m.len() == 0 {
        assert(spec_suffix_after_last(m, sep) =~= m.subrange(i, m.len() as int));
    } else if m[m.len() - 1] == sep {
        assert(i == m.len());
        assert(spec_suffix_after_last(m, sep) =~= m.subrange(i, m.len() as int));
    } else {
        assert(i < m.len());
        let shorter = m.take(m.len() - 1);
        lemma_suffix_after_last(shorter, sep, i);
        assert(spec_suffix_after_last(m, sep) =~= m.subrange(i, m.len() as int));
    }
}

/// The index just after the last occurrence of `sep`, or zero when `sep`
/// does not occur.
pub fn index_after_last(m: &str, sep: char) -> (r: usize)
    ensures
        r <= m@.len(),
        forall|j: int| r <= j < m@.len() ==> m@[j] != sep,
        r > 0 ==> m@[r - 1] == sep,
        spec_suffix_after_last(m@, sep) == m@.subrange(r as int, m@.len() as int),
{
    let len = m.unicode_len();
    let mut i: usize = len;
    loop
        invariant
            len == m@.len(),
            i <= len,
            forall|j: int| i <= j < len ==> m@[j] != sep,
        ensures
            i <= len,
            forall|j: int| i <= j < len ==> m@[j] != sep,
            i > 0 ==> m@[i - 1] == sep,
        decreases i,
    {
        if i == 0 {
            break;
        }
        if m.get_char(i - 1) == sep {
            break;
        }
        i -= 1;
    }
    proof {
        lemma_suffix_after_last(m@, sep, i as int);
    }
    i
}

/// The part of a mime type after its last `/`; the whole string when it
/// has no `/`.
pub open spec fn spec_ext(m: Seq<char>) -> Seq<char> {
    spec_suffix_after_last(m, '/')
}

/// Extracts the extension out of a mime type.
pub fn extension_of(m: &str) -> (r: String)
    ensures
        r@ == spec_ext(m@),
{
    let i = index_after_last(m, '/');
    m.substring_char(i, m.unicode_len()).to_owned()
}

impl ImageEntry {
    /// The filename extension of this image, taken from its mime type.
    pub fn ext(&self) -> (r: String)
        ensures
            r@ == spec_ext(self.mimetype@),
    {
        extension_of(self.mimetype.as_str())
    }

    /// Returns a temporary entry suitable for editing: the given id with
    /// empty data, stamped with the given upload time.
    pub fn temporary(id: String, uploaded_at: u64) -> (r: Self)
        ensures
            r.id == id,
            r.mimetype@ == Seq::<char>::empty(),
            r.image_data@ == Seq::<u8>::empty(),
            r.uploaded_at == uploaded_at,
            r.uploader_id is None,
    {
        ImageEntry {
            id,
            mimetype: String::new(),
            image_data: Vec::new(),
            uploaded_at,
            uploader_id: None,
        }
    }
}

/// The two entries carry the same record (fields equal, byte contents
/// compared by value).
pub open spec fn same_entry(a: ImageEntry, b: ImageEntry) -> bool {
    &&& a.id@ == b.id@
    &&& a.mimetype@ == b.mimetype@
    &&& a.image_data@ == b.image_data@
    &&& a.uploaded_at == b.uploaded_at
    &&& a.uploader_id == b.uploader_id
}

impl Clone for ImageEntry {
    fn clone(&self) -> (r: Self)
        ensures
            same_entry(*self, r),
            r.id == self.id,
            r.mimetype == self.mimetype,
    {
        ImageEntry {
            id: self.id.clone(),
            mimetype: self.mimetype.clone(),
            image_data: clone_bytes(&self.image_data),
            uploaded_at: self.uploaded_at,
            uploader_id: self.uploader_id,
        }
    }
}

impl Clone for ImageFile {
    fn clone(&self) -> (r: Self)
        ensures
            r.url == self.url,
            r.id == self.id,
            r.mimetype == self.mimetype,
            r.image_data@ == self.image_data@,
            r.size == self.size,
            r.uploaded_at == self.uploaded_at,
            r.uploader_id == self.uploader_id,
    {
        ImageFile {
            url: self.url.clone(),
            id: self.id.clone(),
            mimetype: self.mimetype.clone(),
            image_data: clone_bytes(&self.image_data),
            size: self.size,
            uploaded_at: self.uploaded_at,
            uploader_id: self.uploader_id,
        }
    }
}

/// The filename derived from an entry: id, dot, extension.
pub open spec fn spec_filename(e: ImageEntry) -> Seq<char> {
    e.id@ + "."@ + spec_ext(e.mimetype@)
}

/// The URL derived from an entry.
pub open spec fn spec_url(e: ImageEntry) -> Seq<char> {
    "/gallery/"@ + spec_filename(e)
}

/// `f` is exactly the file view derived from the entry `e`.
pub open spec fn matches_file(e: ImageEntry, f: ImageFile) -> bool {
    &&& f.url@ == spec_url(e)
    &&& f.id@ == spec_filename(e)
    &&& f.mimetype@ == e.mimetype@
    &&& f.image_data@ == e.image_data@
    &&& f.size == e.image_data@.len()
    &&& f.uploaded_at == e.uploaded_at
    &&& f.uploader_id == e.uploader_id
}

/// Derives the gallery file view of one image entry.
pub fn to_image_file(e: &ImageEntry) -> (f: ImageFile)
    ensures
        matches_file(*e, f),
{
    let ext = e.ext();
    let mut filename = e.id.clone();
    filename.append(".");
    filename.append(ext.as_str());
    let mut url = String::from_str("/gallery/");
    url.append(filename.as_str());
    let data = clone_bytes(&e.image_data);
    let size = data.len() as u64;
    ImageFile {
        url,
        id: filename,
        mimetype: e.mimetype.clone(),
        image_data: data,
        size,
        uploaded_at: e.uploaded_at,
        uploader_id: e.uploader_id,
    }
}

/// Derives the full file-view list of an entry list, in the same order.
pub fn derive_files(entries: &Vec<ImageEntry>) -> (files: Vec<ImageFile>)
    ensures
        files@.len() == entries@.len(),
        forall|i: int| 0 <= i < entries@.len() ==> matches_file(entries@[i], #[trigger] files@[i]),
{
    let mut files: Vec<ImageFile> = Vec::new();
    let n = entries.len();
    let mut i: usize = 0;
    while i < n
        invariant
            n == entries@.len(),
            i <= n,
            files@.len() == i,
            forall|j: int| 0 <= j < i ==> matches_file(entries@[j], #[trigger] files@[j]),
        decreases n - i,
    {
        files.push(to_image_file(&entries[i]));
        i += 1;
    }
    files
}

/// Lexicographic order on strings by code point, which for UTF-8 text
/// coincides with the store's byte order.
pub open spec fn spec_str_le(a: Seq<char>, b: Seq<char>) -> bool
    decreases a.len(),
{
    if a.len() == 0 {
        true
    } else if b.len() == 0 {
        false
    } else if a[0] != b[0] {
        (a[0] as u32) < (b[0] as u32)
    } else {
        spec_str_le(a.drop_first(), b.drop_first())
    }
}

/// The entry list is sorted ascending by id, as the store hands it out.
pub open spec fn entries_sorted(entries: Seq<ImageEntry>) -> bool {
    forall|i: int, j: int|
        0 <= i < j < entries.len() ==> spec_str_le(
            (#[trigger] entries[i]).id@,
            (#[trigger] entries[j]).id@,
        )
}

/// Image bytes prepared for embedding into a page.
pub struct ResolvedImageData {
    /// The image bytes, base64 encoded.
    pub bytes: String,
    /// The image's content type.
    pub content_type: String,
}

/// Encodes an entry's bytes for embedding into a page.
pub fn resolved_image_data(e: &ImageEntry) -> (r: ResolvedImageData)
    ensures
        r.bytes@ == crate::outside::base64_of(e.image_data@),
        r.content_type@ == e.mimetype@,
{
    ResolvedImageData {
        bytes: crate::outside::base64_encode(e.image_data.as_slice()),
        content_type: e.mimetype.clone(),
    }
}

/// Finds the first cached entry with the given id, if any.
pub fn find_image<'a>(entries: &'a Vec<ImageEntry>, id: &str) -> (r: Option<&'a ImageEntry>)
    ensures
        match r {
            Some(e) => entries@.contains(*e) && e.id@ == id@,
            None => forall|i: int| 0 <= i < entries@.len() ==> (#[trigger] entries@[i]).id@ != id@,
        },
{
    let n = entries.len();
    let mut i: usize = 0;
    while i < n
        invariant
            n == entries@.len(),
            i <= n,
            forall|j: int| 0 <= j < i ==> (#[trigger] entries@[j]).id@ != id@,
        decreases n - i,
    {
        if str_eq(entries[i].id.as_str(), id) {
            return Some(&entries[i]);
        }
        i += 1;
    }
    None
}

} // verus!
