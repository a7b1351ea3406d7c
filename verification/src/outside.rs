//! Trusted wrappers around single outside calls: the clock, base64
//! encoding, brotli compression, random id generation, filename
//! sanitising and mime detection.
//!
//! Where a call's result is a function of its arguments alone it is given
//! a name (`base64_of`, `compressed_form`, `sanitised_of`) that the
//! callers' contracts speak of; of a random or machine-dependent result
//! only what holds of every outcome is stated.

use vstd::prelude::*;

use base64::Engine;
use std::io::Write;

verus! {

/// What base64 standard (padded) encoding returns for a byte string.
pub uninterp spec fn base64_of(b: Seq<u8>) -> Seq<char>;

/// Relies on base64's `STANDARD` engine: the encoding is a function of
/// the bytes alone; with padding it emits four characters for every
/// started group of three bytes.
#[verifier::external_body]
pub fn base64_encode(b: &[u8]) -> (r: String)
    ensures
        r@ == base64_of(b@),
        r@.len() == 4 * ((b@.len() + 2) / 3),
{
    base64::engine::general_purpose::STANDARD.encode(b)
}

/// What the brotli encoder produces for a byte string, at buffer size
/// 4096, quality 4 and window size 22.
pub uninterp spec fn compressed_form(b: Seq<u8>) -> Seq<u8>;

/// Relies on `brotli::CompressorWriter`: for fixed parameters the output
/// is a function of the input bytes alone; `None` when the writer
/// reports an error.
#[verifier::external_body]
pub fn try_compress(b: &[u8]) -> (r: Option<Vec<u8>>)
    ensures
        match r {
            Some(v) => v@ == compressed_form(b@),
            None => true,
        },
{
    let mut writer = brotli::CompressorWriter::new(Vec::new(), 4096, 4, 22);
    match writer.write_all(b) {
        Ok(_) => Some(writer.into_inner()),
        Err(_) => None,
    }
}

/// Relies on `nanoid::format` with nanoid's default random source: the
/// result has exactly `size` characters, each drawn from `alphabet`.
/// The alphabet must not be longer than 255 (the call panics) and must
/// hold single-byte characters only: the generator stops on the byte
/// length of the accumulating string, so a multi-byte alphabet could
/// fall short of `size` characters or overshoot the byte budget.  The
/// size must be at least one: at zero, the general (non-power-of-two
/// alphabet) path computes a zero step, draws no random bytes and
/// checks the length only after a push, so the call never returns.
/// The result is random, so nothing further can be promised of it.
#[verifier::external_body]
pub fn nanoid_format(alphabet: &[char], size: usize) -> (r: String)
    requires
        0 < alphabet@.len() <= 255,
        size >= 1,
        forall|i: int| 0 <= i < alphabet@.len() ==> ((#[trigger] alphabet@[i]) as u32) < 128,
    ensures
        r@.len() == size as int,
        forall|i: int| 0 <= i < r@.len() ==> alphabet@.contains(#[trigger] r@[i]),
{
    nanoid::format(nanoid::rngs::default, alphabet, size)
}

/// Relies on `time::OffsetDateTime::now_utc`: the clock's value cannot be
/// promised.
#[verifier::external_body]
pub fn now_unix_raw() -> i64 {
    time::OffsetDateTime::now_utc().unix_timestamp()
}

/// The current unix time in seconds; an out-of-range clock reading
/// clamps to zero.
pub fn current_time() -> u64 {
    let t = now_unix_raw();
    if t < 0 {
        0
    } else {
        t as u64
    }
}

/// What `sanitise_file_name::sanitise` returns for a name.
pub uninterp spec fn sanitised_of(s: Seq<char>) -> Seq<char>;

/// Relies on `sanitise_file_name::sanitise`: a pure function of the
/// name; a name that would sanitise to nothing becomes `_`, so the
/// result is never empty.
#[verifier::external_body]
pub fn sanitise_filename(s: &str) -> (r: String)
    ensures
        r@ == sanitised_of(s@),
        r@.len() > 0,
{
    sanitise_file_name::sanitise(s)
}

/// Relies on `tree_magic::from_u8`, which consults the machine's MIME
/// database: the result can differ between machines, so nothing is
/// assumed of it.  On a machine with a loaded database every input
/// matches the catch-all type; on a machine without one the call panics
/// while loading its type graph, an environment failure that no
/// precondition can speak of.
#[verifier::external_body]
pub fn detect_mime(bytes: &[u8]) -> String {
    tree_magic::from_u8(bytes)
}

} // verus!
