//! Small helpers: upload limits, string joining, form-field defaults, the
//! three-state patch value, and random image ids.

use vstd::prelude::*;

use crate::outside::nanoid_format;

verus! {

/// The maximum amount of bytes an upload can have, in bytes.
pub const MAX_UPLOAD_SIZE: u64 = 1024 * 1024 * 16;

pub const MAX_BODY_SIZE: usize = 1024 * 1024 * 16;

/// The UTF-8 byte length of a text; lengths of form fields and stored
/// strings are measured in bytes.
pub open spec fn spec_utf8_len(s: Seq<char>) -> nat {
    vstd::utf8::encode_utf8(s).len()
}

/// Measures a string's UTF-8 byte length.
pub fn utf8_len(s: &str) -> (r: usize)
    ensures
        r == spec_utf8_len(s@),
{
    s.as_bytes().len()
}

/// Whether an optional text is at least `length` bytes long.
pub fn is_over_length(opt: &Option<String>, length: usize) -> (r: bool)
    ensures
        r == match opt {
            Some(s) => spec_utf8_len(s@) >= length,
            None => false,
        },
{
    match opt {
        Some(s) => utf8_len(s.as_str()) >= length,
        None => false,
    }
}

/// The items joined with `sep` between consecutive items.
pub open spec fn spec_join(items: Seq<Seq<char>>, sep: Seq<char>) -> Seq<char>
    decreases items.len(),
{
    if items.len() == 0 {
        Seq::empty()
    } else if items.len() == 1 {
        items[0]
    } else {
        spec_join(items.drop_last(), sep) + sep + items.last()
    }
}

/// Joins the items with the separator between consecutive items.
pub fn join_iter(sep: &str, items: &Vec<String>) -> (r: String)
    ensures
        r@ == spec_join(items@.map_values(|s: String| s@), sep@),
{
    let ghost views = items@.map_values(|s: String| s@);
    let mut buffer = String::new();
    let n = items.len();
    if n == 0 {
        proof {
            assert(buffer@ =~= spec_join(views, sep@));
        }
        return buffer;
    }
    buffer.append(items[0].as_str());
    let mut i: usize = 1;
    while i < n
        invariant
            n == items@.len(),
            1 <= i <= n,
            views == items@.map_values(|s: String| s@),
            buffer@ == spec_join(views.take(i as int), sep@),
        decreases n - i,
    {
        buffer.append(sep);
        buffer.append(items[i].as_str());
        proof {
            let upto = views.take(i + 1);
            assert(upto.drop_last() =~= views.take(i as int));
            assert(upto.last() == views[i as int]);
        }
        i += 1;
    }
    proof {
        assert(views.take(n as int) =~= views);
    }
    buffer
}

/// This is mainly used for form defaults.
pub fn default_true() -> (r: bool)
    ensures
        r,
{
    true
}

pub fn is_false(s: &bool) -> (r: bool)
    ensures
        r == !*s,
{
    !*s
}

/// Unwraps a result whose error cannot be constructed.
pub fn unwrap_infallible<T>(result: Result<T, core::convert::Infallible>) -> (r: T)
    requires
        result is Ok,
    ensures
        result == Ok::<T, core::convert::Infallible>(r),
{
    match result {
        Ok(value) => value,
        Err(_) => unreached(),
    }
}

/// Utility type to differentiate between explicit null and missing values.
pub enum Patch<T> {
    Missing,
    Null,
    Value(T),
}

impl<T> Patch<T> {
    /// Returns `true` if the patch is absent altogether.
    pub fn is_missing(&self) -> (r: bool)
        ensures
            r == (self is Missing),
    {
        matches!(self, Patch::Missing)
    }

    /// Returns `true` if the patch is an explicit null.
    pub fn is_null(&self) -> (r: bool)
        ensures
            r == (self is Null),
    {
        matches!(self, Patch::Null)
    }

    /// Returns the double option for this type: `None` is missing,
    /// `Some(None)` is null, `Some(Some(v))` is a value.
    pub fn to_option(self) -> (r: Option<Option<T>>)
        ensures
            r == match self {
                Patch::Missing => None::<Option<T>>,
                Patch::Null => Some(None::<T>),
                Patch::Value(v) => Some(Some(v)),
            },
    {
        match self {
            Patch::Missing => None,
            Patch::Null => Some(None),
            Patch::Value(value) => Some(Some(value)),
        }
    }
}

impl<T> Default for Patch<T> {
    fn default() -> (r: Self)
        ensures
            r is Missing,
    {
        Patch::Missing
    }
}

/// The characters an image id is drawn from: ASCII letters.
pub open spec fn spec_image_id_char(c: char) -> bool {
    ('a' <= c && c <= 'z') || ('A' <= c && c <= 'Z')
}

/// Generates a random id for an image: five characters, lowercase and
/// uppercase letters only.
pub fn get_new_image_id() -> (r: String)
    ensures
        r@.len() == 5,
        forall|i: int| 0 <= i < r@.len() ==> spec_image_id_char(#[trigger] r@[i]),
{
    let chars: Vec<char> = vec![
        'a', 'b', 'c', 'd', 'e', 'f', 'g', 'h', 'i', 'j', 'k', 'l', 'm', 'n', 'o', 'p', 'q', 'r',
        's', 't', 'u', 'v', 'w', 'x', 'y', 'z', 'A', 'B', 'C', 'D', 'E', 'F', 'G', 'H', 'I', 'J',
        'K', 'L', 'M', 'N', 'O', 'P', 'Q', 'R', 'S', 'T', 'U', 'V', 'W', 'X', 'Y', 'Z',
    ];
    proof {
        assert forall|i: int|
            0 <= i < chars@.len() implies spec_image_id_char(#[trigger] chars@[i]) && (
        chars@[i] as u32) < 128 by {
        }
    }
    let id = nanoid_format(chars.as_slice(), 5);
    proof {
        assert forall|i: int| 0 <= i < id@.len() implies spec_image_id_char(#[trigger] id@[i]) by {
            let j = choose|j: int| 0 <= j < chars@.len() && chars@[j] == id@[i];
            assert(spec_image_id_char(chars@[j]));
        }
    }
    id
}

} // verus!
