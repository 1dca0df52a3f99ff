//! Best-effort text decoding of blob payload bytes, and the few string
//! operations the decoders need from std.

use vstd::prelude::*;

verus! {

/// What `String::from_utf8_lossy` yields on bytes that are not valid UTF-8:
/// some character sequence with the invalid parts replaced. The result
/// depends on the bytes alone.
pub uninterp spec fn lossy_utf8(b: Seq<u8>) -> Seq<char>;

/// The text that best-effort decoding yields: valid UTF-8 decodes exactly,
/// anything else decodes to `lossy_utf8` of the bytes.
pub open spec fn text_of(b: Seq<u8>) -> Seq<char> {
    if vstd::utf8::valid_utf8(b) {
        vstd::utf8::decode_utf8(b)
    } else {
        lossy_utf8(b)
    }
}

/// Relies on `String::from_utf8_lossy`: valid UTF-8 is decoded unchanged,
/// and invalid sequences are replaced rather than failing.
#[verifier::external_body]
pub fn lossy_decode(b: &[u8]) -> (r: String)
    ensures
        r@ == text_of(b@),
        !vstd::utf8::valid_utf8(b@) ==> r@ == lossy_utf8(b@),
{
    String::from_utf8_lossy(b).into_owned()
}

/// Relies on `str::ends_with`: true exactly when the characters of `s` end
/// with the characters of `suffix`.
#[verifier::external_body]
pub fn str_ends_with(s: &str, suffix: &str) -> (r: bool)
    ensures
        r == (s@.len() >= suffix@.len() && s@.skip(s@.len() - suffix@.len() as int)
            == suffix@),
{
    s.ends_with(suffix)
}

/// Relies on `str::strip_prefix`: `Some` with the rest of the string exactly
/// when the characters of `s` start with the characters of `prefix`.
#[verifier::external_body]
pub fn str_strip_prefix<'a>(s: &'a str, prefix: &str) -> (r: Option<&'a str>)
    ensures
        match r {
            Some(t) => s@ == prefix@ + t@,
            None => !(s@.len() >= prefix@.len() && s@.take(prefix@.len() as int) == prefix@),
        },
{
    s.strip_prefix(prefix)
}

} // verus!
