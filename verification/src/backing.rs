//! Trusted boundary: the calls into the charset and base64 crates, and the
//! few standard-library conversions that the verifier has no model of.

use vstd::prelude::*;

verus! {

/// The text that the charset named `label` decodes `bytes` to, with
/// unrecognized labels falling back to Latin-1 and undecodable byte
/// sequences replaced by U+FFFD.
pub uninterp spec fn charset_decode_of(label: Seq<char>, bytes: Seq<u8>) -> Seq<char>;

/// Relies on `encoding::label::encoding_from_whatwg_label` and on
/// `encoding::types::Encoding::decode` with `DecoderTrap::Replace`: both are
/// pure table-driven computations, so the decoded text depends on `label`
/// and `bytes` alone; an unknown label resolves to Latin-1, and with the
/// replace trap `decode` substitutes U+FFFD and does not fail.
#[verifier::external_body]
pub(crate) fn charset_decode(label: &str, bytes: &[u8]) -> (r: String)
    ensures
        r@ == charset_decode_of(label@, bytes@),
{
    let enc = encoding::label::encoding_from_whatwg_label(label).unwrap_or(
        encoding::all::ISO_8859_1,
    );
    match enc.decode(bytes, encoding::DecoderTrap::Replace) {
        Ok(s) => s,
        Err(_) => "\u{FFFD}".to_string(),
    }
}

/// The bytes that `s` encodes in base64, or `None` when `s` is not base64.
pub uninterp spec fn base64_of(s: Seq<char>) -> Option<Seq<u8>>;

/// Relies on `rustc_serialize::base64::FromBase64::from_base64` for `str`:
/// a pure function of the string that returns the bytes it encodes, or an
/// error for text that is not valid base64.
#[verifier::external_body]
pub(crate) fn base64_decode(s: &str) -> (r: Option<Vec<u8>>)
    ensures
        match r {
            Some(v) => base64_of(s@) == Some(v@),
            None => base64_of(s@) is None,
        },
{
    match rustc_serialize::base64::FromBase64::from_base64(s) {
        Ok(v) => Some(v),
        Err(_) => None,
    }
}

/// The text read from `bytes` as UTF-8, with invalid sequences replaced by
/// U+FFFD.
pub uninterp spec fn utf8_lossy_of(bytes: Seq<u8>) -> Seq<char>;

/// Relies on `String::from_utf8_lossy`: a pure function of the bytes that
/// replaces invalid UTF-8 sequences with U+FFFD.
#[verifier::external_body]
pub(crate) fn utf8_lossy(bytes: &[u8]) -> (r: String)
    ensures
        r@ == utf8_lossy_of(bytes@),
{
    String::from_utf8_lossy(bytes).into_owned()
}

/// Relies on `String`'s `FromIterator<char>` implementation: collecting
/// characters yields the string of exactly those characters.
#[verifier::external_body]
pub(crate) fn chars_to_string(v: &Vec<char>) -> (r: String)
    ensures
        r@ == v@,
{
    v.iter().collect()
}

/// Relies on `char::from_u32`: `Some` of the corresponding character exactly
/// for Unicode scalar values, `None` otherwise.
#[verifier::external_body]
pub(crate) fn char_from_u32(v: u32) -> (r: Option<char>)
    ensures
        vstd::utf8::is_scalar(v) ==> r == Some(v as char),
        !vstd::utf8::is_scalar(v) ==> r is None,
{
    char::from_u32(v)
}

} // verus!
