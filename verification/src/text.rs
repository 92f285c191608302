//! Decoding of the two text encodings the interface hands back: the modified
//! UTF-8 that class signatures arrive in, and the UTF-16 units that string
//! contents arrive in. Both decoders are outside crates; their results are
//! functions of the input alone and are named here so contracts can speak of
//! them exactly.

use vstd::prelude::*;

verus! {

/// What decoding a modified-UTF-8 byte sequence yields: the decoded text, or
/// nothing when the bytes are not well-formed modified UTF-8.
pub uninterp spec fn mutf8_decoded(bytes: Seq<u8>) -> Option<Seq<char>>;

/// Relies on mutf8::mutf8_to_utf8: rewrites modified UTF-8 to UTF-8, failing
/// on truncated multi-byte sequences and keeping an empty input empty. The
/// rewritten bytes are then read as text, any ill-formed sequence replaced;
/// both steps depend on the bytes alone.
#[verifier::external_body]
pub(crate) fn decode_mutf8(bytes: &Vec<u8>) -> (r: Option<String>)
    ensures
        r is Some <==> mutf8_decoded(bytes@) is Some,
        r matches Some(s) ==> mutf8_decoded(bytes@) == Some(s@) && (bytes@.len() == 0 ==> s@.len()
            == 0),
        r is None ==> bytes@.len() != 0,
{
    match mutf8::mutf8_to_utf8(bytes.as_slice()) {
        Ok(utf8) => Some(String::from_utf8_lossy(utf8.as_ref()).into_owned()),
        Err(_) => None,
    }
}

/// What reading a UTF-16 unit sequence as text yields, with unpaired
/// surrogates replaced.
pub uninterp spec fn utf16_lossy(units: Seq<u16>) -> Seq<char>;

/// Relies on widestring::U16Str::to_string_lossy: reads UTF-16 units as text,
/// replacing unpaired surrogates; the result depends on the units alone, and
/// an empty input yields an empty output.
#[verifier::external_body]
pub(crate) fn utf16_to_string_lossy(units: &Vec<u16>) -> (r: String)
    ensures
        r@ == utf16_lossy(units@),
        units@.len() == 0 ==> r@.len() == 0,
{
    widestring::U16Str::from_slice(units.as_slice()).to_string_lossy()
}

} // verus!
