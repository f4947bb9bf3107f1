//! Trusted bridges to outside computations: Unicode case folding and
//! whitespace trimming from std, and the base64 transport decoding that the
//! repository API wraps file contents in. Each result that cannot be stated
//! in a few lines is given an uninterpreted name, so that callers' contracts
//! can speak of it exactly.

use vstd::prelude::*;

verus! {

/// The Unicode lowercase folding of `s`, as `str::to_lowercase` computes it.
pub uninterp spec fn lower_of(s: Seq<char>) -> Seq<char>;

/// The ASCII lowercase mapping: `A`–`Z` become `a`–`z`, all else unchanged.
pub open spec fn ascii_lower_char(c: char) -> char {
    if 'A' <= c && c <= 'Z' {
        (((c as u8) + 32) as char)
    } else {
        c
    }
}

/// The bytewise ASCII lowercase folding of a character sequence.
pub open spec fn ascii_lower(s: Seq<char>) -> Seq<char> {
    s.map_values(|c: char| ascii_lower_char(c))
}

/// Relies on `str::to_lowercase`: the result is a function of the input
/// characters alone; on ASCII input the Unicode lowercase mapping is exactly
/// the ASCII `A`–`Z` to `a`–`z` mapping.
#[verifier::external_body]
pub(crate) fn lowercase(s: &str) -> (r: String)
    ensures
        r@ == lower_of(s@),
        vstd::string::is_ascii(s) ==> r@ == ascii_lower(s@),
{
    s.to_lowercase()
}

/// What `str::trim` leaves of `s` once leading and trailing whitespace is
/// removed.
pub uninterp spec fn trim_of(s: Seq<char>) -> Seq<char>;

/// Relies on `str::trim`: removes leading and trailing whitespace; the result
/// is a function of the input characters alone.
#[verifier::external_body]
pub(crate) fn trimmed(s: &str) -> (r: String)
    ensures
        r@ == trim_of(s@),
{
    s.trim().to_string()
}

/// What decoding `s` with the standard base64 alphabet yields: the decoded
/// bytes, or `None` when `s` is not well-formed base64.
pub uninterp spec fn base64_decoded(s: Seq<char>) -> Option<Seq<u8>>;

/// Relies on `base64::engine::general_purpose::STANDARD` and
/// `base64::Engine::decode`: success and payload are a function of the input
/// alone; a malformed input maps to `None`.
#[verifier::external_body]
pub(crate) fn base64_decode(s: &Vec<char>) -> (r: Option<Vec<u8>>)
    ensures
        r.deep_view() == base64_decoded(s@),
{
    let text: String = s.iter().collect();
    base64::Engine::decode(&base64::engine::general_purpose::STANDARD, text).ok()
}

/// The text that lossy UTF-8 decoding makes of `b`, invalid sequences
/// replaced by U+FFFD.
pub uninterp spec fn utf8_lossy_of(b: Seq<u8>) -> Seq<char>;

/// Relies on `String::from_utf8_lossy`: never fails; invalid byte sequences
/// become replacement characters; the result is a function of the bytes alone.
#[verifier::external_body]
pub(crate) fn utf8_lossy(b: &Vec<u8>) -> (r: String)
    ensures
        r@ == utf8_lossy_of(b@),
{
    String::from_utf8_lossy(b).to_string()
}

} // verus!
