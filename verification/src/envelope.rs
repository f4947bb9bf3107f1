//! Content-envelope decoding: remote file contents arrive base64-encoded
//! with embedded newlines; the newlines are stripped, the base64 decoded,
//! and the bytes read as UTF-8, lossily.

use vstd::prelude::*;
use crate::bridge::{base64_decode, base64_decoded, utf8_lossy, utf8_lossy_of};
use crate::text::{chars_vec, lemma_filter_push};

verus! {

/// Whether a character survives stripping: everything but newlines and
/// carriage returns.
pub open spec fn keep_char() -> spec_fn(char) -> bool {
    |c: char| c != '\n' && c != '\r'
}

/// The envelope text with embedded newlines and carriage returns removed.
pub open spec fn stripped(s: Seq<char>) -> Seq<char> {
    s.filter(keep_char())
}

/// The text an envelope decodes to: strip newlines, decode base64, read the
/// bytes as UTF-8 lossily. `None` when the base64 is malformed.
pub open spec fn decoded_envelope(s: Seq<char>) -> Option<Seq<char>> {
    match base64_decoded(stripped(s)) {
        Some(bytes) => Some(utf8_lossy_of(bytes)),
        None => None,
    }
}

/// Removes newlines and carriage returns from the envelope text.
fn strip_newlines(v: &Vec<char>) -> (r: Vec<char>)
    ensures
        r@ == stripped(v@),
{
    let n = v.len();
    let mut r: Vec<char> = Vec::new();
    let mut i: usize = 0;
    proof {
        assert(v@.subrange(0, 0) =~= Seq::<char>::empty());
        assert(Seq::<char>::empty().filter(keep_char()) =~= Seq::<char>::empty()) by {
            reveal(Seq::filter);
        }
    }
    while i < n
        invariant
            i <= n,
            n == v@.len(),
            r@ == v@.subrange(0, i as int).filter(keep_char()),
        decreases n - i,
    {
        proof {
            assert(v@.subrange(0, i + 1) =~= v@.subrange(0, i as int).push(v@[i as int]));
            lemma_filter_push(v@.subrange(0, i as int), keep_char(), v@[i as int]);
            assert(keep_char()(v@[i as int]) == (v@[i as int] != '\n' && v@[i as int] != '\r'));
        }
        let c = v[i];
        if c != '\n' && c != '\r' {
            r.push(c);
        }
        i = i + 1;
    }
    proof {
        assert(v@.subrange(0, n as int) =~= v@);
    }
    r
}

/// Decodes one content envelope: strips embedded newlines, decodes the
/// base64, and reads the bytes as UTF-8, lossily. `None` exactly when the
/// stripped text is not well-formed base64.
pub fn decode_envelope(content: &str) -> (r: Option<String>)
    ensures
        r.deep_view() == decoded_envelope(content@),
{
    let cv = chars_vec(content);
    let clean = strip_newlines(&cv);
    match base64_decode(&clean) {
        Some(bytes) => {
            proof {
                assert(bytes.deep_view() =~= bytes@);
                assert(base64_decoded(stripped(content@)) == Some(bytes@));
            }
            Some(utf8_lossy(&bytes))
        },
        None => None,
    }
}

} // verus!
