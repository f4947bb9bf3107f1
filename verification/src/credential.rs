//! Credential resolution and proxy normalization for the generation API
//! call: an explicit key entry wins over the stored key, and a proxy
//! address is given a scheme when it lacks one.

use vstd::prelude::*;
use vstd::string::StringExecFns;
use crate::bridge::{trim_of, trimmed};
use crate::errors::IngestError;
use crate::text::{begins_with, begins_with_vec, chars_vec};

verus! {

/// The key an explicit entry and the stored fallback resolve to: the
/// explicit entry, trimmed, when it has substance, else the fallback.
pub open spec fn chosen_key_spec(explicit: Option<Seq<char>>, fallback: Seq<char>) -> Seq<char> {
    match explicit {
        Some(e) => if trim_of(e).len() > 0 {
            trim_of(e)
        } else {
            fallback
        },
        None => fallback,
    }
}

/// Resolves the credential for a generation call: the trimmed explicit
/// entry when it has substance, else the stored fallback; an empty result
/// is a configuration failure.
pub fn resolve_credential(explicit: Option<String>, fallback: &str) -> (r: Result<
    String,
    IngestError,
>)
    ensures
        r is Ok <==> chosen_key_spec(explicit.deep_view(), fallback@).len() > 0,
        r is Ok ==> r.unwrap()@ == chosen_key_spec(explicit.deep_view(), fallback@),
        r is Err ==> (r.unwrap_err() matches IngestError::Configuration { detail } && detail@
            == "Gemini API key is missing. Please enter it in the settings or set the GEMINI_API_KEY environment variable."@),
{
    let chosen = match explicit {
        Some(e) => {
            let t = trimmed(e.as_str());
            if t.as_str().is_empty() {
                String::from_str(fallback)
            } else {
                t
            }
        },
        None => String::from_str(fallback),
    };
    if chosen.as_str().is_empty() {
        Err(
            IngestError::Configuration {
                detail: String::from_str(
                    "Gemini API key is missing. Please enter it in the settings or set the GEMINI_API_KEY environment variable.",
                ),
            },
        )
    } else {
        Ok(chosen)
    }
}

/// The proxy address a caller-supplied entry normalizes to: trimmed, absent
/// when empty, and given an `http://` scheme when it names none.
pub open spec fn normalized_proxy_spec(p: Option<Seq<char>>) -> Option<Seq<char>> {
    match p {
        None => None,
        Some(s) => {
            let t = trim_of(s);
            if t.len() == 0 {
                None
            } else if begins_with(t, "http"@) {
                Some(t)
            } else {
                Some("http://"@ + t)
            }
        },
    }
}

/// Normalizes a caller-supplied proxy address: trims it, drops it when
/// empty, and prefixes `http://` when it names no scheme.
pub fn normalize_proxy(proxy: Option<String>) -> (r: Option<String>)
    ensures
        r.deep_view() == normalized_proxy_spec(proxy.deep_view()),
{
    match proxy {
        None => None,
        Some(s) => {
            let t = trimmed(s.as_str());
            if t.as_str().is_empty() {
                None
            } else {
                let tv = chars_vec(t.as_str());
                if begins_with_vec(&tv, &chars_vec("http")) {
                    Some(t)
                } else {
                    let pre = String::from_str("http://");
                    Some(pre.concat(t.as_str()))
                }
            }
        },
    }
}

} // verus!
