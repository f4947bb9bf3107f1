//! Trusted bridges to `serde_json`: the repository API answers with JSON, and
//! the fields the pipeline reads are extracted here as plain values. Each
//! extraction is a function of the response body alone and is given an
//! uninterpreted name that callers' contracts speak of.

use vstd::prelude::*;

verus! {

/// The `default_branch` and `description` string fields of a repository
/// metadata body: `None` when the body is not JSON; inside, each field is
/// `None` when absent or not a string.
pub uninterp spec fn meta_fields_of(body: Seq<char>) -> Option<
    (Option<Seq<char>>, Option<Seq<char>>),
>;

/// Relies on `serde_json::from_str`, `serde_json::Value::get` and
/// `serde_json::Value::as_str`: extracts the `default_branch` and
/// `description` string fields of a repository metadata response.
#[verifier::external_body]
pub(crate) fn parse_repo_metadata(body: &str) -> (r: Option<(Option<String>, Option<String>)>)
    ensures
        r.deep_view() == meta_fields_of(body@),
{
    let v: serde_json::Value = match serde_json::from_str(body) {
        Ok(v) => v,
        Err(_) => return None,
    };
    Some((
        v.get("default_branch").and_then(|f| f.as_str()).map(|s| s.to_string()),
        v.get("description").and_then(|f| f.as_str()).map(|s| s.to_string()),
    ))
}

/// The entries of the `tree` array of a tree-listing body, each reduced to
/// its `path` and `type` string fields: `None` when the body is not JSON; an
/// empty sequence when the array is absent or not an array.
pub uninterp spec fn tree_items_of(body: Seq<char>) -> Option<
    Seq<(Option<Seq<char>>, Option<Seq<char>>)>,
>;

/// Relies on `serde_json::from_str`, `serde_json::Value::get`,
/// `serde_json::Value::as_array` and `serde_json::Value::as_str`: extracts
/// the `(path, type)` string fields of each entry of the `tree` array.
#[verifier::external_body]
pub(crate) fn parse_tree_items(body: &str) -> (r: Option<Vec<(Option<String>, Option<String>)>>)
    ensures
        r.deep_view() == tree_items_of(body@),
{
    let v: serde_json::Value = match serde_json::from_str(body) {
        Ok(v) => v,
        Err(_) => return None,
    };
    let arr = match v.get("tree").and_then(|t| t.as_array()) {
        Some(a) => a,
        None => return Some(Vec::new()),
    };
    Some(arr.iter().map(|e| (
        e.get("path").and_then(|f| f.as_str()).map(|s| s.to_string()),
        e.get("type").and_then(|f| f.as_str()).map(|s| s.to_string()),
    )).collect())
}

/// The `content` string field of a content-envelope body: `None` when the
/// body is not JSON or the field is absent or not a string.
pub uninterp spec fn content_field_of(body: Seq<char>) -> Option<Seq<char>>;

/// Relies on `serde_json::from_str`, `serde_json::Value::get` and
/// `serde_json::Value::as_str`: extracts the `content` string field of a
/// content response.
#[verifier::external_body]
pub(crate) fn parse_content_field(body: &str) -> (r: Option<String>)
    ensures
        r.deep_view() == content_field_of(body@),
{
    let v: serde_json::Value = match serde_json::from_str(body) {
        Ok(v) => v,
        Err(_) => return None,
    };
    v.get("content").and_then(|f| f.as_str()).map(|s| s.to_string())
}

} // verus!
