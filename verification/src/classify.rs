//! Path classification: which repository-relative paths are noise, which look
//! like secrets, which are dependency manifests, and which are candidate
//! source files.

use vstd::prelude::*;
use crate::text::{
    begins_with, finishes_with, occurs_in, begins_with_vec, finishes_with_vec, occurs_in_vec,
    eq_vec, chars_vec,
};
use crate::bridge::lower_of;

verus! {

/// How the classifier sees one path.
#[derive(Clone, Copy, Debug, PartialEq, Eq, Structural)]
pub struct Classification {
    /// The path lies under a directory that is never worth fetching.
    pub hard_ignored: bool,
    /// The path looks like credential material.
    pub secret: bool,
}

/// `name/` opens the path or `/name/` occurs in it: `name` is a full path
/// segment.
pub open spec fn segment_of(p: Seq<char>, opening: Seq<char>, inner: Seq<char>) -> bool {
    begins_with(p, opening) || occurs_in(p, inner)
}

/// The path lies under one of the hard-ignored directory names.
pub open spec fn hard_ignored_spec(p: Seq<char>) -> bool {
    ||| segment_of(p, "venv/"@, "/venv/"@)
    ||| segment_of(p, ".venv/"@, "/.venv/"@)
    ||| segment_of(p, "node_modules/"@, "/node_modules/"@)
    ||| segment_of(p, ".git/"@, "/.git/"@)
    ||| segment_of(p, "__pycache__/"@, "/__pycache__/"@)
    ||| segment_of(p, "dist/"@, "/dist/"@)
    ||| segment_of(p, "build/"@, "/build/"@)
}

/// The path ends in the suffix, or carries it as a full path segment.
pub open spec fn secret_mark(p: Seq<char>, suffix: Seq<char>, inner: Seq<char>) -> bool {
    finishes_with(p, suffix) || occurs_in(p, inner)
}

/// The path looks like credential material.
pub open spec fn secret_spec(p: Seq<char>) -> bool {
    ||| secret_mark(p, ".env"@, "/.env/"@)
    ||| secret_mark(p, ".pem"@, "/.pem/"@)
    ||| secret_mark(p, ".key"@, "/.key/"@)
    ||| secret_mark(p, ".cert"@, "/.cert/"@)
    ||| secret_mark(p, ".p12"@, "/.p12/"@)
    ||| secret_mark(p, "secrets.json"@, "/secrets.json/"@)
    ||| secret_mark(p, "credentials.json"@, "/credentials.json/"@)
    ||| secret_mark(p, "id_rsa"@, "/id_rsa/"@)
}

/// The path stays in the working tree: neither hard-ignored nor a secret.
pub open spec fn retained_spec(p: Seq<char>) -> bool {
    !hard_ignored_spec(p) && !secret_spec(p)
}

/// The path is, by exact root-relative name, a recognized dependency manifest.
pub open spec fn manifest_name_spec(p: Seq<char>) -> bool {
    ||| p == "package.json"@
    ||| p == "requirements.txt"@
    ||| p == "go.mod"@
    ||| p == "Cargo.toml"@
    ||| p == "pom.xml"@
    ||| p == "build.gradle"@
}

/// The path carries one of the recognized source-file extensions.
pub open spec fn source_ext_spec(p: Seq<char>) -> bool {
    ||| finishes_with(p, ".ts"@)
    ||| finishes_with(p, ".tsx"@)
    ||| finishes_with(p, ".js"@)
    ||| finishes_with(p, ".jsx"@)
    ||| finishes_with(p, ".py"@)
    ||| finishes_with(p, ".go"@)
    ||| finishes_with(p, ".rs"@)
    ||| finishes_with(p, ".java"@)
    ||| finishes_with(p, ".cpp"@)
    ||| finishes_with(p, ".c"@)
    ||| finishes_with(p, ".h"@)
    ||| finishes_with(p, ".cs"@)
    ||| finishes_with(p, ".md"@)
}

/// The path is eligible for scoring and selection: a source extension, not a
/// dependency manifest, and not the README itself.
pub open spec fn candidate_spec(p: Seq<char>) -> bool {
    source_ext_spec(p) && !manifest_name_spec(p) && lower_of(p) != "readme.md"@
}

/// Classifies one repository-relative path.
pub fn classify(path: &str) -> (c: Classification)
    ensures
        c.hard_ignored == hard_ignored_spec(path@),
        c.secret == secret_spec(path@),
{
    let pv = chars_vec(path);
    let hard_ignored = segment_check(&pv, "venv/", "/venv/")
        || segment_check(&pv, ".venv/", "/.venv/")
        || segment_check(&pv, "node_modules/", "/node_modules/")
        || segment_check(&pv, ".git/", "/.git/")
        || segment_check(&pv, "__pycache__/", "/__pycache__/")
        || segment_check(&pv, "dist/", "/dist/")
        || segment_check(&pv, "build/", "/build/");
    let secret = secret_check(&pv, ".env", "/.env/")
        || secret_check(&pv, ".pem", "/.pem/")
        || secret_check(&pv, ".key", "/.key/")
        || secret_check(&pv, ".cert", "/.cert/")
        || secret_check(&pv, ".p12", "/.p12/")
        || secret_check(&pv, "secrets.json", "/secrets.json/")
        || secret_check(&pv, "credentials.json", "/credentials.json/")
        || secret_check(&pv, "id_rsa", "/id_rsa/");
    Classification { hard_ignored, secret }
}

/// Whether the opening form or the inner form of a segment occurs in `p`.
fn segment_check(p: &Vec<char>, opening: &str, inner: &str) -> (r: bool)
    ensures
        r == segment_of(p@, opening@, inner@),
{
    begins_with_vec(p, &chars_vec(opening)) || occurs_in_vec(p, &chars_vec(inner))
}

/// Whether the path ends in the suffix or carries it as a full segment.
fn secret_check(p: &Vec<char>, suffix: &str, inner: &str) -> (r: bool)
    ensures
        r == secret_mark(p@, suffix@, inner@),
{
    finishes_with_vec(p, &chars_vec(suffix)) || occurs_in_vec(p, &chars_vec(inner))
}

/// Whether the path names a recognized dependency manifest at the root.
pub fn is_dependency_manifest(path: &str) -> (r: bool)
    ensures
        r == manifest_name_spec(path@),
{
    let pv = chars_vec(path);
    eq_vec(&pv, &chars_vec("package.json"))
        || eq_vec(&pv, &chars_vec("requirements.txt"))
        || eq_vec(&pv, &chars_vec("go.mod"))
        || eq_vec(&pv, &chars_vec("Cargo.toml"))
        || eq_vec(&pv, &chars_vec("pom.xml"))
        || eq_vec(&pv, &chars_vec("build.gradle"))
}

/// Whether the path is eligible for scoring and selection.
pub fn is_source_candidate(path: &str) -> (r: bool)
    ensures
        r == candidate_spec(path@),
{
    let pv = chars_vec(path);
    let has_ext = finishes_with_vec(&pv, &chars_vec(".ts"))
        || finishes_with_vec(&pv, &chars_vec(".tsx"))
        || finishes_with_vec(&pv, &chars_vec(".js"))
        || finishes_with_vec(&pv, &chars_vec(".jsx"))
        || finishes_with_vec(&pv, &chars_vec(".py"))
        || finishes_with_vec(&pv, &chars_vec(".go"))
        || finishes_with_vec(&pv, &chars_vec(".rs"))
        || finishes_with_vec(&pv, &chars_vec(".java"))
        || finishes_with_vec(&pv, &chars_vec(".cpp"))
        || finishes_with_vec(&pv, &chars_vec(".c"))
        || finishes_with_vec(&pv, &chars_vec(".h"))
        || finishes_with_vec(&pv, &chars_vec(".cs"))
        || finishes_with_vec(&pv, &chars_vec(".md"));
    if !has_ext {
        return false;
    }
    if is_dependency_manifest(path) {
        return false;
    }
    let lowered = crate::bridge::lowercase(path);
    let lw = chars_vec(lowered.as_str());
    !eq_vec(&lw, &chars_vec("readme.md"))
}

/// Paths under `node_modules` or `.git` — as a full segment, opening the path
/// or enclosed in separators — are always hard-ignored.
pub proof fn lemma_vendor_and_vcs_dirs_hard_ignored(p: Seq<char>)
    ensures
        segment_of(p, "node_modules/"@, "/node_modules/"@) ==> hard_ignored_spec(p),
        segment_of(p, ".git/"@, "/.git/"@) ==> hard_ignored_spec(p),
{
}

/// Paths ending in `.env` or `id_rsa` are always classified as secrets.
pub proof fn lemma_env_and_key_files_secret(p: Seq<char>)
    ensures
        finishes_with(p, ".env"@) ==> secret_spec(p),
        finishes_with(p, "id_rsa"@) ==> secret_spec(p),
{
}

} // verus!
