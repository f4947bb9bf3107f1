//! The local directory walker's decisions: which entry names it descends
//! into or keeps, and the size ceiling above which a file is skipped.

use vstd::prelude::*;
use crate::text::{begins_with, begins_with_vec, chars_vec, eq_vec};

verus! {

/// The size ceiling, in bytes, above which a local file is skipped.
pub const LOCAL_FILE_CEILING: u64 = 1000000;

/// Whether the local walker keeps an entry of this name: neither hidden
/// (version control, virtual environments, editor state) nor heavy
/// (dependency and build output directories).
pub open spec fn walk_keeps_spec(name: Seq<char>) -> bool {
    let hidden = begins_with(name, ".git"@) || name == ".venv"@ || name == ".idea"@ || name
        == ".vscode"@;
    let heavy = name == "node_modules"@ || name == "target"@ || name == "venv"@ || name
        == "build"@ || name == "__pycache__"@;
    !hidden && !heavy
}

/// Decides whether the local walker keeps an entry of this name.
pub fn walk_keeps(name: &str) -> (r: bool)
    ensures
        r == walk_keeps_spec(name@),
{
    let nv = chars_vec(name);
    let hidden = begins_with_vec(&nv, &chars_vec(".git")) || eq_vec(&nv, &chars_vec(".venv"))
        || eq_vec(&nv, &chars_vec(".idea")) || eq_vec(&nv, &chars_vec(".vscode"));
    let heavy = eq_vec(&nv, &chars_vec("node_modules")) || eq_vec(&nv, &chars_vec("target"))
        || eq_vec(&nv, &chars_vec("venv")) || eq_vec(&nv, &chars_vec("build"))
        || eq_vec(&nv, &chars_vec("__pycache__"));
    !hidden && !heavy
}

/// Decides whether a local file of this size is within the ceiling.
pub fn within_size_limit(len: u64) -> (r: bool)
    ensures
        r == (len <= LOCAL_FILE_CEILING),
{
    len <= LOCAL_FILE_CEILING
}

} // verus!
