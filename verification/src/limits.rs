//! Bounds on the size of an ingestion result.

use vstd::prelude::*;

verus! {

/// Largest number of paths kept in the result tree.
pub const TREE_CAP: usize = 1000;

/// Smallest allowed bound on fetched source files.
pub const MIN_FILES: u32 = 1;

/// Largest allowed bound on fetched source files.
pub const MAX_FILES: u32 = 200;

/// Bound on fetched source files when the caller names none.
pub const DEFAULT_FILES: u32 = 5;

/// The effective source-file bound for a caller-supplied request:
/// the default when absent, otherwise clamped into the allowed range.
pub open spec fn clamped_max_files(requested: Option<u32>) -> nat {
    let raw = match requested {
        Some(n) => n,
        None => DEFAULT_FILES,
    };
    if raw < MIN_FILES {
        MIN_FILES as nat
    } else if raw > MAX_FILES {
        MAX_FILES as nat
    } else {
        raw as nat
    }
}

/// Clamps the caller-supplied source-file bound into the allowed range,
/// defaulting when none was given.
pub fn clamp_max_files(requested: Option<u32>) -> (limit: usize)
    ensures
        limit == clamped_max_files(requested),
        MIN_FILES <= limit <= MAX_FILES,
{
    let raw = match requested {
        Some(n) => n,
        None => DEFAULT_FILES,
    };
    let clamped = if raw < MIN_FILES {
        MIN_FILES
    } else if raw > MAX_FILES {
        MAX_FILES
    } else {
        raw
    };
    clamped as usize
}

} // verus!
