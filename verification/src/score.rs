//! Relevance scoring: a pure, deterministic integer score for a path,
//! reflecting how much a reader of the repository is likely to care about
//! it. The path is lowercased before matching; rules apply additively.

use vstd::prelude::*;
use crate::text::{
    begins_with, finishes_with, occurs_in, begins_with_vec, finishes_with_vec, occurs_in_vec,
    chars_vec,
};
use crate::bridge::{lower_of, lowercase};

verus! {

/// How many times `c` occurs in `s`.
pub open spec fn count_char(s: Seq<char>, c: char) -> nat
    decreases s.len(),
{
    if s.len() == 0 {
        0
    } else {
        count_char(s.drop_last(), c) + (if s.last() == c {
            1nat
        } else {
            0nat
        })
    }
}

/// The number of `/`-separated segments of the path.
pub open spec fn depth_of(s: Seq<char>) -> nat {
    count_char(s, '/') + 1
}

/// The last `/`-separated segment of the path.
pub open spec fn file_name_of(s: Seq<char>) -> Seq<char>
    decreases s.len(),
{
    if s.len() == 0 {
        Seq::empty()
    } else if s.last() == '/' {
        Seq::empty()
    } else {
        file_name_of(s.drop_last()).push(s.last())
    }
}

/// The lowercased path looks like test code.
pub open spec fn test_like_spec(low: Seq<char>) -> bool {
    ||| occurs_in(low, "/test/"@)
    ||| occurs_in(low, "/tests/"@)
    ||| occurs_in(low, "__tests__"@)
    ||| occurs_in(file_name_of(low), ".test."@)
    ||| occurs_in(file_name_of(low), ".spec."@)
    ||| begins_with(file_name_of(low), "test_"@)
    ||| finishes_with(file_name_of(low), "_test.go"@)
}

/// The lowercased path mentions an auxiliary, non-core keyword.
pub open spec fn aux_keyword_spec(low: Seq<char>) -> bool {
    ||| occurs_in(low, "build"@)
    ||| occurs_in(low, "setup"@)
    ||| occurs_in(low, "config"@)
    ||| occurs_in(low, "webpack"@)
    ||| occurs_in(low, "vite"@)
    ||| occurs_in(low, "rollup"@)
    ||| occurs_in(low, "gulpfile"@)
    ||| occurs_in(low, "backup"@)
    ||| occurs_in(low, "manage.py"@)
    ||| occurs_in(low, "scripts/"@)
    ||| occurs_in(low, "tools/"@)
    ||| occurs_in(low, "docs/"@)
    ||| occurs_in(low, "example"@)
    ||| occurs_in(low, "demo"@)
    ||| occurs_in(low, "migrations/"@)
}

/// The lowercased path opens with, or passes through, a core directory.
pub open spec fn core_dir_spec(low: Seq<char>) -> bool {
    ||| begins_with(low, "src/"@) || occurs_in(low, "/src/"@)
    ||| begins_with(low, "lib/"@) || occurs_in(low, "/lib/"@)
    ||| begins_with(low, "app/"@) || occurs_in(low, "/app/"@)
    ||| begins_with(low, "core/"@) || occurs_in(low, "/core/"@)
    ||| begins_with(low, "pkg/"@) || occurs_in(low, "/pkg/"@)
    ||| begins_with(low, "internal/"@) || occurs_in(low, "/internal/"@)
}

/// The lowercased file name mentions an important component name.
pub open spec fn important_name_spec(low: Seq<char>) -> bool {
    let f = file_name_of(low);
    ||| occurs_in(f, "main"@)
    ||| occurs_in(f, "index"@)
    ||| occurs_in(f, "app"@)
    ||| occurs_in(f, "server"@)
    ||| occurs_in(f, "core"@)
    ||| occurs_in(f, "manager"@)
    ||| occurs_in(f, "parser"@)
    ||| occurs_in(f, "api"@)
    ||| occurs_in(f, "router"@)
    ||| occurs_in(f, "handler"@)
    ||| occurs_in(f, "controller"@)
    ||| occurs_in(f, "service"@)
    ||| occurs_in(f, "model"@)
    ||| occurs_in(f, "database"@)
}

/// The relevance score of an already-lowercased path: a test penalty, an
/// auxiliary-keyword penalty, a core-directory bonus, an important-name
/// bonus, and a depth penalty, applied additively.
pub open spec fn score_spec(low: Seq<char>) -> int {
    (if test_like_spec(low) {
        -50int
    } else {
        0int
    }) + (if aux_keyword_spec(low) {
        -30int
    } else {
        0int
    }) + (if core_dir_spec(low) {
        20int
    } else {
        0int
    }) + (if important_name_spec(low) {
        10int
    } else {
        0int
    }) - depth_of(low)
}

/// Counts the occurrences of `/` in `v`.
fn count_slashes(v: &Vec<char>) -> (n: usize)
    ensures
        n == count_char(v@, '/'),
{
    let len = v.len();
    let mut n: usize = 0;
    let mut i: usize = 0;
    while i < len
        invariant
            i <= len,
            len == v@.len(),
            n <= i,
            n == count_char(v@.subrange(0, i as int), '/'),
        decreases len - i,
    {
        proof {
            let pre = v@.subrange(0, i + 1);
            assert(pre.drop_last() =~= v@.subrange(0, i as int));
            assert(pre.last() == v@[i as int]);
        }
        if v[i] == '/' {
            n = n + 1;
        }
        i = i + 1;
    }
    assert(v@.subrange(0, len as int) =~= v@);
    n
}

/// The last `/`-separated segment of `v`.
fn file_name_vec(v: &Vec<char>) -> (r: Vec<char>)
    ensures
        r@ == file_name_of(v@),
{
    let len = v.len();
    let mut r: Vec<char> = Vec::new();
    let mut i: usize = 0;
    while i < len
        invariant
            i <= len,
            len == v@.len(),
            r@ == file_name_of(v@.subrange(0, i as int)),
        decreases len - i,
    {
        proof {
            let pre = v@.subrange(0, i + 1);
            assert(pre.drop_last() =~= v@.subrange(0, i as int));
            assert(pre.last() == v@[i as int]);
        }
        if v[i] == '/' {
            r.clear();
        } else {
            r.push(v[i]);
        }
        i = i + 1;
    }
    assert(v@.subrange(0, len as int) =~= v@);
    r
}

/// Whether the lowercased path looks like test code.
fn test_like_check(lv: &Vec<char>, fv: &Vec<char>) -> (r: bool)
    requires
        fv@ == file_name_of(lv@),
    ensures
        r == test_like_spec(lv@),
{
    occurs_in_vec(lv, &chars_vec("/test/"))
        || occurs_in_vec(lv, &chars_vec("/tests/"))
        || occurs_in_vec(lv, &chars_vec("__tests__"))
        || occurs_in_vec(fv, &chars_vec(".test."))
        || occurs_in_vec(fv, &chars_vec(".spec."))
        || begins_with_vec(fv, &chars_vec("test_"))
        || finishes_with_vec(fv, &chars_vec("_test.go"))
}

/// Whether the lowercased path mentions an auxiliary keyword.
fn aux_keyword_check(lv: &Vec<char>) -> (r: bool)
    ensures
        r == aux_keyword_spec(lv@),
{
    occurs_in_vec(lv, &chars_vec("build"))
        || occurs_in_vec(lv, &chars_vec("setup"))
        || occurs_in_vec(lv, &chars_vec("config"))
        || occurs_in_vec(lv, &chars_vec("webpack"))
        || occurs_in_vec(lv, &chars_vec("vite"))
        || occurs_in_vec(lv, &chars_vec("rollup"))
        || occurs_in_vec(lv, &chars_vec("gulpfile"))
        || occurs_in_vec(lv, &chars_vec("backup"))
        || occurs_in_vec(lv, &chars_vec("manage.py"))
        || occurs_in_vec(lv, &chars_vec("scripts/"))
        || occurs_in_vec(lv, &chars_vec("tools/"))
        || occurs_in_vec(lv, &chars_vec("docs/"))
        || occurs_in_vec(lv, &chars_vec("example"))
        || occurs_in_vec(lv, &chars_vec("demo"))
        || occurs_in_vec(lv, &chars_vec("migrations/"))
}

/// Whether the lowercased path opens with, or passes through, a core
/// directory.
fn core_dir_check(lv: &Vec<char>) -> (r: bool)
    ensures
        r == core_dir_spec(lv@),
{
    begins_with_vec(lv, &chars_vec("src/")) || occurs_in_vec(lv, &chars_vec("/src/"))
        || begins_with_vec(lv, &chars_vec("lib/")) || occurs_in_vec(lv, &chars_vec("/lib/"))
        || begins_with_vec(lv, &chars_vec("app/")) || occurs_in_vec(lv, &chars_vec("/app/"))
        || begins_with_vec(lv, &chars_vec("core/")) || occurs_in_vec(lv, &chars_vec("/core/"))
        || begins_with_vec(lv, &chars_vec("pkg/")) || occurs_in_vec(lv, &chars_vec("/pkg/"))
        || begins_with_vec(lv, &chars_vec("internal/"))
        || occurs_in_vec(lv, &chars_vec("/internal/"))
}

/// Whether the lowercased file name mentions an important component name.
fn important_name_check(fv: &Vec<char>, lv: &Vec<char>) -> (r: bool)
    requires
        fv@ == file_name_of(lv@),
    ensures
        r == important_name_spec(lv@),
{
    occurs_in_vec(fv, &chars_vec("main"))
        || occurs_in_vec(fv, &chars_vec("index"))
        || occurs_in_vec(fv, &chars_vec("app"))
        || occurs_in_vec(fv, &chars_vec("server"))
        || occurs_in_vec(fv, &chars_vec("core"))
        || occurs_in_vec(fv, &chars_vec("manager"))
        || occurs_in_vec(fv, &chars_vec("parser"))
        || occurs_in_vec(fv, &chars_vec("api"))
        || occurs_in_vec(fv, &chars_vec("router"))
        || occurs_in_vec(fv, &chars_vec("handler"))
        || occurs_in_vec(fv, &chars_vec("controller"))
        || occurs_in_vec(fv, &chars_vec("service"))
        || occurs_in_vec(fv, &chars_vec("model"))
        || occurs_in_vec(fv, &chars_vec("database"))
}

/// Scores a path that has already been lowercased.
pub fn score_lowered(low: &str) -> (s: i128)
    ensures
        s == score_spec(low@),
{
    let lv = chars_vec(low);
    let fv = file_name_vec(&lv);

    let test_like = test_like_check(&lv, &fv);
    let aux = aux_keyword_check(&lv);
    let core = core_dir_check(&lv);
    let important = important_name_check(&fv, &lv);

    let slashes = count_slashes(&lv);
    let depth: i128 = (slashes as i128) + 1;

    let mut s: i128 = 0;
    if test_like {
        s = s - 50;
    }
    if aux {
        s = s - 30;
    }
    if core {
        s = s + 20;
    }
    if important {
        s = s + 10;
    }
    s - depth
}

/// Scores a path: lowercases it, then applies the scoring rules.
pub fn score(path: &str) -> (s: i128)
    ensures
        s == score_spec(lower_of(path@)),
{
    let low = lowercase(path);
    score_lowered(low.as_str())
}

} // verus!
