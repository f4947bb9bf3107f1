//! Character-sequence primitives: prefix, suffix, substring and equality
//! tests on paths and other short strings, with exact specifications.

use vstd::prelude::*;
use vstd::string::StrSliceExecFns;

verus! {

/// `p` occurs in `s` at offset `i`.
pub open spec fn matches_at(s: Seq<char>, p: Seq<char>, i: int) -> bool {
    0 <= i && i + p.len() <= s.len() && s.subrange(i, i + p.len() as int) == p
}

/// `s` begins with `p`.
pub open spec fn begins_with(s: Seq<char>, p: Seq<char>) -> bool {
    matches_at(s, p, 0)
}

/// `s` ends with `p`.
pub open spec fn finishes_with(s: Seq<char>, p: Seq<char>) -> bool {
    p.len() <= s.len() && matches_at(s, p, s.len() - p.len())
}

/// `p` occurs somewhere in `s`.
pub open spec fn occurs_in(s: Seq<char>, p: Seq<char>) -> bool {
    exists|i: int| matches_at(s, p, i)
}

/// The characters of `s`, in order, as a vector.
pub fn chars_vec(s: &str) -> (v: Vec<char>)
    ensures
        v@ == s@,
{
    let n = s.unicode_len();
    let mut v: Vec<char> = Vec::new();
    let mut i: usize = 0;
    while i < n
        invariant
            i <= n,
            n == s@.len(),
            v@ == s@.subrange(0, i as int),
        decreases n - i,
    {
        let c = s.get_char(i);
        v.push(c);
        i = i + 1;
        assert(v@ =~= s@.subrange(0, i as int));
    }
    assert(v@ =~= s@);
    v
}

/// Whether `p` occurs in `s` at offset `i`.
fn check_at(s: &Vec<char>, p: &Vec<char>, i: usize) -> (r: bool)
    requires
        i + p@.len() <= s@.len(),
    ensures
        r == matches_at(s@, p@, i as int),
{
    let m = p.len();
    let n = s.len();
    let mut j: usize = 0;
    while j < m
        invariant
            j <= m,
            m == p@.len(),
            n == s@.len(),
            i + m <= n,
            forall|k: int| 0 <= k < j ==> s@[i + k] == p@[k],
        decreases m - j,
    {
        if s[i + j] != p[j] {
            assert(s@.subrange(i as int, i + p@.len() as int)[j as int] != p@[j as int]);
            return false;
        }
        j = j + 1;
    }
    assert(s@.subrange(i as int, i + p@.len() as int) =~= p@);
    true
}

/// Whether `s` begins with `p`.
pub fn begins_with_vec(s: &Vec<char>, p: &Vec<char>) -> (r: bool)
    ensures
        r == begins_with(s@, p@),
{
    if p.len() > s.len() {
        return false;
    }
    check_at(s, p, 0)
}

/// Whether `s` ends with `p`.
pub fn finishes_with_vec(s: &Vec<char>, p: &Vec<char>) -> (r: bool)
    ensures
        r == finishes_with(s@, p@),
{
    if p.len() > s.len() {
        return false;
    }
    check_at(s, p, s.len() - p.len())
}

/// Whether `p` occurs somewhere in `s`.
pub fn occurs_in_vec(s: &Vec<char>, p: &Vec<char>) -> (r: bool)
    ensures
        r == occurs_in(s@, p@),
{
    if p.len() > s.len() {
        assert(forall|i: int| !matches_at(s@, p@, i));
        return false;
    }
    if p.len() == 0 {
        assert(s@.subrange(0, 0) =~= p@);
        assert(matches_at(s@, p@, 0));
        return true;
    }
    let n = s.len();
    let last = n - p.len();
    let mut i: usize = 0;
    while i <= last
        invariant
            i <= last + 1,
            n == s@.len(),
            last == s@.len() - p@.len(),
            0 < p@.len() <= s@.len(),
            forall|k: int| 0 <= k < i ==> !matches_at(s@, p@, k),
        decreases last - i + 1,
    {
        if check_at(s, p, i) {
            return true;
        }
        i = i + 1;
    }
    assert(forall|k: int| matches_at(s@, p@, k) ==> 0 <= k <= last);
    false
}

/// Whether `s` and `p` hold the same characters.
pub fn eq_vec(s: &Vec<char>, p: &Vec<char>) -> (r: bool)
    ensures
        r == (s@ == p@),
{
    if s.len() != p.len() {
        return false;
    }
    let r = check_at(s, p, 0);
    if r {
        assert(s@ =~= p@) by {
            assert(s@.subrange(0, p@.len() as int) =~= s@);
        }
    } else {
        assert(s@.subrange(0, p@.len() as int) =~= s@);
    }
    r
}

/// Whether two string slices hold the same characters.
pub fn str_eq(a: &str, b: &str) -> (r: bool)
    ensures
        r == (a@ == b@),
{
    let av = chars_vec(a);
    let bv = chars_vec(b);
    eq_vec(&av, &bv)
}

/// Filtering a sequence extended by one element keeps the filtered prefix and
/// appends the new element exactly when it satisfies the predicate.
pub proof fn lemma_filter_push<A>(s: Seq<A>, pred: spec_fn(A) -> bool, x: A)
    ensures
        s.push(x).filter(pred) == if pred(x) {
            s.filter(pred).push(x)
        } else {
            s.filter(pred)
        },
{
    reveal(Seq::filter);
    assert(s.push(x).drop_last() =~= s);
    assert(s.push(x).last() == x);
}

/// Every element of a filtered sequence is an element of the original.
pub proof fn lemma_filter_members<A>(s: Seq<A>, pred: spec_fn(A) -> bool, i: int)
    requires
        0 <= i < s.filter(pred).len(),
    ensures
        s.contains(s.filter(pred)[i]),
    decreases s.len(),
{
    reveal(Seq::filter);
    if s.len() > 0 {
        let f = s.filter(pred);
        let fd = s.drop_last().filter(pred);
        if pred(s.last()) && i == fd.len() {
            assert(f[i] == s.last());
            assert(s[s.len() - 1] == s.last());
        } else {
            assert(f[i] == fd[i]);
            lemma_filter_members(s.drop_last(), pred, i);
            let j = choose|j: int| 0 <= j < s.drop_last().len() && s.drop_last()[j] == fd[i];
            assert(s[j] == fd[i]);
        }
    }
}

} // verus!
