//! Ranking and selection: candidate paths are scored, sorted by score
//! descending with the original tree order breaking ties, and the top
//! bounded number is kept.

use vstd::prelude::*;
use vstd::multiset::Multiset;
use vstd::relations::{sorted_by, total_ordering};
use vstd::seq_lib::lemma_sorted_unique;
use crate::bridge::{lower_of, lowercase};
use crate::classify::{candidate_spec, is_source_candidate};
use crate::limits::{clamp_max_files, clamped_max_files};
use crate::score::{score_lowered, score_spec};
use crate::text::lemma_filter_push;

verus! {

broadcast use vstd::seq_lib::group_to_multiset_ensures, vstd::multiset::group_multiset_axioms;

/// A candidate's score, paired with its position in the candidate list.
#[derive(Clone, Copy, Debug, PartialEq, Eq, Structural)]
pub struct ScoredIdx {
    /// The relevance score of the candidate path.
    pub score: i128,
    /// The candidate's position in the original candidate order.
    pub pos: usize,
}

/// The ranking order: higher score first, earlier original position first
/// among equal scores.
pub open spec fn rank_leq() -> spec_fn(ScoredIdx, ScoredIdx) -> bool {
    |a: ScoredIdx, b: ScoredIdx| a.score > b.score || (a.score == b.score && a.pos <= b.pos)
}

/// The ranking order is a total order.
pub proof fn lemma_rank_leq_total()
    ensures
        total_ordering(rank_leq()),
{
    let r = rank_leq();
    assert forall|x: ScoredIdx| #[trigger] r(x, x) by {}
    assert forall|x: ScoredIdx, y: ScoredIdx| #[trigger] r(x, y) && #[trigger] r(y, x) implies x
        == y by {}
    assert forall|x: ScoredIdx, y: ScoredIdx, z: ScoredIdx|
        #[trigger] r(x, y) && #[trigger] r(y, z) implies r(x, z) by {}
    assert forall|x: ScoredIdx, y: ScoredIdx| !(#[trigger] r(x, y)) implies #[trigger] r(y, x) by {}
}

/// Whether `a` ranks at or before `b`.
fn scored_before(a: &ScoredIdx, b: &ScoredIdx) -> (r: bool)
    ensures
        r == rank_leq()(*a, *b),
{
    a.score > b.score || (a.score == b.score && a.pos <= b.pos)
}

/// Each candidate path scored and tagged with its position.
pub open spec fn scored_seq(cands: Seq<Seq<char>>) -> Seq<ScoredIdx> {
    Seq::new(
        cands.len(),
        |i: int| ScoredIdx { score: score_spec(lower_of(cands[i])) as i128, pos: i as usize },
    )
}

/// The scored candidates, sorted by the ranking order.
pub open spec fn ranked_of(cands: Seq<Seq<char>>) -> Seq<ScoredIdx> {
    scored_seq(cands).sort_by(rank_leq())
}

/// Scores every path of the candidate list, tagging each with its position.
pub fn rank_paths(paths: &Vec<String>) -> (r: Vec<ScoredIdx>)
    ensures
        r@ == scored_seq(paths.deep_view()),
{
    let n = paths.len();
    let mut r: Vec<ScoredIdx> = Vec::new();
    let mut i: usize = 0;
    while i < n
        invariant
            i <= n,
            n == paths@.len(),
            r@.len() == i,
            forall|k: int| 0 <= k < i ==> r@[k] == scored_seq(paths.deep_view())[k],
        decreases n - i,
    {
        let low = lowercase(paths[i].as_str());
        let s = score_lowered(low.as_str());
        proof {
            assert(paths.deep_view()[i as int] == paths@[i as int]@);
        }
        r.push(ScoredIdx { score: s, pos: i });
        i = i + 1;
    }
    assert(r@ =~= scored_seq(paths.deep_view()));
    r
}

/// Sorts scored candidates by the ranking order.
pub fn sort_scored(v: Vec<ScoredIdx>) -> (r: Vec<ScoredIdx>)
    ensures
        r@ == v@.sort_by(rank_leq()),
{
    let ghost orig = v@;
    let mut rem = v;
    let mut out: Vec<ScoredIdx> = Vec::new();
    proof {
        assert(out@.to_multiset().add(rem@.to_multiset()) =~= orig.to_multiset());
    }
    while rem.len() > 0
        invariant
            out@.to_multiset().add(rem@.to_multiset()) == orig.to_multiset(),
            sorted_by(out@, rank_leq()),
            forall|i: int, j: int|
                0 <= i < out@.len() && 0 <= j < rem@.len() ==> #[trigger] rank_leq()(
                    out@[i],
                    rem@[j],
                ),
        decreases rem@.len(),
    {
        let ghost pre = rem@;
        let best = least_index(&rem);
        let x = rem.remove(best);
        proof {
            assert(pre.contains(x)) by {
                assert(pre[best as int] == x);
            }
            assert(rem@ == pre.remove(best as int));
            assert(pre.remove(best as int).to_multiset() =~= pre.to_multiset().remove(x));
            assert(rem@.to_multiset() =~= pre.to_multiset().remove(x));
            assert(out@.push(x).to_multiset() =~= out@.to_multiset().insert(x));
            assert(out@.push(x).to_multiset().add(rem@.to_multiset()) =~= orig.to_multiset());
            pre.remove_ensures(best as int);
            assert(forall|j: int|
                0 <= j < rem@.len() ==> #[trigger] rank_leq()(x, rem@[j]));
            assert forall|i: int, j: int|
                0 <= i < out@.push(x).len() && 0 <= j < rem@.len() implies #[trigger] rank_leq()(
                out@.push(x)[i],
                rem@[j],
            ) by {
                if i < out@.len() {
                    assert(rem@[j] == pre[if j < best { j } else { j + 1 }]);
                }
            }
            assert forall|i: int, j: int| 0 <= i < j < out@.push(x).len() implies rank_leq()(
                out@.push(x)[i],
                out@.push(x)[j],
            ) by {
                if j == out@.len() {
                    assert(rank_leq()(out@[i], pre[best as int]));
                }
            }
        }
        out.push(x);
    }
    proof {
        lemma_rank_leq_total();
        orig.lemma_sort_by_ensures(rank_leq());
        assert forall|e: ScoredIdx| rem@.to_multiset().count(e) == 0 by {
            assert(!rem@.contains(e));
        }
        assert(rem@.to_multiset() =~= Multiset::<ScoredIdx>::empty());
        assert(out@.to_multiset() =~= orig.to_multiset());
        lemma_sorted_unique(out@, orig.sort_by(rank_leq()), rank_leq());
    }
    out
}

/// The index of the element that ranks at or before every element.
fn least_index(rem: &Vec<ScoredIdx>) -> (best: usize)
    requires
        rem@.len() > 0,
    ensures
        best < rem@.len(),
        forall|t: int| 0 <= t < rem@.len() ==> #[trigger] rank_leq()(rem@[best as int], rem@[t]),
{
    proof {
        lemma_rank_leq_total();
    }
    let n = rem.len();
    let mut best: usize = 0;
    let mut k: usize = 1;
    while k < n
        invariant
            n == rem@.len(),
            best < k <= n,
            forall|t: int| 0 <= t < k ==> #[trigger] rank_leq()(rem@[best as int], rem@[t]),
            total_ordering(rank_leq()),
        decreases n - k,
    {
        if scored_before(&rem[k], &rem[best]) {
            proof {
                assert forall|t: int| 0 <= t < k + 1 implies #[trigger] rank_leq()(
                    rem@[k as int],
                    rem@[t],
                ) by {
                    if t < k {
                        assert(rank_leq()(rem@[best as int], rem@[t]));
                    }
                }
            }
            best = k;
        } else {
            proof {
                assert(rank_leq()(rem@[best as int], rem@[k as int]));
            }
        }
        k = k + 1;
    }
    best
}

/// The candidate test, as a value that `Seq::filter` can take.
pub open spec fn candidate_pred() -> spec_fn(Seq<char>) -> bool {
    |p: Seq<char>| candidate_spec(p)
}

/// The paths of `tree` that are eligible for selection, in tree order.
pub open spec fn candidates_spec(tree: Seq<Seq<char>>) -> Seq<Seq<char>> {
    tree.filter(candidate_pred())
}

/// The paths selected for fetching: the candidates, ranked, cut to the
/// clamped bound, mapped back to their path strings in rank order.
pub open spec fn selected_spec(tree: Seq<Seq<char>>, max_files: Option<u32>) -> Seq<Seq<char>> {
    let cands = candidates_spec(tree);
    let ranked = ranked_of(cands);
    let n = if clamped_max_files(max_files) < cands.len() {
        clamped_max_files(max_files)
    } else {
        cands.len()
    };
    Seq::new(n, |i: int| cands[ranked[i].pos as int])
}

/// Every entry of the ranked candidate list points back into the candidates.
proof fn lemma_ranked_pos_in_range(cands: Seq<Seq<char>>, i: int)
    requires
        cands.len() <= usize::MAX,
        0 <= i < ranked_of(cands).len(),
    ensures
        ranked_of(cands)[i].pos < cands.len(),
{
    lemma_rank_leq_total();
    let sseq = scored_seq(cands);
    sseq.lemma_sort_by_ensures(rank_leq());
    let ranked = ranked_of(cands);
    assert(ranked.contains(ranked[i])) by {
        assert(ranked[i] == ranked[i]);
    }
    assert(sseq.to_multiset().count(ranked[i]) > 0);
    assert(sseq.contains(ranked[i]));
    let j = choose|j: int| 0 <= j < sseq.len() && sseq[j] == ranked[i];
    assert(sseq[j].pos == j as usize);
}

/// The ranked list is exactly as long as the candidate list.
proof fn lemma_ranked_len(cands: Seq<Seq<char>>)
    ensures
        ranked_of(cands).len() == cands.len(),
{
    broadcast use vstd::seq_lib::group_to_multiset_ensures;

    lemma_rank_leq_total();
    let sseq = scored_seq(cands);
    sseq.lemma_sort_by_ensures(rank_leq());
    assert(sseq.to_multiset().len() == ranked_of(cands).to_multiset().len());
}

/// Filters the tree down to the selection candidates, in tree order.
pub fn filter_candidates(tree: &Vec<String>) -> (r: Vec<String>)
    ensures
        r.deep_view() == candidates_spec(tree.deep_view()),
{
    let n = tree.len();
    let mut r: Vec<String> = Vec::new();
    let mut i: usize = 0;
    proof {
        assert(tree.deep_view().subrange(0, 0) =~= Seq::<Seq<char>>::empty());
        assert(Seq::<Seq<char>>::empty().filter(candidate_pred())
            =~= Seq::<Seq<char>>::empty()) by {
            reveal(Seq::filter);
        }
    }
    while i < n
        invariant
            i <= n,
            n == tree@.len(),
            r.deep_view() == tree.deep_view().subrange(0, i as int).filter(candidate_pred()),
        decreases n - i,
    {
        let ghost dv = tree.deep_view();
        let ghost before = r.deep_view();
        proof {
            assert(dv.subrange(0, i + 1) =~= dv.subrange(0, i as int).push(dv[i as int]));
            lemma_filter_push(dv.subrange(0, i as int), candidate_pred(), dv[i as int]);
            assert(dv[i as int] == tree@[i as int]@);
            assert(candidate_pred()(dv[i as int]) == candidate_spec(dv[i as int]));
        }
        if is_source_candidate(tree[i].as_str()) {
            r.push(tree[i].clone());
            proof {
                assert(r.deep_view() =~= before.push(dv[i as int]));
                assert(r.deep_view() == dv.subrange(0, i + 1).filter(candidate_pred()));
            }
        } else {
            proof {
                assert(r.deep_view() == dv.subrange(0, i + 1).filter(candidate_pred()));
            }
        }
        i = i + 1;
    }
    proof {
        assert(tree.deep_view().subrange(0, n as int) =~= tree.deep_view());
    }
    r
}

/// Selects the paths to fetch from the working tree: eligible candidates,
/// ranked by score with ties in tree order, cut to the clamped bound.
pub fn select_files(tree: &Vec<String>, max_files: Option<u32>) -> (r: Vec<String>)
    ensures
        r.deep_view() == selected_spec(tree.deep_view(), max_files),
        r@.len() <= clamped_max_files(max_files),
{
    let cands = filter_candidates(tree);
    let scored = rank_paths(&cands);
    let sorted = sort_scored(scored);
    let limit = clamp_max_files(max_files);
    let take = if limit < sorted.len() {
        limit
    } else {
        sorted.len()
    };
    proof {
        lemma_ranked_len(cands.deep_view());
    }
    let cands_len = cands.len();
    let mut out: Vec<String> = Vec::new();
    let mut i: usize = 0;
    while i < take
        invariant
            i <= take,
            take <= sorted@.len(),
            cands_len == cands@.len(),
            take == if clamped_max_files(max_files) < cands.deep_view().len() {
                clamped_max_files(max_files)
            } else {
                cands.deep_view().len()
            },
            sorted@ == ranked_of(cands.deep_view()),
            cands.deep_view() == candidates_spec(tree.deep_view()),
            sorted@.len() == cands@.len(),
            out@.len() == i,
            forall|k: int|
                0 <= k < i ==> out.deep_view()[k] == selected_spec(tree.deep_view(), max_files)[k],
        decreases take - i,
    {
        proof {
            lemma_ranked_pos_in_range(cands.deep_view(), i as int);
        }
        let p = sorted[i].pos;
        let ghost before = out.deep_view();
        out.push(cands[p].clone());
        proof {
            assert(cands.deep_view()[p as int] == cands@[p as int]@);
            assert(out.deep_view() =~= before.push(cands.deep_view()[p as int]));
            assert(selected_spec(tree.deep_view(), max_files)[i as int] == candidates_spec(
                tree.deep_view(),
            )[sorted@[i as int].pos as int]);
            assert(out.deep_view()[i as int] == selected_spec(tree.deep_view(), max_files)[
                i as int]);
        }
        i = i + 1;
    }
    assert(out.deep_view() =~= selected_spec(tree.deep_view(), max_files));
    out
}

/// Every selected path comes from the tree it was selected from. The tree is
/// one a machine can hold.
pub proof fn lemma_selected_paths_in_tree(tree: Seq<Seq<char>>, max_files: Option<u32>, i: int)
    requires
        tree.len() <= usize::MAX,
        0 <= i < selected_spec(tree, max_files).len(),
    ensures
        tree.contains(selected_spec(tree, max_files)[i]),
{
    let cands = candidates_spec(tree);
    tree.lemma_filter_len(candidate_pred());
    lemma_ranked_len(cands);
    lemma_ranked_pos_in_range(cands, i);
    let p = ranked_of(cands)[i].pos;
    assert(selected_spec(tree, max_files)[i] == cands[p as int]);
    crate::text::lemma_filter_members(tree, candidate_pred(), p as int);
}

/// Ranking is stable: among candidates of equal score, the earlier candidate
/// in the original tree order stays ahead after sorting. The candidate list
/// is one a machine can hold.
pub proof fn lemma_ranking_stable(cands: Seq<Seq<char>>, i: int, j: int)
    requires
        cands.len() <= usize::MAX,
        0 <= i < j < ranked_of(cands).len(),
        ranked_of(cands)[i].score == ranked_of(cands)[j].score,
    ensures
        ranked_of(cands)[i].pos < ranked_of(cands)[j].pos,
{
    lemma_rank_leq_total();
    let sseq = scored_seq(cands);
    sseq.lemma_sort_by_ensures(rank_leq());
    let ranked = ranked_of(cands);
    assert(rank_leq()(ranked[i], ranked[j]));
    assert(ranked[i].pos <= ranked[j].pos);
    if ranked[i].pos == ranked[j].pos {
        assert(ranked[i] == ranked[j]);
        assert(sseq.no_duplicates()) by {
            assert forall|a: int, b: int|
                0 <= a < sseq.len() && 0 <= b < sseq.len() && a != b implies sseq[a]
                != sseq[b] by {
                assert(sseq[a].pos == a as usize);
                assert(sseq[b].pos == b as usize);
            }
        }
        sseq.lemma_multiset_has_no_duplicates();
        assert(forall|x: ScoredIdx|
            ranked.to_multiset().contains(x) ==> ranked.to_multiset().count(x) == 1);
        ranked.lemma_multiset_has_no_duplicates_conv();
        assert(false);
    }
}

} // verus!
