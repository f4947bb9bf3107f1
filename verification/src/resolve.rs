//! Tree resolution: repository metadata with defaults, blob retention from
//! the tree listing, classification filtering, and the size cap on the
//! resulting tree.

use vstd::prelude::*;
use vstd::string::StringExecFns;
use crate::classify::{classify, retained_spec};
use crate::errors::{IngestError, Stage};
use crate::json::{meta_fields_of, parse_repo_metadata, parse_tree_items, tree_items_of};
use crate::limits::TREE_CAP;
use crate::text::{lemma_filter_push, str_eq};

verus! {

/// Repository identity and headline metadata.
#[derive(Clone, Debug)]
pub struct RepoInfo {
    /// The owner the repository was requested under.
    pub owner: String,
    /// The repository name.
    pub repo: String,
    /// The reported default branch, or `main` when none was reported.
    pub default_branch: String,
    /// The reported description, or a fixed placeholder when none was
    /// reported.
    pub description: String,
}

/// A reported field, or its default when absent.
pub open spec fn defaulted(field: Option<Seq<char>>, default: Seq<char>) -> Seq<char> {
    match field {
        Some(s) => s,
        None => default,
    }
}

/// Builds the repository info from the reported metadata fields, defaulting
/// the branch to `main` and the description to a fixed placeholder.
pub fn repo_info_from_fields(
    owner: String,
    repo: String,
    branch: Option<String>,
    description: Option<String>,
) -> (info: RepoInfo)
    ensures
        info.owner == owner,
        info.repo == repo,
        info.default_branch@ == defaulted(branch.deep_view(), "main"@),
        info.description@ == defaulted(description.deep_view(), "No description provided."@),
{
    let default_branch = match branch {
        Some(b) => b,
        None => String::from_str("main"),
    };
    let description = match description {
        Some(d) => d,
        None => String::from_str("No description provided."),
    };
    RepoInfo { owner, repo, default_branch, description }
}

/// Reads the repository metadata body and builds the repository info, with
/// the stated defaults; fails only when the body is not JSON.
pub fn resolve_repo_info(owner: String, repo: String, body: &str) -> (r: Result<
    RepoInfo,
    IngestError,
>)
    ensures
        r is Ok <==> meta_fields_of(body@) is Some,
        r is Err ==> r.unwrap_err() matches IngestError::Decode { stage: Stage::Metadata },
        r is Ok ==> r.unwrap().owner == owner,
        r is Ok ==> r.unwrap().repo == repo,
        r is Ok ==> r.unwrap().default_branch@ == defaulted(
            meta_fields_of(body@).unwrap().0,
            "main"@,
        ),
        r is Ok ==> r.unwrap().description@ == defaulted(
            meta_fields_of(body@).unwrap().1,
            "No description provided."@,
        ),
{
    match parse_repo_metadata(body) {
        None => Err(IngestError::Decode { stage: Stage::Metadata }),
        Some((branch, description)) => {
            proof {
                assert(branch.deep_view() == meta_fields_of(body@).unwrap().0);
                assert(description.deep_view() == meta_fields_of(body@).unwrap().1);
            }
            Ok(repo_info_from_fields(owner, repo, branch, description))
        },
    }
}

/// The paths of the blob-typed entries, in listing order: entries whose
/// `type` is `blob` and that carry a path.
pub open spec fn blob_paths_spec(items: Seq<(Option<Seq<char>>, Option<Seq<char>>)>) -> Seq<
    Seq<char>,
>
    decreases items.len(),
{
    if items.len() == 0 {
        Seq::empty()
    } else {
        let rest = blob_paths_spec(items.drop_last());
        let it = items.last();
        if it.1 == Some("blob"@) && it.0 is Some {
            rest.push(it.0.unwrap())
        } else {
            rest
        }
    }
}

/// Keeps the paths of the blob-typed entries, in listing order.
pub fn blob_paths(items: &Vec<(Option<String>, Option<String>)>) -> (r: Vec<String>)
    ensures
        r.deep_view() == blob_paths_spec(items.deep_view()),
{
    let n = items.len();
    let mut r: Vec<String> = Vec::new();
    let mut i: usize = 0;
    proof {
        assert(items.deep_view().subrange(0, 0)
            =~= Seq::<(Option<Seq<char>>, Option<Seq<char>>)>::empty());
    }
    while i < n
        invariant
            i <= n,
            n == items@.len(),
            r.deep_view() == blob_paths_spec(items.deep_view().subrange(0, i as int)),
        decreases n - i,
    {
        let ghost dv = items.deep_view();
        let ghost before = r.deep_view();
        proof {
            assert(dv.subrange(0, i + 1).drop_last() =~= dv.subrange(0, i as int));
            assert(dv.subrange(0, i + 1).last() == dv[i as int]);
            assert(dv[i as int].0 == items@[i as int].0.deep_view());
            assert(dv[i as int].1 == items@[i as int].1.deep_view());
        }
        let is_blob = match &items[i].1 {
            Some(t) => str_eq(t.as_str(), "blob"),
            None => false,
        };
        if is_blob {
            match &items[i].0 {
                Some(p) => {
                    r.push(p.clone());
                    proof {
                        assert(r.deep_view() =~= before.push(dv[i as int].0.unwrap()));
                    }
                },
                None => {},
            }
        }
        proof {
            assert(r.deep_view() == blob_paths_spec(dv.subrange(0, i + 1)));
        }
        i = i + 1;
    }
    proof {
        assert(items.deep_view().subrange(0, n as int) =~= items.deep_view());
    }
    r
}

/// The retention test, as a value that `Seq::filter` can take.
pub open spec fn retained_pred() -> spec_fn(Seq<char>) -> bool {
    |p: Seq<char>| retained_spec(p)
}

/// Keeps the paths that the classifier retains: neither hard-ignored nor a
/// secret.
pub fn filter_retained(paths: &Vec<String>) -> (r: Vec<String>)
    ensures
        r.deep_view() == paths.deep_view().filter(retained_pred()),
{
    let n = paths.len();
    let mut r: Vec<String> = Vec::new();
    let mut i: usize = 0;
    proof {
        assert(paths.deep_view().subrange(0, 0) =~= Seq::<Seq<char>>::empty());
        assert(Seq::<Seq<char>>::empty().filter(retained_pred())
            =~= Seq::<Seq<char>>::empty()) by {
            reveal(Seq::filter);
        }
    }
    while i < n
        invariant
            i <= n,
            n == paths@.len(),
            r.deep_view() == paths.deep_view().subrange(0, i as int).filter(retained_pred()),
        decreases n - i,
    {
        let ghost dv = paths.deep_view();
        let ghost before = r.deep_view();
        proof {
            assert(dv.subrange(0, i + 1) =~= dv.subrange(0, i as int).push(dv[i as int]));
            lemma_filter_push(dv.subrange(0, i as int), retained_pred(), dv[i as int]);
            assert(dv[i as int] == paths@[i as int]@);
            assert(retained_pred()(dv[i as int]) == retained_spec(dv[i as int]));
        }
        let c = classify(paths[i].as_str());
        if !c.hard_ignored && !c.secret {
            r.push(paths[i].clone());
            proof {
                assert(r.deep_view() =~= before.push(dv[i as int]));
                assert(r.deep_view() == dv.subrange(0, i + 1).filter(retained_pred()));
            }
        } else {
            proof {
                assert(r.deep_view() == dv.subrange(0, i + 1).filter(retained_pred()));
            }
        }
        i = i + 1;
    }
    proof {
        assert(paths.deep_view().subrange(0, n as int) =~= paths.deep_view());
    }
    r
}

/// Caps the tree at the size bound, keeping the first entries in order.
/// Returns whether anything was cut.
pub fn truncate_tree(tree: &mut Vec<String>) -> (truncated: bool)
    ensures
        truncated == (old(tree)@.len() > TREE_CAP),
        final(tree)@ == if old(tree)@.len() > TREE_CAP {
            old(tree)@.subrange(0, TREE_CAP as int)
        } else {
            old(tree)@
        },
{
    if tree.len() > TREE_CAP {
        tree.truncate(TREE_CAP);
        true
    } else {
        false
    }
}

/// The retained working tree of a tree-listing body: its blob paths, kept
/// only where the classifier retains them. Meaningful when the body parsed.
pub open spec fn retained_tree_spec(body: Seq<char>) -> Seq<Seq<char>> {
    blob_paths_spec(tree_items_of(body).unwrap()).filter(retained_pred())
}

/// The resolved tree: the retained tree, cut to the size cap.
pub open spec fn resolved_tree_spec(body: Seq<char>) -> Seq<Seq<char>> {
    let kept = retained_tree_spec(body);
    if kept.len() > TREE_CAP {
        kept.subrange(0, TREE_CAP as int)
    } else {
        kept
    }
}

/// Whether resolving the tree cut anything.
pub open spec fn tree_truncated_spec(body: Seq<char>) -> bool {
    retained_tree_spec(body).len() > TREE_CAP
}

/// Every path of a resolved tree is retained: nothing hard-ignored and
/// nothing secret survives tree resolution.
pub proof fn lemma_resolved_tree_retained(body: Seq<char>, i: int)
    requires
        0 <= i < resolved_tree_spec(body).len(),
    ensures
        retained_spec(resolved_tree_spec(body)[i]),
{
    let blobs = blob_paths_spec(tree_items_of(body).unwrap());
    let kept = retained_tree_spec(body);
    assert(resolved_tree_spec(body)[i] == kept[i]);
    blobs.lemma_filter_pred(retained_pred(), i);
    assert(retained_pred()(kept[i]) == retained_spec(kept[i]));
}

/// Resolves the working tree from a tree-listing body: keeps blob paths,
/// applies the retention filter, and caps the size. Fails only when the body
/// is not JSON; an absent or malformed `tree` array resolves to an empty
/// tree.
pub fn resolve_tree(body: &str) -> (r: Result<(Vec<String>, bool), IngestError>)
    ensures
        r is Ok <==> tree_items_of(body@) is Some,
        r is Err ==> r.unwrap_err() matches IngestError::Decode { stage: Stage::Tree },
        r is Ok ==> r.unwrap().0.deep_view() == resolved_tree_spec(body@),
        r is Ok ==> r.unwrap().1 == tree_truncated_spec(body@),
        r is Ok ==> r.unwrap().0.deep_view().len() <= TREE_CAP,
{
    match parse_tree_items(body) {
        None => Err(IngestError::Decode { stage: Stage::Tree }),
        Some(items) => {
            proof {
                assert(items.deep_view() == tree_items_of(body@).unwrap());
            }
            let blobs = blob_paths(&items);
            let mut tree = filter_retained(&blobs);
            let truncated = truncate_tree(&mut tree);
            proof {
                assert(tree.deep_view() =~= resolved_tree_spec(body@));
            }
            Ok((tree, truncated))
        },
    }
}

} // verus!
