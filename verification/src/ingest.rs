//! The ingestion orchestrator, split at the network boundary: `plan_ingest`
//! turns the two fatal responses (metadata, tree listing) into a plan naming
//! everything left to fetch, and `assemble` folds the best-effort responses
//! (README, manifests, selected files) into the final bundle. The embedding
//! application performs the fetches between the two calls.

use vstd::prelude::*;
use vstd::string::StringExecFns;
use crate::envelope::{decode_envelope, decoded_envelope};
use crate::errors::{IngestError, Stage};
use crate::json::{content_field_of, meta_fields_of, parse_content_field, tree_items_of};
use crate::limits::{clamped_max_files, TREE_CAP};
use crate::rank::{select_files, selected_spec};
use crate::resolve::{
    defaulted, resolve_repo_info, resolve_tree, resolved_tree_spec, tree_truncated_spec, RepoInfo,
};
use crate::text::str_eq;

verus! {

/// One fetched file: its repository-relative path and its decoded text.
#[derive(Clone, Debug)]
pub struct FileEntry {
    /// The repository-relative path the content was fetched for.
    pub path: String,
    /// The decoded file text.
    pub content: String,
}

impl View for FileEntry {
    type V = (Seq<char>, Seq<char>);

    open spec fn view(&self) -> (Seq<char>, Seq<char>) {
        (self.path@, self.content@)
    }
}

impl DeepView for FileEntry {
    type V = (Seq<char>, Seq<char>);

    open spec fn deep_view(&self) -> (Seq<char>, Seq<char>) {
        self.view()
    }
}

/// The assembled ingestion bundle.
#[derive(Clone, Debug)]
pub struct GithubRepoData {
    /// Repository identity and headline metadata.
    pub info: RepoInfo,
    /// The retained working tree, capped in size.
    pub tree: Vec<String>,
    /// The decoded README text, empty when it could not be fetched or
    /// decoded.
    pub readme: String,
    /// The labelled, concatenated dependency manifest texts.
    pub dependencies: String,
    /// The fetched source files, in rank order.
    pub source_files: Vec<FileEntry>,
    /// Whether the working tree was cut to the size cap.
    pub is_truncated: bool,
}

/// What one ingestion still has to fetch, and what is already resolved.
#[derive(Clone, Debug)]
pub struct IngestPlan {
    /// Repository identity and headline metadata.
    pub info: RepoInfo,
    /// The retained working tree, capped in size.
    pub tree: Vec<String>,
    /// Whether the working tree was cut to the size cap.
    pub is_truncated: bool,
    /// The dependency manifests present in the tree, in the fixed recognized
    /// order.
    pub manifests: Vec<String>,
    /// The selected source paths, in rank order.
    pub files: Vec<String>,
}

/// The recognized dependency manifests present in the tree, in the fixed
/// recognized order.
pub open spec fn manifests_present_spec(tree: Seq<Seq<char>>) -> Seq<Seq<char>> {
    (if tree.contains("package.json"@) {
        seq!["package.json"@]
    } else {
        Seq::empty()
    }) + (if tree.contains("requirements.txt"@) {
        seq!["requirements.txt"@]
    } else {
        Seq::empty()
    }) + (if tree.contains("go.mod"@) {
        seq!["go.mod"@]
    } else {
        Seq::empty()
    }) + (if tree.contains("Cargo.toml"@) {
        seq!["Cargo.toml"@]
    } else {
        Seq::empty()
    }) + (if tree.contains("pom.xml"@) {
        seq!["pom.xml"@]
    } else {
        Seq::empty()
    }) + (if tree.contains("build.gradle"@) {
        seq!["build.gradle"@]
    } else {
        Seq::empty()
    })
}

/// Whether the tree holds `name` as an exact path.
fn tree_has(tree: &Vec<String>, name: &str) -> (r: bool)
    ensures
        r == tree.deep_view().contains(name@),
{
    let n = tree.len();
    let mut i: usize = 0;
    while i < n
        invariant
            i <= n,
            n == tree@.len(),
            forall|k: int| 0 <= k < i ==> tree.deep_view()[k] != name@,
        decreases n - i,
    {
        if str_eq(tree[i].as_str(), name) {
            proof {
                assert(tree.deep_view()[i as int] == name@);
            }
            return true;
        }
        proof {
            assert(tree.deep_view()[i as int] == tree@[i as int]@);
        }
        i = i + 1;
    }
    false
}

/// Lists the recognized dependency manifests present in the tree, in the
/// fixed recognized order.
pub fn manifests_present(tree: &Vec<String>) -> (r: Vec<String>)
    ensures
        r.deep_view() == manifests_present_spec(tree.deep_view()),
{
    let mut r: Vec<String> = Vec::new();
    if tree_has(tree, "package.json") {
        r.push(String::from_str("package.json"));
    }
    if tree_has(tree, "requirements.txt") {
        r.push(String::from_str("requirements.txt"));
    }
    if tree_has(tree, "go.mod") {
        r.push(String::from_str("go.mod"));
    }
    if tree_has(tree, "Cargo.toml") {
        r.push(String::from_str("Cargo.toml"));
    }
    if tree_has(tree, "pom.xml") {
        r.push(String::from_str("pom.xml"));
    }
    if tree_has(tree, "build.gradle") {
        r.push(String::from_str("build.gradle"));
    }
    assert(r.deep_view() =~= manifests_present_spec(tree.deep_view()));
    r
}

/// The text one best-effort content fetch yields: the response body's
/// `content` field, envelope-decoded; `None` when the fetch failed, the body
/// was not JSON, the field was absent, or the base64 was malformed.
pub open spec fn fetched_text_spec(body: Option<Seq<char>>) -> Option<Seq<char>> {
    match body {
        None => None,
        Some(b) => match content_field_of(b) {
            None => None,
            Some(c) => decoded_envelope(c),
        },
    }
}

/// Decodes one best-effort content response.
fn fetched_text(body: &Option<String>) -> (r: Option<String>)
    ensures
        r.deep_view() == fetched_text_spec(body.deep_view()),
{
    match body {
        None => None,
        Some(b) => match parse_content_field(b.as_str()) {
            None => None,
            Some(c) => decode_envelope(c.as_str()),
        },
    }
}

/// The README text of the bundle: the decoded response, or empty on any
/// failure along the way.
pub open spec fn readme_spec(body: Option<Seq<char>>) -> Seq<char> {
    match fetched_text_spec(body) {
        Some(t) => t,
        None => Seq::empty(),
    }
}

/// Decodes the README response, best-effort: empty on any failure.
pub fn readme_from_response(body: &Option<String>) -> (r: String)
    ensures
        r@ == readme_spec(body.deep_view()),
{
    match fetched_text(body) {
        Some(t) => t,
        None => String::new(),
    }
}

/// One labelled manifest section of the dependencies text.
pub open spec fn section_spec(name: Seq<char>, text: Seq<char>) -> Seq<char> {
    "\n--- "@ + name + " ---\n"@ + text + "\n"@
}

/// The concatenated dependencies text for the named manifests and their
/// fetched bodies, in order; a manifest whose fetch or decoding failed
/// contributes nothing.
pub open spec fn dependencies_spec(names: Seq<Seq<char>>, bodies: Seq<Option<Seq<char>>>) -> Seq<
    char,
>
    decreases names.len(),
{
    if names.len() == 0 {
        Seq::empty()
    } else {
        let pre = dependencies_spec(names.drop_last(), bodies.drop_last());
        match fetched_text_spec(bodies.last()) {
            None => pre,
            Some(t) => pre + section_spec(names.last(), t),
        }
    }
}

/// Builds the labelled, concatenated dependencies text.
pub fn build_dependencies(names: &Vec<String>, bodies: &Vec<Option<String>>) -> (r: String)
    requires
        names@.len() == bodies@.len(),
    ensures
        r@ == dependencies_spec(names.deep_view(), bodies.deep_view()),
{
    let n = names.len();
    let mut r = String::new();
    let mut i: usize = 0;
    proof {
        assert(names.deep_view().subrange(0, 0) =~= Seq::<Seq<char>>::empty());
        assert(bodies.deep_view().subrange(0, 0) =~= Seq::<Option<Seq<char>>>::empty());
    }
    while i < n
        invariant
            i <= n,
            n == names@.len(),
            n == bodies@.len(),
            r@ == dependencies_spec(
                names.deep_view().subrange(0, i as int),
                bodies.deep_view().subrange(0, i as int),
            ),
        decreases n - i,
    {
        let ghost ndv = names.deep_view();
        let ghost bdv = bodies.deep_view();
        let ghost before = r@;
        proof {
            assert(ndv.subrange(0, i + 1).drop_last() =~= ndv.subrange(0, i as int));
            assert(bdv.subrange(0, i + 1).drop_last() =~= bdv.subrange(0, i as int));
            assert(ndv.subrange(0, i + 1).last() == ndv[i as int]);
            assert(bdv.subrange(0, i + 1).last() == bdv[i as int]);
            assert(ndv[i as int] == names@[i as int]@);
        }
        match fetched_text(&bodies[i]) {
            Some(t) => {
                r.append("\n--- ");
                r.append(names[i].as_str());
                r.append(" ---\n");
                r.append(t.as_str());
                r.append("\n");
                proof {
                    assert(r@ =~= before + section_spec(ndv[i as int], t@));
                    assert(r@ == dependencies_spec(
                        ndv.subrange(0, i + 1),
                        bdv.subrange(0, i + 1),
                    ));
                }
            },
            None => {
                proof {
                    assert(r@ == dependencies_spec(
                        ndv.subrange(0, i + 1),
                        bdv.subrange(0, i + 1),
                    ));
                }
            },
        }
        i = i + 1;
    }
    proof {
        assert(names.deep_view().subrange(0, n as int) =~= names.deep_view());
        assert(bodies.deep_view().subrange(0, n as int) =~= bodies.deep_view());
    }
    r
}

/// The fetched source files for the selected paths and their response
/// bodies, in rank order; a path whose fetch or decoding failed is omitted.
pub open spec fn source_files_spec(paths: Seq<Seq<char>>, bodies: Seq<Option<Seq<char>>>) -> Seq<
    (Seq<char>, Seq<char>),
>
    decreases paths.len(),
{
    if paths.len() == 0 {
        Seq::empty()
    } else {
        let pre = source_files_spec(paths.drop_last(), bodies.drop_last());
        match fetched_text_spec(bodies.last()) {
            None => pre,
            Some(t) => pre.push((paths.last(), t)),
        }
    }
}

/// Every fetched source file is one of the paths it was fetched for.
pub proof fn lemma_source_files_from_selection(
    paths: Seq<Seq<char>>,
    bodies: Seq<Option<Seq<char>>>,
    i: int,
)
    requires
        0 <= i < source_files_spec(paths, bodies).len(),
    ensures
        paths.contains(source_files_spec(paths, bodies)[i].0),
    decreases paths.len(),
{
    let f = source_files_spec(paths, bodies);
    let fd = source_files_spec(paths.drop_last(), bodies.drop_last());
    if fetched_text_spec(bodies.last()) is Some && i == fd.len() {
        assert(f[i].0 == paths.last());
        assert(paths[paths.len() - 1] == paths.last());
    } else {
        assert(f[i] == fd[i]);
        lemma_source_files_from_selection(paths.drop_last(), bodies.drop_last(), i);
        let j = choose|j: int|
            0 <= j < paths.drop_last().len() && paths.drop_last()[j] == fd[i].0;
        assert(paths[j] == fd[i].0);
    }
}

/// Decodes the selected files' responses into file entries, in rank order,
/// omitting every file whose fetch or decoding failed.
pub fn build_source_files(paths: &Vec<String>, bodies: &Vec<Option<String>>) -> (r: Vec<FileEntry>)
    requires
        paths@.len() == bodies@.len(),
    ensures
        r.deep_view() == source_files_spec(paths.deep_view(), bodies.deep_view()),
{
    let n = paths.len();
    let mut r: Vec<FileEntry> = Vec::new();
    let mut i: usize = 0;
    proof {
        assert(paths.deep_view().subrange(0, 0) =~= Seq::<Seq<char>>::empty());
        assert(bodies.deep_view().subrange(0, 0) =~= Seq::<Option<Seq<char>>>::empty());
    }
    while i < n
        invariant
            i <= n,
            n == paths@.len(),
            n == bodies@.len(),
            r.deep_view() == source_files_spec(
                paths.deep_view().subrange(0, i as int),
                bodies.deep_view().subrange(0, i as int),
            ),
        decreases n - i,
    {
        let ghost pdv = paths.deep_view();
        let ghost bdv = bodies.deep_view();
        let ghost before = r.deep_view();
        proof {
            assert(pdv.subrange(0, i + 1).drop_last() =~= pdv.subrange(0, i as int));
            assert(bdv.subrange(0, i + 1).drop_last() =~= bdv.subrange(0, i as int));
            assert(pdv.subrange(0, i + 1).last() == pdv[i as int]);
            assert(bdv.subrange(0, i + 1).last() == bdv[i as int]);
            assert(pdv[i as int] == paths@[i as int]@);
        }
        match fetched_text(&bodies[i]) {
            Some(t) => {
                let ghost tv = t@;
                r.push(FileEntry { path: paths[i].clone(), content: t });
                proof {
                    assert(r.deep_view() =~= before.push((pdv[i as int], tv)));
                    assert(r.deep_view() == source_files_spec(
                        pdv.subrange(0, i + 1),
                        bdv.subrange(0, i + 1),
                    ));
                }
            },
            None => {
                proof {
                    assert(r.deep_view() == source_files_spec(
                        pdv.subrange(0, i + 1),
                        bdv.subrange(0, i + 1),
                    ));
                }
            },
        }
        i = i + 1;
    }
    proof {
        assert(paths.deep_view().subrange(0, n as int) =~= paths.deep_view());
        assert(bodies.deep_view().subrange(0, n as int) =~= bodies.deep_view());
    }
    r
}

/// Plans one ingestion from the two fatal responses: resolves the repository
/// info with its defaults, resolves and caps the working tree, lists the
/// manifests present, and selects the source paths to fetch. Fails exactly
/// when the metadata or tree body is not JSON, naming the failing stage.
pub fn plan_ingest(
    owner: String,
    repo: String,
    metadata_body: &str,
    tree_body: &str,
    max_files: Option<u32>,
) -> (r: Result<IngestPlan, IngestError>)
    ensures
        r is Ok <==> (meta_fields_of(metadata_body@) is Some && tree_items_of(tree_body@)
            is Some),
        meta_fields_of(metadata_body@) is None ==> r.unwrap_err() matches IngestError::Decode {
            stage: Stage::Metadata,
        },
        meta_fields_of(metadata_body@) is Some && tree_items_of(tree_body@) is None
            ==> r.unwrap_err() matches IngestError::Decode { stage: Stage::Tree },
        r is Ok ==> {
            &&& r.unwrap().info.owner == owner
            &&& r.unwrap().info.repo == repo
            &&& r.unwrap().info.default_branch@ == defaulted(
                meta_fields_of(metadata_body@).unwrap().0,
                "main"@,
            )
            &&& r.unwrap().info.description@ == defaulted(
                meta_fields_of(metadata_body@).unwrap().1,
                "No description provided."@,
            )
            &&& r.unwrap().tree.deep_view() == resolved_tree_spec(tree_body@)
            &&& r.unwrap().tree@.len() <= TREE_CAP
            &&& r.unwrap().is_truncated == tree_truncated_spec(tree_body@)
            &&& r.unwrap().manifests.deep_view() == manifests_present_spec(
                resolved_tree_spec(tree_body@),
            )
            &&& r.unwrap().files.deep_view() == selected_spec(
                resolved_tree_spec(tree_body@),
                max_files,
            )
            &&& r.unwrap().files@.len() <= clamped_max_files(max_files)
        },
{
    let info = match resolve_repo_info(owner, repo, metadata_body) {
        Ok(info) => info,
        Err(e) => {
            return Err(e);
        },
    };
    let (tree, is_truncated) = match resolve_tree(tree_body) {
        Ok(t) => t,
        Err(e) => {
            return Err(e);
        },
    };
    let manifests = manifests_present(&tree);
    let files = select_files(&tree, max_files);
    Ok(IngestPlan { info, tree, is_truncated, manifests, files })
}

/// Folds the best-effort responses into the final bundle: the README
/// decoded or empty, the manifests concatenated in order, the selected
/// files decoded in rank order with failures omitted, and the plan's
/// resolved fields passed through.
pub fn assemble(
    plan: IngestPlan,
    readme_body: &Option<String>,
    manifest_bodies: &Vec<Option<String>>,
    file_bodies: &Vec<Option<String>>,
) -> (r: GithubRepoData)
    requires
        manifest_bodies@.len() == plan.manifests@.len(),
        file_bodies@.len() == plan.files@.len(),
    ensures
        r.info == plan.info,
        r.tree == plan.tree,
        r.is_truncated == plan.is_truncated,
        r.readme@ == readme_spec(readme_body.deep_view()),
        r.dependencies@ == dependencies_spec(
            plan.manifests.deep_view(),
            manifest_bodies.deep_view(),
        ),
        r.source_files.deep_view() == source_files_spec(
            plan.files.deep_view(),
            file_bodies.deep_view(),
        ),
{
    let readme = readme_from_response(readme_body);
    let dependencies = build_dependencies(&plan.manifests, manifest_bodies);
    let source_files = build_source_files(&plan.files, file_bodies);
    GithubRepoData {
        info: plan.info,
        tree: plan.tree,
        readme,
        dependencies,
        source_files,
        is_truncated: plan.is_truncated,
    }
}

} // verus!
