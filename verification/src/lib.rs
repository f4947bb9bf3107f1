//! Repository ingestion and file selection.
//!
//! Reduces a remote source-code repository to a small, high-signal bundle:
//! repository metadata, a bounded file tree, a README, dependency manifests,
//! and a ranked, bounded set of source files chosen by a scoring heuristic.
//! The pure decision pipeline (classification, scoring, ranking, truncation,
//! envelope decoding, bundle assembly) is verified; network transport is left
//! to the embedding application, which fetches what `plan_ingest` names and
//! hands the response bodies back to `assemble`.

mod bridge;
mod classify;
mod credential;
mod envelope;
mod errors;
mod ingest;
mod json;
mod limits;
mod localscan;
mod rank;
mod resolve;
mod score;
mod text;

pub use bridge::{ascii_lower, ascii_lower_char, base64_decoded, lower_of, trim_of, utf8_lossy_of};
pub use classify::{
    candidate_spec, classify, hard_ignored_spec, is_dependency_manifest, is_source_candidate,
    lemma_env_and_key_files_secret, lemma_vendor_and_vcs_dirs_hard_ignored, manifest_name_spec,
    retained_spec, secret_mark, secret_spec, segment_of, source_ext_spec, Classification,
};
pub use credential::{chosen_key_spec, normalize_proxy, normalized_proxy_spec, resolve_credential};
pub use envelope::{decode_envelope, decoded_envelope, keep_char, stripped};
pub use errors::{IngestError, Stage};
pub use ingest::{
    assemble, build_dependencies, build_source_files, dependencies_spec, fetched_text_spec,
    lemma_source_files_from_selection, manifests_present, manifests_present_spec, plan_ingest,
    readme_from_response, readme_spec, section_spec, source_files_spec, FileEntry,
    GithubRepoData, IngestPlan,
};
pub use json::{content_field_of, meta_fields_of, tree_items_of};
pub use limits::{
    clamp_max_files, clamped_max_files, DEFAULT_FILES, MAX_FILES, MIN_FILES, TREE_CAP,
};
pub use localscan::{walk_keeps, walk_keeps_spec, within_size_limit, LOCAL_FILE_CEILING};
pub use rank::{
    candidate_pred, candidates_spec, filter_candidates, lemma_rank_leq_total,
    lemma_ranking_stable, lemma_selected_paths_in_tree, rank_leq, rank_paths, ranked_of,
    scored_seq, select_files, selected_spec, sort_scored, ScoredIdx,
};
pub use resolve::{
    blob_paths, blob_paths_spec, defaulted, filter_retained, lemma_resolved_tree_retained,
    repo_info_from_fields, resolve_repo_info, resolve_tree, resolved_tree_spec, retained_pred,
    retained_tree_spec, tree_truncated_spec, truncate_tree, RepoInfo,
};
pub use score::{
    aux_keyword_spec, core_dir_spec, count_char, depth_of, file_name_of, important_name_spec,
    score, score_lowered, score_spec, test_like_spec,
};
pub use text::{
    begins_with, begins_with_vec, chars_vec, eq_vec, finishes_with, finishes_with_vec,
    lemma_filter_members, lemma_filter_push, matches_at, occurs_in, occurs_in_vec, str_eq,
};
