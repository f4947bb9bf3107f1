use repo_ingest::{score, score_lowered};

#[test]
fn core_dir_bonus_and_aux_penalty_compose() {
    assert!(score("src/server.go") > score("scripts/server.go"));
}

#[test]
fn test_penalty_dominates() {
    assert!(score("a/test/foo_test.go") <= score("a/foo.go") - 50);
}

#[test]
fn exact_scores_of_known_paths() {
    // core dir +20, important name +10, depth 2
    assert_eq!(score("src/main.go"), 28);
    // test suffix -50, core dir +20, important name +10, depth 2
    assert_eq!(score("src/main_test.go"), -22);
    // aux keywords ("docs/", "setup") -30 once, depth 2
    assert_eq!(score("docs/setup.md"), -32);
    // aux keyword "scripts/" -30, important name +10, depth 2
    assert_eq!(score("scripts/server.go"), -22);
    // nothing matches, depth 1
    assert_eq!(score("a.go"), -1);
    // test dir -50, depth 3
    assert_eq!(score("a/test/b.py"), -53);
}

#[test]
fn scoring_lowercases_before_matching() {
    assert_eq!(score("A/TEST/B.PY"), score("a/test/b.py"));
    assert_eq!(score("A/TEST/B.PY"), -53);
    assert_eq!(score("SRC/MAIN.GO"), 28);
}

#[test]
fn score_of_lowered_path_matches_score() {
    assert_eq!(score_lowered("src/main.go"), score("src/main.go"));
}

#[test]
fn file_name_rules_look_at_last_segment_only() {
    // "test_" must open the file name, not a directory name: depth 2 only
    assert_eq!(score("test_utils/a.go"), -2);
    // ".spec." in the file name is a test mark: -50, depth 2
    assert_eq!(score("a/b.spec.ts"), -52);
}

#[test]
fn depth_penalty_prefers_shallow_paths() {
    assert!(score("deep/nest/ed/dir/a.go") < score("a.go"));
}
