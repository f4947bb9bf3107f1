use repo_ingest::{clamp_max_files, select_files};

fn tree(paths: &[&str]) -> Vec<String> {
    paths.iter().map(|p| p.to_string()).collect()
}

#[test]
fn clamp_defaults_to_five_and_stays_in_range() {
    assert_eq!(clamp_max_files(None), 5);
    assert_eq!(clamp_max_files(Some(0)), 1);
    assert_eq!(clamp_max_files(Some(1)), 1);
    assert_eq!(clamp_max_files(Some(42)), 42);
    assert_eq!(clamp_max_files(Some(200)), 200);
    assert_eq!(clamp_max_files(Some(5000)), 200);
}

#[test]
fn selection_never_exceeds_the_clamped_bound() {
    let t = tree(&["a.go", "b.go", "c.go", "d.go", "e.go", "f.go", "g.go"]);
    assert_eq!(select_files(&t, None).len(), 5);
    assert_eq!(select_files(&t, Some(2)).len(), 2);
    assert_eq!(select_files(&t, Some(0)).len(), 1);
    assert_eq!(select_files(&t, Some(100)).len(), 7);
}

#[test]
fn equal_scores_keep_tree_order() {
    // all four score identically (depth 2, nothing else matches)
    let t = tree(&["z/d.go", "z/c.go", "z/b.go", "z/a.go"]);
    let picked = select_files(&t, Some(4));
    assert_eq!(picked, tree(&["z/d.go", "z/c.go", "z/b.go", "z/a.go"]));
}

#[test]
fn higher_scores_come_first() {
    let t = tree(&["docs/setup.md", "src/main.go", "z/plain.go"]);
    let picked = select_files(&t, Some(3));
    // src/main.go 28, z/plain.go -2, docs/setup.md -32
    assert_eq!(picked, tree(&["src/main.go", "z/plain.go", "docs/setup.md"]));
}

#[test]
fn selection_scenario_with_readme_and_manifest() {
    let t = tree(&["src/main.go", "src/main_test.go", "README.md", "docs/setup.md",
        "package.json"]);
    // README.md and package.json are never candidates; among the rest,
    // src/main.go scores 28, src/main_test.go -22, docs/setup.md -32.
    let picked = select_files(&t, Some(2));
    assert_eq!(picked, tree(&["src/main.go", "src/main_test.go"]));
    let all = select_files(&t, Some(5));
    assert_eq!(all, tree(&["src/main.go", "src/main_test.go", "docs/setup.md"]));
}

#[test]
fn empty_tree_selects_nothing() {
    let t: Vec<String> = Vec::new();
    assert!(select_files(&t, None).is_empty());
}
