use repo_ingest::{assemble, manifests_present, plan_ingest};

fn strings(paths: &[&str]) -> Vec<String> {
    paths.iter().map(|p| p.to_string()).collect()
}

#[test]
fn manifests_come_in_the_fixed_recognized_order() {
    let tree = strings(&["Cargo.toml", "src/a.rs", "package.json"]);
    assert_eq!(manifests_present(&tree), strings(&["package.json", "Cargo.toml"]));
}

#[test]
fn nested_manifests_are_not_listed() {
    let tree = strings(&["sub/package.json", "go.mod"]);
    assert_eq!(manifests_present(&tree), strings(&["go.mod"]));
}

#[test]
fn full_ingestion_assembles_the_bundle() {
    let meta = r#"{"default_branch":"dev","description":"A tool"}"#;
    let tree_body = r#"{"tree":[
        {"path":"src/main.go","type":"blob"},
        {"path":"src/main_test.go","type":"blob"},
        {"path":"README.md","type":"blob"},
        {"path":"docs/setup.md","type":"blob"},
        {"path":"package.json","type":"blob"}
    ]}"#;
    let plan =
        plan_ingest("o".to_string(), "r".to_string(), meta, tree_body, Some(2)).unwrap();
    assert_eq!(plan.files, strings(&["src/main.go", "src/main_test.go"]));
    assert_eq!(plan.manifests, strings(&["package.json"]));
    assert_eq!(plan.tree.len(), 5);

    // "# Hi\n", "deps\n" and "code", base64-encoded content envelopes
    let readme_body = Some(r#"{"content":"IyBIaQo="}"#.to_string());
    let manifest_bodies = vec![Some(r#"{"content":"ZGVwcwo="}"#.to_string())];
    let file_bodies = vec![Some(r#"{"content":"Y29kZQ=="}"#.to_string()), None];

    let bundle = assemble(plan, &readme_body, &manifest_bodies, &file_bodies);
    assert_eq!(bundle.info.owner, "o");
    assert_eq!(bundle.info.default_branch, "dev");
    assert_eq!(bundle.readme, "# Hi\n");
    assert_eq!(bundle.dependencies, "\n--- package.json ---\ndeps\n\n");
    assert_eq!(bundle.source_files.len(), 1);
    assert_eq!(bundle.source_files[0].path, "src/main.go");
    assert_eq!(bundle.source_files[0].content, "code");
    assert!(!bundle.is_truncated);
}

#[test]
fn readme_failures_degrade_to_an_empty_readme() {
    let plan =
        plan_ingest("o".to_string(), "r".to_string(), "{}", r#"{"tree":[]}"#, None).unwrap();
    let bundle = assemble(plan.clone(), &None, &vec![], &vec![]);
    assert_eq!(bundle.readme, "");

    // not JSON
    let bundle = assemble(plan.clone(), &Some("nope".to_string()), &vec![], &vec![]);
    assert_eq!(bundle.readme, "");

    // no content field
    let bundle = assemble(plan.clone(), &Some("{}".to_string()), &vec![], &vec![]);
    assert_eq!(bundle.readme, "");

    // malformed base64
    let bundle =
        assemble(plan, &Some(r#"{"content":"%%%"}"#.to_string()), &vec![], &vec![]);
    assert_eq!(bundle.readme, "");
}

#[test]
fn failed_manifest_fetches_contribute_nothing() {
    let meta = "{}";
    let tree_body = r#"{"tree":[
        {"path":"package.json","type":"blob"},
        {"path":"go.mod","type":"blob"}
    ]}"#;
    let plan = plan_ingest("o".to_string(), "r".to_string(), meta, tree_body, None).unwrap();
    assert_eq!(plan.manifests, strings(&["package.json", "go.mod"]));
    let manifest_bodies = vec![None, Some(r#"{"content":"ZGVwcwo="}"#.to_string())];
    let bundle = assemble(plan, &None, &manifest_bodies, &vec![]);
    assert_eq!(bundle.dependencies, "\n--- go.mod ---\ndeps\n\n");
}

#[test]
fn failed_file_fetches_are_omitted_in_rank_order() {
    let meta = "{}";
    let tree_body = r#"{"tree":[
        {"path":"a/x.go","type":"blob"},
        {"path":"a/y.go","type":"blob"},
        {"path":"a/z.go","type":"blob"}
    ]}"#;
    let plan =
        plan_ingest("o".to_string(), "r".to_string(), meta, tree_body, Some(3)).unwrap();
    assert_eq!(plan.files, strings(&["a/x.go", "a/y.go", "a/z.go"]));
    let file_bodies = vec![
        Some(r#"{"content":"Y29kZQ=="}"#.to_string()),
        None,
        Some(r#"{"content":"Y29kZQ=="}"#.to_string()),
    ];
    let bundle = assemble(plan, &None, &vec![], &file_bodies);
    let fetched: Vec<&str> = bundle.source_files.iter().map(|f| f.path.as_str()).collect();
    assert_eq!(fetched, vec!["a/x.go", "a/z.go"]);
}
