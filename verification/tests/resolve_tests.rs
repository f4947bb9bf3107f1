use repo_ingest::{plan_ingest, repo_info_from_fields, IngestError, Stage};

const EMPTY_TREE: &str = r#"{"tree":[]}"#;

#[test]
fn absent_metadata_fields_take_their_defaults() {
    let info = repo_info_from_fields("o".to_string(), "r".to_string(), None, None);
    assert_eq!(info.default_branch, "main");
    assert_eq!(info.description, "No description provided.");
    assert_eq!(info.owner, "o");
    assert_eq!(info.repo, "r");
}

#[test]
fn reported_metadata_fields_are_kept() {
    let info = repo_info_from_fields(
        "o".to_string(),
        "r".to_string(),
        Some("dev".to_string()),
        Some("A tool".to_string()),
    );
    assert_eq!(info.default_branch, "dev");
    assert_eq!(info.description, "A tool");
}

#[test]
fn metadata_defaults_flow_through_planning() {
    let plan = plan_ingest("o".to_string(), "r".to_string(), "{}", EMPTY_TREE, None).unwrap();
    assert_eq!(plan.info.default_branch, "main");
    assert_eq!(plan.info.description, "No description provided.");
}

#[test]
fn reported_metadata_flows_through_planning() {
    let meta = r#"{"default_branch":"dev","description":"A tool"}"#;
    let plan = plan_ingest("o".to_string(), "r".to_string(), meta, EMPTY_TREE, None).unwrap();
    assert_eq!(plan.info.default_branch, "dev");
    assert_eq!(plan.info.description, "A tool");
}

#[test]
fn unreadable_metadata_is_fatal_at_the_metadata_stage() {
    let r = plan_ingest("o".to_string(), "r".to_string(), "nope", EMPTY_TREE, None);
    assert!(matches!(r, Err(IngestError::Decode { stage: Stage::Metadata })));
}

#[test]
fn unreadable_tree_is_fatal_at_the_tree_stage() {
    let r = plan_ingest("o".to_string(), "r".to_string(), "{}", "nope", None);
    assert!(matches!(r, Err(IngestError::Decode { stage: Stage::Tree })));
}

#[test]
fn only_blob_entries_survive_tree_resolution() {
    let tree_body = r#"{"tree":[
        {"path":"src/main.go","type":"blob"},
        {"path":"docs","type":"tree"},
        {"path":"README.md","type":"blob"},
        {"nopath":1,"type":"blob"}
    ]}"#;
    let plan = plan_ingest("o".to_string(), "r".to_string(), "{}", tree_body, None).unwrap();
    assert_eq!(plan.tree, vec!["src/main.go".to_string(), "README.md".to_string()]);
    assert!(!plan.is_truncated);
}

#[test]
fn noise_and_secrets_are_filtered_from_the_tree() {
    let tree_body = r#"{"tree":[
        {"path":"node_modules/x.js","type":"blob"},
        {"path":"src/app.ts","type":"blob"},
        {"path":"conf/.env","type":"blob"},
        {"path":"keys/server.pem","type":"blob"},
        {"path":"build/out.js","type":"blob"}
    ]}"#;
    let plan = plan_ingest("o".to_string(), "r".to_string(), "{}", tree_body, None).unwrap();
    assert_eq!(plan.tree, vec!["src/app.ts".to_string()]);
}

#[test]
fn missing_tree_array_resolves_to_an_empty_tree() {
    let plan = plan_ingest("o".to_string(), "r".to_string(), "{}", "{}", None).unwrap();
    assert!(plan.tree.is_empty());
    assert!(plan.files.is_empty());
    assert!(plan.manifests.is_empty());
    assert!(!plan.is_truncated);
}

#[test]
fn oversized_trees_are_truncated_in_order() {
    let mut entries: Vec<String> = Vec::new();
    for i in 0..1001 {
        entries.push(format!(r#"{{"path":"f{}.go","type":"blob"}}"#, i));
    }
    let tree_body = format!(r#"{{"tree":[{}]}}"#, entries.join(","));
    let plan = plan_ingest("o".to_string(), "r".to_string(), "{}", &tree_body, None).unwrap();
    assert_eq!(plan.tree.len(), 1000);
    assert!(plan.is_truncated);
    assert_eq!(plan.tree[0], "f0.go");
    assert_eq!(plan.tree[999], "f999.go");
}

#[test]
fn trees_at_the_cap_are_not_truncated() {
    let mut entries: Vec<String> = Vec::new();
    for i in 0..1000 {
        entries.push(format!(r#"{{"path":"f{}.go","type":"blob"}}"#, i));
    }
    let tree_body = format!(r#"{{"tree":[{}]}}"#, entries.join(","));
    let plan = plan_ingest("o".to_string(), "r".to_string(), "{}", &tree_body, None).unwrap();
    assert_eq!(plan.tree.len(), 1000);
    assert!(!plan.is_truncated);
}
