use repo_ingest::{classify, is_dependency_manifest, is_source_candidate};

#[test]
fn node_modules_segment_is_hard_ignored() {
    assert!(classify("node_modules/react/index.js").hard_ignored);
    assert!(classify("web/node_modules/react/index.js").hard_ignored);
}

#[test]
fn git_segment_is_hard_ignored() {
    assert!(classify(".git/HEAD").hard_ignored);
    assert!(classify("sub/.git/config").hard_ignored);
}

#[test]
fn every_hard_ignore_name_matches_as_segment() {
    for dir in ["venv", ".venv", "node_modules", ".git", "__pycache__", "dist", "build"] {
        assert!(classify(&format!("{}/x.py", dir)).hard_ignored);
        assert!(classify(&format!("a/{}/x.py", dir)).hard_ignored);
    }
}

#[test]
fn partial_segment_names_do_not_match() {
    assert!(!classify("builder/x.py").hard_ignored);
    assert!(!classify("dist2/x.py").hard_ignored);
    assert!(!classify("a/distx/y.go").hard_ignored);
    assert!(!classify("mybuild/x.py").hard_ignored);
}

#[test]
fn bare_name_without_separator_is_not_a_segment() {
    assert!(!classify("venv").hard_ignored);
    assert!(!classify("a/venv").hard_ignored);
}

#[test]
fn env_suffix_is_secret() {
    assert!(classify(".env").secret);
    assert!(classify("config/.env").secret);
    assert!(classify("deploy/prod.env").secret);
}

#[test]
fn id_rsa_suffix_is_secret() {
    assert!(classify("id_rsa").secret);
    assert!(classify("keys/id_rsa").secret);
}

#[test]
fn every_secret_suffix_matches() {
    for suffix in [".env", ".pem", ".key", ".cert", ".p12", "secrets.json", "credentials.json",
        "id_rsa"]
    {
        assert!(classify(&format!("conf/server{}", suffix)).secret);
    }
}

#[test]
fn secret_name_as_full_segment_matches() {
    assert!(classify("x/.env/y.txt").secret);
    assert!(classify("x/id_rsa/y.txt").secret);
}

#[test]
fn ordinary_source_path_is_retained() {
    let c = classify("src/main.go");
    assert!(!c.hard_ignored);
    assert!(!c.secret);
}

#[test]
fn manifests_match_by_exact_root_name_only() {
    for name in ["package.json", "requirements.txt", "go.mod", "Cargo.toml", "pom.xml",
        "build.gradle"]
    {
        assert!(is_dependency_manifest(name));
    }
    assert!(!is_dependency_manifest("sub/package.json"));
    assert!(!is_dependency_manifest("package.json.bak"));
    assert!(!is_dependency_manifest("cargo.toml"));
}

#[test]
fn source_candidates_need_a_source_extension() {
    assert!(is_source_candidate("src/main.go"));
    assert!(is_source_candidate("docs/setup.md"));
    assert!(is_source_candidate("a/b.ts"));
    assert!(!is_source_candidate("assets/logo.png"));
    assert!(!is_source_candidate("Makefile"));
}

#[test]
fn manifests_and_readme_are_not_candidates() {
    assert!(!is_source_candidate("package.json"));
    assert!(!is_source_candidate("README.md"));
    assert!(!is_source_candidate("readme.md"));
    assert!(!is_source_candidate("ReadMe.Md"));
    assert!(is_source_candidate("docs/README.md.old.md"));
    assert!(is_source_candidate("sub/README2.md"));
}
