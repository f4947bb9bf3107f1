use repo_ingest::{
    normalize_proxy, resolve_credential, walk_keeps, within_size_limit, IngestError,
};

#[test]
fn explicit_key_wins_and_is_trimmed() {
    let r = resolve_credential(Some("  abcd  ".to_string()), "stored");
    assert_eq!(r.unwrap(), "abcd");
}

#[test]
fn blank_explicit_key_falls_back_to_the_stored_key() {
    let r = resolve_credential(Some("   ".to_string()), "stored");
    assert_eq!(r.unwrap(), "stored");
    let r = resolve_credential(None, "stored");
    assert_eq!(r.unwrap(), "stored");
}

#[test]
fn missing_key_is_a_configuration_failure() {
    let r = resolve_credential(None, "");
    match r {
        Err(IngestError::Configuration { detail }) => {
            assert!(detail.contains("GEMINI_API_KEY"));
        },
        _ => panic!("expected a configuration failure"),
    }
    assert!(resolve_credential(Some("  ".to_string()), "").is_err());
}

#[test]
fn proxy_addresses_get_a_scheme_when_they_lack_one() {
    assert_eq!(normalize_proxy(Some("  10.0.0.1:8080 ".to_string())),
        Some("http://10.0.0.1:8080".to_string()));
    assert_eq!(normalize_proxy(Some("https://proxy.local".to_string())),
        Some("https://proxy.local".to_string()));
    assert_eq!(normalize_proxy(Some("http://proxy.local".to_string())),
        Some("http://proxy.local".to_string()));
    assert_eq!(normalize_proxy(Some("   ".to_string())), None);
    assert_eq!(normalize_proxy(None), None);
}

#[test]
fn local_walker_skips_hidden_and_heavy_names() {
    for name in [".git", ".gitignore", ".venv", ".idea", ".vscode", "node_modules", "target",
        "venv", "build", "__pycache__"]
    {
        assert!(!walk_keeps(name));
    }
    for name in ["src", "main.go", "docs", "builder", ".env"] {
        assert!(walk_keeps(name));
    }
}

#[test]
fn local_files_above_the_ceiling_are_skipped() {
    assert!(within_size_limit(0));
    assert!(within_size_limit(1_000_000));
    assert!(!within_size_limit(1_000_001));
}
