use repo_ingest::decode_envelope;

#[test]
fn envelope_with_embedded_newlines_round_trips() {
    // "hello world", base64-encoded and split across lines as the API does
    let envelope = "aGVsbG8g\nd29ybGQ=\r\n";
    assert_eq!(decode_envelope(envelope), Some("hello world".to_string()));
}

#[test]
fn clean_envelope_decodes() {
    assert_eq!(decode_envelope("aGVsbG8gd29ybGQ="), Some("hello world".to_string()));
}

#[test]
fn empty_envelope_decodes_to_empty_text() {
    assert_eq!(decode_envelope(""), Some(String::new()));
    assert_eq!(decode_envelope("\n\r\n"), Some(String::new()));
}

#[test]
fn malformed_base64_yields_nothing() {
    assert_eq!(decode_envelope("%%%"), None);
    assert_eq!(decode_envelope("aGVsbG8"), None);
}

#[test]
fn invalid_utf8_decodes_lossily() {
    // 0xFF 0x61: the invalid byte becomes the replacement character
    assert_eq!(decode_envelope("/2E="), Some("\u{FFFD}a".to_string()));
}
