use aft::error::{error_fields, list_text, AftError};
use aft::json::{object_get, Json};

fn text_of<'a>(document: &'a Json, key: &str) -> &'a str {
    match object_get(document, key) {
        Some(Json::Text(text)) => text.as_str(),
        other => panic!("{key} is no text: {other:?}"),
    }
}

#[test]
fn error_display_symbol_not_found() {
    let err = AftError::SymbolNotFound { name: "foo".into(), file: "bar.rs".into() };
    assert_eq!(err.to_text(), "symbol 'foo' not found in bar.rs");
    assert_eq!(err.code(), "symbol_not_found");
}

#[test]
fn error_display_ambiguous_symbol() {
    let err = AftError::AmbiguousSymbol {
        name: "Foo".into(),
        candidates: vec!["a.rs:10".into(), "b.rs:20".into()],
    };
    let s = err.to_text();
    assert!(s.contains("Foo"));
    assert!(s.contains("a.rs:10, b.rs:20"));
    assert_eq!(err.code(), "ambiguous_symbol");
}

#[test]
fn error_display_parse_error() {
    let err = AftError::ParseError { message: "unexpected token".into() };
    assert_eq!(err.to_text(), "parse error: unexpected token");
    assert_eq!(err.code(), "parse_error");
}

#[test]
fn error_display_file_not_found() {
    let err = AftError::FileNotFound { path: "/tmp/missing.rs".into() };
    assert_eq!(err.to_text(), "file not found: /tmp/missing.rs");
    assert_eq!(err.code(), "file_not_found");
}

#[test]
fn error_display_invalid_request() {
    let err = AftError::InvalidRequest { message: "missing field".into() };
    assert_eq!(err.to_text(), "invalid request: missing field");
    assert_eq!(err.code(), "invalid_request");
}

#[test]
fn error_display_checkpoint_not_found() {
    let err = AftError::CheckpointNotFound { name: "pre-refactor".into() };
    assert_eq!(err.to_text(), "checkpoint not found: pre-refactor");
    assert_eq!(err.code(), "checkpoint_not_found");
}

#[test]
fn error_display_no_undo_history() {
    let err = AftError::NoUndoHistory { path: "src/main.rs".into() };
    assert_eq!(err.to_text(), "no undo history for: src/main.rs");
    assert_eq!(err.code(), "no_undo_history");
}

#[test]
fn error_display_ambiguous_match() {
    let err = AftError::AmbiguousMatch { pattern: "TODO".into(), count: 5 };
    assert_eq!(err.to_text(), "pattern 'TODO' matches 5 occurrences, expected exactly 1");
    assert_eq!(err.code(), "ambiguous_match");
}

#[test]
fn error_to_json_has_code_and_message() {
    let err = AftError::FileNotFound { path: "/x".into() };
    let j = err.to_error_json();
    assert_eq!(text_of(&j, "code"), "file_not_found");
    assert!(text_of(&j, "message").contains("/x"));
}

#[test]
fn lists_are_joined_by_commas() {
    assert_eq!(list_text(&vec![]), "");
    assert_eq!(list_text(&vec!["a".into()]), "a");
    assert_eq!(list_text(&vec!["a".into(), "b".into(), "c".into()]), "a, b, c");
}

#[test]
fn error_fields_hold_code_and_message_alone() {
    let fields = error_fields("busy", "try again".into());
    assert_eq!(text_of(&fields, "code"), "busy");
    assert_eq!(text_of(&fields, "message"), "try again");
    assert!(object_get(&fields, "status").is_none());
}
