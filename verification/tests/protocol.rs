use aft::json::{object_get, parse_document, Json};
use aft::protocol::{RawRequest, Response};

fn parse(text: &str) -> Json {
    parse_document(text).expect("test document parses")
}

fn request(text: &str) -> Option<RawRequest> {
    RawRequest::from_document(parse(text))
}

fn at<'a>(document: &'a Json, key: &str) -> &'a Json {
    object_get(document, key).expect("key is present")
}

fn text(value: &str) -> Json {
    Json::Text(value.to_string())
}

#[test]
fn raw_request_deserializes_ping() {
    let req = request(r#"{"id":"1","command":"ping"}"#).unwrap();
    assert_eq!(req.id, "1");
    assert_eq!(req.command, "ping");
    assert!(req.lsp_hints.is_none());
}

#[test]
fn raw_request_deserializes_echo_with_params() {
    let req = request(r#"{"id":"2","command":"echo","message":"hello"}"#).unwrap();
    assert_eq!(req.id, "2");
    assert_eq!(req.command, "echo");
    assert_eq!(*at(&req.params, "message"), text("hello"));
}

#[test]
fn raw_request_preserves_unknown_fields() {
    let req = request(
        r#"{"id":"3","command":"ping","future_field":"abc","nested":{"x":1}}"#,
    )
    .unwrap();
    assert_eq!(*at(&req.params, "future_field"), text("abc"));
    assert_eq!(*at(at(&req.params, "nested"), "x"), Json::Unsigned(1));
}

#[test]
fn raw_request_with_lsp_hints() {
    let req = request(
        r#"{"id":"4","command":"ping","lsp_hints":{"completions":["foo","bar"]}}"#,
    )
    .unwrap();
    assert!(req.lsp_hints.is_some());
    let hints = req.lsp_hints.unwrap();
    match at(&hints, "completions") {
        Json::List(items) => assert_eq!(items[0], text("foo")),
        other => panic!("no list: {other:?}"),
    }
}

#[test]
fn response_success_round_trip() {
    let resp = Response::success("42", parse(r#"{"command": "pong"}"#));
    let v = resp.to_document();
    assert_eq!(*at(&v, "id"), text("42"));
    assert_eq!(*at(&v, "success"), Json::Bool(true));
    assert_eq!(*at(&v, "command"), text("pong"));
}

#[test]
fn response_error_round_trip() {
    let resp = Response::error("99", "unknown_command", "unknown command: foo".to_string());
    let v = resp.to_document();
    assert_eq!(*at(&v, "id"), text("99"));
    assert_eq!(*at(&v, "success"), Json::Bool(false));
    assert_eq!(*at(&v, "code"), text("unknown_command"));
    assert_eq!(*at(&v, "message"), text("unknown command: foo"));
}

#[test]
fn requests_need_an_id_and_a_command() {
    assert!(request(r#"{"command":"ping"}"#).is_none());
    assert!(request(r#"{"id":"1"}"#).is_none());
    assert!(request(r#"{"id":1,"command":"ping"}"#).is_none());
    assert!(request(r#"["id","command"]"#).is_none());
}

#[test]
fn named_fields_are_no_parameters() {
    let req = request(
        r#"{"id":"5","command":"read","session_id":"s","lsp_hints":null,"file":"a.rs"}"#,
    )
    .unwrap();
    assert_eq!(req.session_id.as_deref(), Some("s"));
    assert!(req.lsp_hints.is_none());
    assert_eq!(req.params, Json::Object(vec![("file".to_string(), text("a.rs"))]));
}

#[test]
fn documents_are_parsed_and_not_handed_back() {
    assert!(parse_document("{").is_none());
    assert!(parse_document("").is_none());
    assert_eq!(parse("null"), Json::Null);
    assert_eq!(parse("-3"), Json::Negative(-3));
    assert_eq!(parse("7"), Json::Unsigned(7));
    assert_eq!(parse("1.5"), Json::Float("1.5".to_string()));
    assert_eq!(parse(r#""a""#), text("a"));
    assert_eq!(
        parse(r#"{"b": [true, false], "a": {}}"#),
        Json::Object(vec![
            ("a".to_string(), Json::Object(vec![])),
            ("b".to_string(), Json::List(vec![Json::Bool(true), Json::Bool(false)])),
        ])
    );
}
