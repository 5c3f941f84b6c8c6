//! Tests for the response assembler and its accessors.

use curl::easy::Easy;
use tokio_request::{post, status_of_code, Response, RequestError};

fn sample_response() -> Response {
    Response::from_parts(
        Easy::new(),
        200,
        vec![
            "Content-Type: application/json".to_string(),
            "X-Dup: first".to_string(),
            "X-Dup: second".to_string(),
            "not-a-header".to_string(),
        ],
        b"hello".to_vec(),
    )
}

#[test]
fn from_parts_keeps_status_headers_and_body() {
    let resp = sample_response();
    assert_eq!(resp.status_code(), 200);
    assert!(resp.is_success());
    assert_eq!(resp.body(), b"hello");
    assert_eq!(resp.body_str(), Some("hello"));
    assert_eq!(
        resp.headers(),
        &vec![
            ("Content-Type".to_string(), "application/json".to_string()),
            ("X-Dup".to_string(), "first".to_string()),
            ("X-Dup".to_string(), "second".to_string()),
        ]
    );
}

#[test]
fn header_lookup_returns_the_first_match() {
    let resp = sample_response();
    assert_eq!(resp.header("X-Dup"), Some(&"first".to_string()));
    assert_eq!(
        resp.header("Content-Type"),
        Some(&"application/json".to_string())
    );
    assert_eq!(resp.header("Missing"), None);
}

#[test]
fn content_type_parses_the_mime() {
    let resp = sample_response();
    assert_eq!(resp.content_type(), Some(mime::APPLICATION_JSON));

    let no_header = Response::from_parts(Easy::new(), 200, vec![], vec![]);
    assert_eq!(no_header.content_type(), None);

    let bad_mime = Response::from_parts(
        Easy::new(),
        200,
        vec!["Content-Type: not a mime".to_string()],
        vec![],
    );
    assert_eq!(bad_mime.content_type(), None);
}

#[test]
fn success_is_exactly_the_two_hundreds() {
    let status = |code: u16| Response::from_parts(Easy::new(), code, vec![], vec![]);
    assert!(!status(199).is_success());
    assert!(status(200).is_success());
    assert!(status(250).is_success());
    assert!(status(299).is_success());
    assert!(!status(300).is_success());
    assert!(!status(301).is_success());
    assert!(!status(404).is_success());
    assert!(!status(500).is_success());
}

#[test]
fn a_redirect_status_still_builds_a_response() {
    let resp = Response::from_parts(
        Easy::new(),
        301,
        vec!["Location: https://example.test/moved".to_string()],
        vec![],
    );
    assert_eq!(resp.status_code(), 301);
    assert!(!resp.is_success());
    assert_eq!(
        resp.header("Location"),
        Some(&"https://example.test/moved".to_string())
    );
}

#[test]
fn body_str_rejects_invalid_utf8() {
    let resp = Response::from_parts(Easy::new(), 200, vec![], vec![0xff, 0xfe]);
    assert_eq!(resp.body_str(), None);
}

#[test]
fn body_mut_edits_the_body_in_place() {
    let mut resp = Response::from_parts(Easy::new(), 200, vec![], b"abc".to_vec());
    resp.body_mut()[0] = b'x';
    assert_eq!(resp.body(), b"xbc");
}

#[test]
fn json_value_decodes_and_reports_decoding_errors() {
    let ok = Response::from_parts(Easy::new(), 200, vec![], b"{\"a\":1}".to_vec());
    let value = ok.json_value().unwrap();
    assert_eq!(value["a"], serde_json::Value::from(1));

    let bad = Response::from_parts(Easy::new(), 200, vec![], b"{not json".to_vec());
    assert_eq!(bad.json_value().unwrap_err(), RequestError::Decoding);

    let not_utf8 = Response::from_parts(Easy::new(), 200, vec![], vec![0xff]);
    assert_eq!(not_utf8.json_value().unwrap_err(), RequestError::Decoding);
}

#[test]
fn json_round_trip_through_body_and_echo() {
    let payload: serde_json::Value =
        serde_json::from_str("{\"a\":10,\"b\":15}").unwrap();
    let bytes = serde_json::to_vec(&payload).unwrap();
    let req = post("https://example.test/post").unwrap().set_json(bytes);
    let (plan, _) = req.prepare();
    assert_eq!(
        plan.header_lines,
        vec!["Content-Type: application/json".to_string()]
    );
    let echoed_body = plan.body.expect("the body was set");
    let resp = Response::from_parts(Easy::new(), 200, vec![], echoed_body);
    let decoded = resp.json_value().unwrap();
    assert_eq!(decoded, payload);
}

#[test]
fn a_reported_code_becomes_the_status_exactly_when_it_fits() {
    assert_eq!(status_of_code(0), Ok(0));
    assert_eq!(status_of_code(200), Ok(200));
    assert_eq!(status_of_code(301), Ok(301));
    assert_eq!(status_of_code(65535), Ok(65535));
    assert_eq!(status_of_code(65536), Err(RequestError::ContractViolation));
    assert_eq!(status_of_code(u32::MAX), Err(RequestError::ContractViolation));
}

#[test]
fn new_reads_the_code_the_handle_reports() {
    let fresh = Easy::new();
    let resp = Response::new(fresh, vec!["X: y".to_string()], b"data".to_vec()).unwrap();
    assert_eq!(resp.status_code(), 0);
    assert!(!resp.is_success());
    assert_eq!(resp.body(), b"data");
    assert_eq!(resp.header("X"), Some(&"y".to_string()));
}

#[test]
fn errors_describe_themselves() {
    assert_eq!(RequestError::InvalidUrl.describe(), "invalid URL");
    assert_eq!(RequestError::Decoding.describe(), "failed to decode the response body");
    assert_eq!(RequestError::Transfer.describe(), "transfer failed");
}

#[test]
fn reuse_hands_the_handle_to_the_next_request() {
    let resp = Response::from_parts(Easy::new(), 200, vec![], vec![]);
    let handle = resp.reuse();
    let req = post("https://example.test/next").unwrap().use_handle(handle);
    let (_, reused) = req.prepare();
    assert!(reused.is_some());
}
