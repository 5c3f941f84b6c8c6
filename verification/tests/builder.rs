//! Tests for the request descriptor: defaults, setters, and the
//! materialized wire plan.

use tokio_request::{get, post, put, request, Method, RequestError};

#[test]
fn defaults_of_a_fresh_descriptor() {
    let req = get("https://example.test/get").unwrap();
    let (plan, handle) = req.prepare();
    assert_eq!(plan.verb, "GET");
    assert!(plan.follow_redirects);
    assert_eq!(plan.max_redirects, 10);
    assert_eq!(plan.lowspeed, Some((10, 10)));
    assert_eq!(plan.timeout_ms, None);
    assert!(!plan.nobody);
    assert_eq!(plan.body, None);
    assert_eq!(plan.header_lines.len(), 0);
    assert!(handle.is_none());
}

#[test]
fn invalid_url_is_rejected() {
    assert!(matches!(get("not a url"), Err(RequestError::InvalidUrl)));
    assert!(matches!(
        request("/relative/only", Method::Get),
        Err(RequestError::InvalidUrl)
    ));
}

#[test]
fn query_parameters_are_merged_in_order() {
    let req = get("https://example.test/get")
        .unwrap()
        .header("User-Agent", "test-agent")
        .param("a", "1")
        .param("b", "2");
    let (plan, _) = req.prepare();
    assert_eq!(plan.url, "https://example.test/get?a=1&b=2");
    assert_eq!(plan.header_lines, vec!["User-Agent: test-agent".to_string()]);
}

#[test]
fn parameters_and_headers_are_trimmed() {
    let req = get("https://example.test/x")
        .unwrap()
        .header("  X-Name  ", "  v  ")
        .param(" key ", " value ");
    let (plan, _) = req.prepare();
    assert_eq!(plan.header_lines, vec!["X-Name: v".to_string()]);
    assert_eq!(plan.url, "https://example.test/x?key=value");
}

#[test]
fn params_setter_overwrites_earlier_parameters() {
    let req = get("https://example.test/x")
        .unwrap()
        .param("dropped", "1")
        .params(vec![("kept".to_string(), "2".to_string())]);
    let (plan, _) = req.prepare();
    assert_eq!(plan.url, "https://example.test/x?kept=2");
}

#[test]
fn headers_setter_overwrites_earlier_headers() {
    let req = get("https://example.test/x")
        .unwrap()
        .header("Dropped", "1")
        .headers(vec![("Kept".to_string(), "2".to_string())]);
    let (plan, _) = req.prepare();
    assert_eq!(plan.header_lines, vec!["Kept: 2".to_string()]);
}

#[test]
fn duplicate_headers_are_kept_in_order() {
    let req = get("https://example.test/x")
        .unwrap()
        .header("Set-Cookie", "a=1")
        .header("Set-Cookie", "b=2");
    let (plan, _) = req.prepare();
    assert_eq!(
        plan.header_lines,
        vec!["Set-Cookie: a=1".to_string(), "Set-Cookie: b=2".to_string()]
    );
}

#[test]
fn body_and_json_body() {
    let req = post("https://example.test/post")
        .unwrap()
        .body(b"raw".to_vec());
    let (plan, _) = req.prepare();
    assert_eq!(plan.body, Some(b"raw".to_vec()));

    let req = post("https://example.test/post")
        .unwrap()
        .set_json(b"{\"a\":1}".to_vec());
    let (plan, _) = req.prepare();
    assert_eq!(plan.body, Some(b"{\"a\":1}".to_vec()));
    assert_eq!(
        plan.header_lines,
        vec!["Content-Type: application/json".to_string()]
    );
}

#[test]
fn lowspeed_limit_zero_disables_the_abort() {
    let (plan, _) = get("https://example.test/x")
        .unwrap()
        .lowspeed_limit(10, 10)
        .prepare();
    assert_eq!(plan.lowspeed, Some((10, 10)));

    let (plan, _) = get("https://example.test/x")
        .unwrap()
        .lowspeed_limit(0, 10)
        .prepare();
    assert_eq!(plan.lowspeed, None);

    let (plan, _) = get("https://example.test/x")
        .unwrap()
        .lowspeed_limit(10, 0)
        .prepare();
    assert_eq!(plan.lowspeed, None);
}

#[test]
fn redirect_cap_zero_with_follow_enabled() {
    let (plan, _) = get("https://example.test/x")
        .unwrap()
        .follow_redirects(true)
        .max_redirects(0)
        .prepare();
    assert!(plan.follow_redirects);
    assert_eq!(plan.max_redirects, 0);
}

#[test]
fn timeout_is_recorded_in_milliseconds() {
    let (plan, _) = get("https://example.test/x")
        .unwrap()
        .timeout(20_000)
        .prepare();
    assert_eq!(plan.timeout_ms, Some(20_000));
}

#[test]
fn head_suppresses_the_response_body() {
    let (plan, _) = request("https://example.test/x", Method::Head)
        .unwrap()
        .prepare();
    assert!(plan.nobody);
    assert_eq!(plan.verb, "HEAD");
}

#[test]
fn same_setter_sequence_gives_identical_wire_requests() {
    let build = || {
        put("https://example.test/put")
            .unwrap()
            .header("User-Agent", "test-agent")
            .param("Hello", "This is Rust")
            .param("Hello2", "This is also from Rust")
            .timeout(20_000)
            .body(b"payload".to_vec())
    };
    let (plan_a, _) = build().prepare();
    let (plan_b, _) = build().prepare();
    assert_eq!(plan_a.verb, plan_b.verb);
    assert_eq!(plan_a.url, plan_b.url);
    assert_eq!(plan_a.header_lines, plan_b.header_lines);
    assert_eq!(plan_a.follow_redirects, plan_b.follow_redirects);
    assert_eq!(plan_a.max_redirects, plan_b.max_redirects);
    assert_eq!(plan_a.lowspeed, plan_b.lowspeed);
    assert_eq!(plan_a.timeout_ms, plan_b.timeout_ms);
    assert_eq!(plan_a.nobody, plan_b.nobody);
    assert_eq!(plan_a.body, plan_b.body);
}

#[test]
fn method_verbs() {
    assert_eq!(Method::Get.as_str(), "GET");
    assert_eq!(Method::Post.as_str(), "POST");
    assert_eq!(Method::Put.as_str(), "PUT");
    assert_eq!(Method::Delete.as_str(), "DELETE");
    assert_eq!(Method::Head.as_str(), "HEAD");
    assert_eq!(Method::Trace.as_str(), "TRACE");
    assert_eq!(Method::Connect.as_str(), "CONNECT");
    assert_eq!(Method::Patch.as_str(), "PATCH");
    assert_eq!(Method::Options.as_str(), "OPTIONS");
    assert_eq!(Method::Custom("PROPFIND".to_string()).as_str(), "PROPFIND");
    assert_eq!(Method::default(), Method::Get);
    assert_ne!(Method::Get, Method::Post);
    assert_eq!(
        Method::Custom("A".to_string()),
        Method::Custom("A".to_string())
    );
    assert_ne!(
        Method::Custom("A".to_string()),
        Method::Custom("B".to_string())
    );
}

#[test]
fn describe_shows_verb_and_url() {
    let req = get("https://example.test/get").unwrap();
    assert_eq!(req.describe(), "GET https://example.test/get");
}

#[test]
fn custom_verb_reaches_the_plan() {
    let (plan, _) = request("https://example.test/x", Method::Custom("PROPFIND".to_string()))
        .unwrap()
        .prepare();
    assert_eq!(plan.verb, "PROPFIND");
    assert!(!plan.nobody);
}
