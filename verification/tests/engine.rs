//! Tests for the submission path: configuring a transfer, wiring the
//! delivery channels, and cancelling by dropping the completion future.
//!
//! No event loop is ever turned here, so no network traffic happens.

use curl::easy::Easy;
use tokio_core::reactor::Core;
use tokio_curl::Session;
use tokio_request::{get, line_to_forward};

#[test]
fn the_header_callback_discards_the_status_line_and_forwards_trimmed_lines() {
    assert_eq!(line_to_forward(b"HTTP/1.1 200 OK\r\n", true), None);
    assert_eq!(
        line_to_forward(b"Content-Type: application/json\r\n", false),
        Some("Content-Type: application/json".to_string())
    );
    assert_eq!(line_to_forward(b"  padded line  ", false), Some("padded line".to_string()));
    assert_eq!(line_to_forward(b"\r\n", false), None);
    assert_eq!(line_to_forward(b"", false), None);
    assert_eq!(line_to_forward(&[0xff, 0xfe], false), None);
}

#[test]
fn dropping_the_future_before_resolution_leaves_the_channels_silent() {
    let core = Core::new().unwrap();
    let session = Session::new(core.handle());
    let req = get("https://example.test/get")
        .unwrap()
        .header("User-Agent", "test-agent")
        .param("a", "1");
    let inflight = req.send_with_session(&session).unwrap();
    drop(inflight.transfer);
    assert!(inflight.header_rx.try_recv().is_err());
    assert!(inflight.body_rx.try_recv().is_err());
}

#[test]
fn send_builds_its_own_session() {
    let core = Core::new().unwrap();
    let inflight = get("https://example.test/get")
        .unwrap()
        .send(core.handle())
        .unwrap();
    drop(inflight.transfer);
    assert!(inflight.header_rx.try_recv().is_err());
}

#[test]
fn finish_assembles_from_the_drained_channels() {
    let core = Core::new().unwrap();
    let session = Session::new(core.handle());
    let inflight = get("https://example.test/get")
        .unwrap()
        .send_with_session(&session)
        .unwrap();
    let resp = inflight.finish(Easy::new()).unwrap();
    assert_eq!(resp.status_code(), 0);
    assert!(!resp.is_success());
    assert_eq!(resp.body(), b"");
    assert_eq!(resp.headers().len(), 0);
}
