use bytes::Bytes;
use codex_realtime_call::request::{Request, RequestCompression};
use http::Method;

fn json(text: &str) -> serde_json::Value {
    serde_json::from_str(text).unwrap()
}

#[test]
fn new_request_is_empty() {
    let req = Request::new(Method::GET, "https://example.com/x".to_string());
    assert_eq!(req.method, Method::GET);
    assert_eq!(req.url, "https://example.com/x");
    assert!(req.headers.is_empty());
    assert_eq!(req.body, None);
    assert_eq!(req.raw_body, None);
    assert_eq!(req.compression, RequestCompression::Uncompressed);
    assert_eq!(req.timeout, None);
}

#[test]
fn compression_defaults_to_uncompressed() {
    assert_eq!(RequestCompression::default(), RequestCompression::Uncompressed);
}

#[test]
fn json_body_replaces_raw_body() {
    let req = Request::new(Method::POST, "u".to_string())
        .with_raw_body(Bytes::from_static(b"raw"))
        .with_json(Some(json(r#"{"a": 1}"#)));
    assert_eq!(req.body, Some(json(r#"{"a": 1}"#)));
    assert_eq!(req.raw_body, None);
}

#[test]
fn raw_body_replaces_json_body() {
    let req = Request::new(Method::POST, "u".to_string())
        .with_json(Some(json("[1, 2]")))
        .with_raw_body(Bytes::from_static(b"raw"));
    assert_eq!(req.body, None);
    assert_eq!(req.raw_body, Some(Bytes::from_static(b"raw")));
}

#[test]
fn failed_serialization_leaves_no_body() {
    let req = Request::new(Method::POST, "u".to_string())
        .with_raw_body(Bytes::from_static(b"raw"))
        .with_json(None);
    assert_eq!(req.body, None);
    assert_eq!(req.raw_body, None);
}

#[test]
fn compression_is_set_and_bodies_kept() {
    let req = Request::new(Method::POST, "u".to_string())
        .with_raw_body(Bytes::from_static(b"raw"))
        .with_compression(RequestCompression::Zstd);
    assert_eq!(req.compression, RequestCompression::Zstd);
    assert_eq!(req.raw_body, Some(Bytes::from_static(b"raw")));
    assert_eq!(req.url, "u");
}
