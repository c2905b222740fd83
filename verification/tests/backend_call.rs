use bytes::Bytes;
use codex_realtime_call::backend_call::{backend_call_response, decode_backend_sdp, CodexBackendRealtimeCallClient};
use codex_realtime_call::request::Response;
use codex_realtime_call::session::{ApiError, AuthProvider, Provider};
use http::{HeaderMap, Method, StatusCode};

struct NoAuth;

impl AuthProvider for NoAuth {
    fn bearer_token(&self) -> Option<String> {
        None
    }
}

#[test]
fn backend_call_posts_sdp_and_session_as_json() {
    let client = CodexBackendRealtimeCallClient::new(
        (),
        Provider {
            name: "chatgpt".to_string(),
            base_url: "https://chatgpt.com/backend-api/".to_string(),
        },
        NoAuth,
    );
    let session: serde_json::Value = serde_json::from_str(r#"{"type": "realtime"}"#).unwrap();
    let mut request = client.create_request("v=offer\r\n", session);
    assert!(!client.session().authorize(&mut request));
    assert_eq!(request.method, Method::POST);
    assert_eq!(request.url, "https://chatgpt.com/backend-api/api/codex/realtime/calls");
    assert!(request.headers.is_empty());
    assert_eq!(request.raw_body, None);
    let expected: serde_json::Value =
        serde_json::from_str(r#"{"sdp": "v=offer\r\n", "session": {"type": "realtime"}}"#).unwrap();
    assert_eq!(request.body, Some(expected));
    assert_eq!(
        CodexBackendRealtimeCallClient::<(), NoAuth>::path(),
        "api/codex/realtime/calls"
    );
}

#[test]
fn backend_answer_is_decoded() {
    let resp = Response {
        status: StatusCode::OK,
        headers: HeaderMap::new(),
        body: Bytes::from_static(b"v=0\r\n"),
    };
    assert_eq!(backend_call_response(&resp).unwrap(), "v=0\r\n");
}

#[test]
fn backend_answer_that_is_not_utf8_is_a_stream_error() {
    assert_eq!(
        decode_backend_sdp(&[b'a', 0xc3]),
        Err(ApiError::Stream(
            "failed to decode realtime call SDP: incomplete utf-8 byte sequence from index 1"
                .to_string()
        ))
    );
}
