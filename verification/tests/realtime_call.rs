use bytes::Bytes;
use codex_realtime_call::realtime_call::{
    append_realtime_call_intent, decode_sdp_response, multipart_realtime_call_body,
    realtime_call_response, try_append_realtime_call_intent, RealtimeCallClient,
    RealtimeCallResponse, MULTIPART_BOUNDARY, REALTIME_CALL_INTENT,
};
use codex_realtime_call::request::{Request, Response};
use codex_realtime_call::session::{apply_bearer_token, ApiError, AuthProvider, Provider};
use http::header::{AUTHORIZATION, CONTENT_TYPE};
use http::{HeaderMap, HeaderValue, Method, StatusCode};

#[derive(Clone, Default)]
struct DummyAuth;

impl AuthProvider for DummyAuth {
    fn bearer_token(&self) -> Option<String> {
        Some("test-token".to_string())
    }
}

fn provider(base_url: &str) -> Provider {
    Provider {
        name: "test".to_string(),
        base_url: base_url.to_string(),
    }
}

fn answer(body: &'static [u8]) -> Response {
    Response {
        status: StatusCode::OK,
        headers: HeaderMap::new(),
        body: Bytes::from_static(body),
    }
}

fn session_json() -> serde_json::Value {
    serde_json::from_str(r#"{"type": "realtime", "instructions": "hi"}"#).unwrap()
}

#[test]
fn sends_sdp_offer_as_raw_body() {
    let client = RealtimeCallClient::new((), provider("https://api.openai.com/v1"), DummyAuth);

    let mut request = client
        .create_request(&"v=offer\r\n".to_string())
        .expect("request should succeed");
    assert!(client.session().authorize(&mut request));
    let response = realtime_call_response(&answer(b"v=0\r\n")).expect("request should succeed");

    assert_eq!(
        response,
        RealtimeCallResponse {
            sdp: "v=0\r\n".to_string()
        }
    );
    assert_eq!(request.method, Method::POST);
    assert_eq!(
        request.url,
        "https://api.openai.com/v1/realtime/calls?intent=quicksilver"
    );
    assert_eq!(
        request.headers.get(CONTENT_TYPE).unwrap(),
        HeaderValue::from_static("application/sdp")
    );
    assert_eq!(
        request
            .headers
            .get(AUTHORIZATION)
            .and_then(|value| value.to_str().ok()),
        Some("Bearer test-token")
    );
    assert_eq!(request.raw_body, Some(Bytes::from_static(b"v=offer\r\n")));
    assert_eq!(request.body, None);
}

#[test]
fn sends_api_session_call_as_multipart_body() {
    let client = RealtimeCallClient::new((), provider("https://api.openai.com/v1"), DummyAuth);

    let mut request = match client.create_with_session_request(&"v=offer\r\n".to_string(), session_json()) {
        Ok(Some(request)) => request,
        _ => panic!("request should succeed"),
    };
    assert!(client.session().authorize(&mut request));
    let response = realtime_call_response(&answer(b"v=0\r\n")).expect("request should succeed");

    assert_eq!(
        response,
        RealtimeCallResponse {
            sdp: "v=0\r\n".to_string()
        }
    );
    assert_eq!(request.method, Method::POST);
    assert_eq!(
        request.url,
        "https://api.openai.com/v1/realtime/calls?intent=quicksilver"
    );
    assert_eq!(
        request.headers.get(CONTENT_TYPE).unwrap(),
        HeaderValue::from_static("multipart/form-data; boundary=codex-realtime-call-boundary")
    );
    let body = request.raw_body.expect("multipart body");
    let body = std::str::from_utf8(&body).expect("multipart body should be utf-8");
    assert!(body.contains("Content-Disposition: form-data; name=\"sdp\""));
    assert!(body.contains("Content-Type: application/sdp"));
    assert!(body.contains("v=offer\r\n"));
    assert!(body.contains("Content-Disposition: form-data; name=\"session\""));
    assert!(body.contains("Content-Type: application/json"));
    assert!(body.contains(r#""instructions":"hi""#));
    assert_eq!(request.body, None);
}

#[test]
fn sends_backend_session_call_as_json_body() {
    let client = RealtimeCallClient::new(
        (),
        provider("https://chatgpt.com/backend-api/codex"),
        DummyAuth,
    );

    let request = match client.create_with_session_request(&"v=offer\r\n".to_string(), session_json()) {
        Ok(Some(request)) => request,
        _ => panic!("request should succeed"),
    };
    let response = realtime_call_response(&answer(b"v=0\r\n")).expect("request should succeed");

    assert_eq!(
        response,
        RealtimeCallResponse {
            sdp: "v=0\r\n".to_string()
        }
    );
    assert_eq!(request.method, Method::POST);
    assert_eq!(
        request.url,
        "https://chatgpt.com/backend-api/codex/realtime/calls?intent=quicksilver"
    );
    assert_eq!(request.raw_body, None);
    let expected: serde_json::Value = serde_json::from_str(
        r#"{"sdp": "v=offer\r\n", "session": {"type": "realtime", "instructions": "hi"}}"#,
    )
    .unwrap();
    assert_eq!(request.body, Some(expected));
}

#[test]
fn multipart_body_has_exact_framing() {
    let body = multipart_realtime_call_body("v=offer\r\n", r#"{"a":1}"#);
    let expected = "--codex-realtime-call-boundary\r\n\
Content-Disposition: form-data; name=\"sdp\"; filename=\"offer.sdp\"\r\n\
Content-Type: application/sdp\r\n\r\n\
v=offer\r\n\r\n\
--codex-realtime-call-boundary\r\n\
Content-Disposition: form-data; name=\"session\"\r\n\
Content-Type: application/json\r\n\r\n\
{\"a\":1}\r\n\
--codex-realtime-call-boundary--\r\n";
    assert_eq!(String::from_utf8(body).unwrap(), expected);
    assert_eq!(MULTIPART_BOUNDARY, "codex-realtime-call-boundary");
    assert_eq!(REALTIME_CALL_INTENT, "quicksilver");
}

#[test]
fn multipart_body_of_empty_parts() {
    let body = multipart_realtime_call_body("", "");
    let text = String::from_utf8(body).unwrap();
    assert!(text.starts_with("--codex-realtime-call-boundary\r\n"));
    assert!(text.ends_with("\r\n\r\n\r\n--codex-realtime-call-boundary--\r\n"));
    assert_eq!(text.matches("--codex-realtime-call-boundary").count(), 3);
}

#[test]
fn multipart_body_keeps_non_ascii_text() {
    let body = multipart_realtime_call_body("é", "\"ü\"");
    let text = String::from_utf8(body).unwrap();
    assert!(text.contains("\r\n\r\né\r\n"));
    assert!(text.contains("\r\n\r\n\"ü\"\r\n"));
}

fn request_to(url: &str) -> Request {
    Request::new(Method::POST, url.to_string())
}

#[test]
fn intent_is_appended_to_a_url_without_query() {
    let mut req = request_to("https://api.openai.com/v1/realtime/calls");
    append_realtime_call_intent(&mut req);
    assert_eq!(req.url, "https://api.openai.com/v1/realtime/calls?intent=quicksilver");
}

#[test]
fn intent_is_appended_after_an_existing_query() {
    let mut req = request_to("https://example.com/realtime/calls?model=gpt");
    assert!(try_append_realtime_call_intent(&mut req));
    assert_eq!(req.url, "https://example.com/realtime/calls?model=gpt&intent=quicksilver");
}

#[test]
fn existing_intent_is_kept() {
    let mut req = request_to("https://example.com/realtime/calls?intent=other");
    assert!(try_append_realtime_call_intent(&mut req));
    assert_eq!(req.url, "https://example.com/realtime/calls?intent=other");
}

#[test]
fn url_is_reserialized_when_intent_is_present() {
    let mut req = request_to("HTTPS://Example.com/realtime/calls?intent=x");
    assert!(try_append_realtime_call_intent(&mut req));
    assert_eq!(req.url, "https://example.com/realtime/calls?intent=x");
}

#[test]
fn invalid_url_is_left_alone() {
    let mut req = request_to("not a url");
    assert!(!try_append_realtime_call_intent(&mut req));
    assert_eq!(req.url, "not a url");
}

#[test]
fn request_for_unparsable_endpoint_is_none() {
    let client = RealtimeCallClient::new((), provider("no scheme"), DummyAuth);
    assert!(client.create_request(&"v=offer\r\n".to_string()).is_none());
}

#[test]
fn trailing_slashes_on_the_base_url_are_dropped() {
    let client = RealtimeCallClient::new((), provider("https://api.openai.com/v1//"), DummyAuth);
    let request = client.create_request(&"v".to_string()).unwrap();
    assert_eq!(request.url, "https://api.openai.com/v1/realtime/calls?intent=quicksilver");
}

#[test]
fn extra_headers_are_kept_beside_the_content_type() {
    let client = RealtimeCallClient::new((), provider("https://api.openai.com/v1"), DummyAuth);
    let mut extra = HeaderMap::new();
    extra.insert("x-trace", HeaderValue::from_static("abc"));
    extra.insert(CONTENT_TYPE, HeaderValue::from_static("text/plain"));
    let request = client
        .create_with_headers_request(&"v".to_string(), extra)
        .unwrap();
    assert_eq!(request.headers.get("x-trace").unwrap(), "abc");
    assert_eq!(request.headers.get_all(CONTENT_TYPE).iter().count(), 1);
    assert_eq!(request.headers.get(CONTENT_TYPE).unwrap(), "application/sdp");
}

#[test]
fn backend_shape_follows_the_base_url() {
    let api = RealtimeCallClient::new((), provider("https://api.openai.com/v1"), DummyAuth);
    let backend = RealtimeCallClient::new((), provider("https://chatgpt.com/backend-api/codex"), DummyAuth);
    assert!(!api.uses_backend_request_shape());
    assert!(backend.uses_backend_request_shape());
    assert_eq!(RealtimeCallClient::<(), DummyAuth>::path(), "realtime/calls");
}

#[test]
fn sdp_answer_that_is_not_utf8_is_a_stream_error() {
    match decode_sdp_response(&[0xff, 0x00]) {
        Err(ApiError::Stream(message)) => assert_eq!(
            message,
            "failed to decode realtime call SDP response: invalid utf-8 sequence of 1 bytes from index 0"
        ),
        _ => panic!("expected a stream error"),
    }
}

#[test]
fn sdp_answer_round_trips() {
    let text = "v=0\r\no=- 1 2 IN IP4 127.0.0.1\r\nä\r\n";
    assert_eq!(decode_sdp_response(text.as_bytes()).ok().unwrap(), text);
    assert_eq!(decode_sdp_response(b"").ok().unwrap(), "");
}

#[test]
fn bearer_token_is_set_and_absent_token_leaves_headers() {
    let mut req = request_to("https://example.com");
    assert!(!apply_bearer_token(&mut req, None));
    assert!(req.headers.is_empty());
    assert!(apply_bearer_token(&mut req, Some("abc".to_string())));
    assert_eq!(req.headers.get(AUTHORIZATION).unwrap(), "Bearer abc");
    assert!(!apply_bearer_token(&mut req, Some("bad\ntoken".to_string())));
    assert_eq!(req.headers.get(AUTHORIZATION).unwrap(), "Bearer abc");
}

#[test]
fn bearer_token_with_non_ascii_text_is_accepted() {
    let mut req = request_to("https://example.com");
    assert!(apply_bearer_token(&mut req, Some("é".to_string())));
    assert_eq!(req.headers.get(AUTHORIZATION).unwrap().as_bytes(), "Bearer é".as_bytes());
}
