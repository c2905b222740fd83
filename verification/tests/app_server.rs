use codex_realtime_call::app_server::{
    api_realtime_call_outcome, api_realtime_call_request, api_realtime_call_url,
    chatgpt_realtime_call_session, chatgpt_session_checked, env_header_value_applies,
    internal_error_with_context, invalid_request_error, realtime_call_route, AuthMode,
    RealtimeCallRoute, INTERNAL_ERROR_CODE, INVALID_REQUEST_ERROR_CODE,
};
use codex_realtime_call::core_call::{
    realtime_call_auth_required, realtime_call_base_url, realtime_call_client_route,
    realtime_session_with_model, CodexErr,
};

fn json(text: &str) -> serde_json::Value {
    serde_json::from_str(text).unwrap()
}

#[test]
fn missing_authentication_is_an_invalid_request() {
    let err = realtime_call_route(None).unwrap_err();
    assert_eq!(err.code, INVALID_REQUEST_ERROR_CODE);
    assert_eq!(
        err.message,
        "codex account authentication required to create realtime call"
    );
    assert_eq!(err.data, None);
}

#[test]
fn auth_modes_pick_their_route() {
    assert_eq!(realtime_call_route(Some(AuthMode::ApiKey)).unwrap(), RealtimeCallRoute::Api);
    assert_eq!(realtime_call_route(Some(AuthMode::Chatgpt)).unwrap(), RealtimeCallRoute::Chatgpt);
    assert_eq!(
        realtime_call_route(Some(AuthMode::ChatgptAuthTokens)).unwrap(),
        RealtimeCallRoute::Chatgpt
    );
    assert_eq!(realtime_call_client_route(AuthMode::ApiKey), RealtimeCallRoute::Api);
    assert_eq!(realtime_call_client_route(AuthMode::ChatgptAuthTokens), RealtimeCallRoute::Chatgpt);
}

#[test]
fn chatgpt_session_must_be_an_object() {
    assert_eq!(chatgpt_realtime_call_session(Some(json(r#"{"a": 1}"#))).unwrap(), json(r#"{"a": 1}"#));
    let err = chatgpt_realtime_call_session(Some(json("[1]"))).unwrap_err();
    assert_eq!(err.code, INVALID_REQUEST_ERROR_CODE);
    assert_eq!(err.message, "session must be an object for chatgpt auth");
    assert!(chatgpt_realtime_call_session(None).is_err());
    assert!(chatgpt_session_checked(Some(json("1")), false).is_err());
    assert!(chatgpt_session_checked(Some(json("1")), true).is_ok());
}

#[test]
fn error_builders_set_codes() {
    let err = invalid_request_error("bad".to_string());
    assert_eq!((err.code, err.message.as_str()), (-32600, "bad"));
    let err = internal_error_with_context("failed to read api key", "missing");
    assert_eq!(err.code, INTERNAL_ERROR_CODE);
    assert_eq!(err.code, -32603);
    assert_eq!(err.message, "failed to read api key: missing");
}

#[test]
fn api_url_drops_trailing_slashes_and_has_a_default() {
    assert_eq!(api_realtime_call_url(None), "https://api.openai.com/v1/realtime/calls");
    assert_eq!(
        api_realtime_call_url(Some("https://proxy.example/v1///")),
        "https://proxy.example/v1/realtime/calls"
    );
}

#[test]
fn api_request_carries_headers_in_order() {
    let req = api_realtime_call_request(
        Some("https://api.openai.com/v1/"),
        "sk-test",
        "v=offer\r\n".to_string(),
        vec![("OpenAI-Beta".to_string(), "realtime".to_string())],
        vec![
            ("X-Set".to_string(), Some("value".to_string())),
            ("X-Blank".to_string(), Some(" \t\n".to_string())),
            ("X-Unset".to_string(), None),
        ],
    );
    assert_eq!(req.url, "https://api.openai.com/v1/realtime/calls");
    assert_eq!(req.body, "v=offer\r\n");
    let headers: Vec<(&str, &str)> = req
        .headers
        .iter()
        .map(|(n, v)| (n.as_str(), v.as_str()))
        .collect();
    assert_eq!(
        headers,
        vec![
            ("Authorization", "Bearer sk-test"),
            ("Content-Type", "application/sdp"),
            ("OpenAI-Beta", "realtime"),
            ("X-Set", "value"),
        ]
    );
}

#[test]
fn blank_environment_values_are_not_sent() {
    assert!(env_header_value_applies(" x "));
    assert!(!env_header_value_applies(""));
    assert!(!env_header_value_applies("\u{3000}\u{a0} "));
}

#[test]
fn api_outcome_follows_the_status() {
    assert_eq!(
        api_realtime_call_outcome("https://u", 201, "201 Created", "application/sdp", "v=0".to_string())
            .unwrap(),
        "v=0"
    );
    let err = api_realtime_call_outcome(
        "https://u/realtime/calls",
        400,
        "400 Bad Request",
        "application/json",
        "{}".to_string(),
    )
    .unwrap_err();
    assert_eq!(err.code, INTERNAL_ERROR_CODE);
    assert_eq!(
        err.message,
        "failed to create realtime call: POST https://u/realtime/calls failed: 400 Bad Request; content-type=application/json; body={}"
    );
    assert!(api_realtime_call_outcome("u", 300, "300", "", String::new()).is_err());
    assert!(api_realtime_call_outcome("u", 199, "199", "", String::new()).is_err());
    assert!(api_realtime_call_outcome("u", 299, "299", "", String::new()).is_ok());
}

#[test]
fn core_picks_the_base_url_and_requires_auth() {
    assert_eq!(
        realtime_call_base_url(AuthMode::Chatgpt, "https://api/v1".to_string(), "https://chatgpt.com/backend-api/"),
        "https://chatgpt.com/backend-api"
    );
    assert_eq!(
        realtime_call_base_url(AuthMode::ApiKey, "https://api/v1/".to_string(), "https://chatgpt.com"),
        "https://api/v1/"
    );
    assert_eq!(
        realtime_call_auth_required(),
        CodexErr::InvalidRequest("codex account authentication required to create realtime call".to_string())
    );
}

#[test]
fn session_gets_the_model_when_it_is_an_object() {
    assert_eq!(
        realtime_session_with_model(json(r#"{"type": "realtime"}"#), Some("gpt-realtime".to_string())),
        json(r#"{"type": "realtime", "model": "gpt-realtime"}"#)
    );
    assert_eq!(realtime_session_with_model(json("[]"), Some("m".to_string())), json("[]"));
    assert_eq!(realtime_session_with_model(json(r#"{"a": 1}"#), None), json(r#"{"a": 1}"#));
}
