//! The core's realtime call creation: the authentication it needs, the base
//! URL and client it picks, and the session configuration it sends.
use vstd::prelude::*;

use crate::app_server::{route_of, AuthMode, RealtimeCallRoute};
use crate::json::{json_object_insert, json_object_with_entry, json_string, json_string_value, json_value_is_object};
use crate::text::{str_trim_end_slashes, strip_trailing};

verus! {

/// Errors of the core.
#[derive(Debug, PartialEq, Eq)]
pub enum CodexErr {
    /// The request cannot be served as it is.
    InvalidRequest(String),
}

/// The error of a realtime call without authentication.
pub fn realtime_call_auth_required() -> (err: CodexErr)
    ensures
        err matches CodexErr::InvalidRequest(m) && m@
            == "codex account authentication required to create realtime call"@,
{
    CodexErr::InvalidRequest("codex account authentication required to create realtime call".to_owned())
}

/// The base URL that a realtime call uses: with a ChatGPT login, the ChatGPT
/// base URL without trailing slashes; with an API key, the provider's.
pub open spec fn realtime_call_base_url_of(
    mode: AuthMode,
    provider_base_url: Seq<char>,
    chatgpt_base_url: Seq<char>,
) -> Seq<char> {
    match mode {
        AuthMode::ApiKey => provider_base_url,
        _ => strip_trailing(chatgpt_base_url, '/'),
    }
}

/// Both ChatGPT logins, and only they, take the backend route; an API key takes
/// the API route.
pub proof fn lemma_routes_of_modes(mode: AuthMode)
    ensures
        route_of(mode) == RealtimeCallRoute::Api <==> mode == AuthMode::ApiKey,
        route_of(mode) == RealtimeCallRoute::Chatgpt <==> (mode == AuthMode::Chatgpt || mode
            == AuthMode::ChatgptAuthTokens),
{
}

/// The base URL follows the route: every login that goes to the backend uses
/// the ChatGPT base URL without trailing slashes, and the API route uses the
/// provider's base URL as it is.
pub proof fn lemma_base_url_follows_route(
    mode: AuthMode,
    provider_base_url: Seq<char>,
    chatgpt_base_url: Seq<char>,
)
    ensures
        (mode == AuthMode::Chatgpt || mode == AuthMode::ChatgptAuthTokens) ==> realtime_call_base_url_of(
            mode,
            provider_base_url,
            chatgpt_base_url,
        ) == strip_trailing(chatgpt_base_url, '/'),
        route_of(mode) == RealtimeCallRoute::Chatgpt ==> realtime_call_base_url_of(
            mode,
            provider_base_url,
            chatgpt_base_url,
        ) == strip_trailing(chatgpt_base_url, '/'),
        mode == AuthMode::ApiKey ==> realtime_call_base_url_of(mode, provider_base_url, chatgpt_base_url)
            == provider_base_url,
{
}

/// The base URL that a realtime call uses for the authentication mode.
pub fn realtime_call_base_url(mode: AuthMode, provider_base_url: String, chatgpt_base_url: &str) -> (url:
    String)
    ensures
        url@ == realtime_call_base_url_of(mode, provider_base_url@, chatgpt_base_url@),
        (mode == AuthMode::Chatgpt || mode == AuthMode::ChatgptAuthTokens) ==> url@ == strip_trailing(
            chatgpt_base_url@,
            '/',
        ),
        mode == AuthMode::ApiKey ==> url == provider_base_url,
{
    match mode {
        AuthMode::ApiKey => provider_base_url,
        AuthMode::Chatgpt | AuthMode::ChatgptAuthTokens => str_trim_end_slashes(
            chatgpt_base_url,
        ).to_owned(),
    }
}

/// The client that a realtime call goes through for the authentication mode:
/// the API's realtime calls client with an API key, the backend's with a ChatGPT
/// login.
pub fn realtime_call_client_route(mode: AuthMode) -> (route: RealtimeCallRoute)
    ensures
        route == route_of(mode),
{
    match mode {
        AuthMode::ApiKey => RealtimeCallRoute::Api,
        AuthMode::Chatgpt | AuthMode::ChatgptAuthTokens => RealtimeCallRoute::Chatgpt,
    }
}

/// The session configuration of a realtime call with its model: with a model
/// and a configuration that is a JSON object, the object with `"model"` set to
/// the model's name (as a JSON string); otherwise the configuration as it is.
pub open spec fn session_with_model(session: serde_json::Value, model: Option<String>) -> serde_json::Value {
    match model {
        Some(m) => if json_value_is_object(session) {
            json_object_with_entry(session, "model"@, json_string(m@))
        } else {
            session
        },
        None => session,
    }
}

/// The session configuration of a realtime call, with `"model"` set to the
/// model when there is one and the configuration is a JSON object; otherwise
/// the configuration as it is.
pub fn realtime_session_with_model(session: serde_json::Value, model: Option<String>) -> (with_model:
    serde_json::Value)
    ensures
        with_model == session_with_model(session, model),
{
    let mut session = session;
    match model {
        Some(m) => {
            let name = json_string_value(m.as_str());
            let _ = json_object_insert(&mut session, "model", name);
        },
        None => {},
    }
    session
}

} // verus!
