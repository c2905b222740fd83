//! The app server's realtime call creation: which route an authentication
//! takes, the request sent to the API with an API key, and how its response
//! and failures are answered as JSON-RPC errors.
use vstd::prelude::*;

use crate::json::{json_is_object, json_value_is_object};
use crate::text::{str_trim, str_trim_end_slashes, strip_trailing, trimmed};

verus! {

/// How the account is authenticated.
#[derive(Debug, Clone, Copy, PartialEq, Eq, Structural)]
pub enum AuthMode {
    ApiKey,
    Chatgpt,
    ChatgptAuthTokens,
}

/// A JSON-RPC error answer.
#[derive(Debug)]
pub struct JSONRPCErrorError {
    pub code: i64,
    pub message: String,
    pub data: Option<serde_json::Value>,
}

/// The JSON-RPC code of an invalid request.
pub const INVALID_REQUEST_ERROR_CODE: i64 = -32600;

/// The JSON-RPC code of an internal error.
pub const INTERNAL_ERROR_CODE: i64 = -32603;

/// The base URL of the API when the provider names none.
pub const DEFAULT_API_BASE_URL: &'static str = "https://api.openai.com/v1";

/// An invalid-request error with the message.
pub fn invalid_request_error(message: String) -> (err: JSONRPCErrorError)
    ensures
        err.code == INVALID_REQUEST_ERROR_CODE,
        err.message == message,
        err.data is None,
{
    JSONRPCErrorError { code: INVALID_REQUEST_ERROR_CODE, message, data: None }
}

/// An internal error with the message.
pub fn internal_error(message: String) -> (err: JSONRPCErrorError)
    ensures
        err.code == INTERNAL_ERROR_CODE,
        err.message == message,
        err.data is None,
{
    JSONRPCErrorError { code: INTERNAL_ERROR_CODE, message, data: None }
}

/// An internal error whose message is `context`, `": "` and `detail`.
pub fn internal_error_with_context(context: &str, detail: &str) -> (err: JSONRPCErrorError)
    ensures
        err.code == INTERNAL_ERROR_CODE,
        err.message@ == context@ + ": "@ + detail@,
        err.data is None,
{
    let mut message = context.to_owned();
    message.append(": ");
    message.append(detail);
    internal_error(message)
}

/// Where a realtime call goes: to the API with an API key, or to the Codex
/// backend with a ChatGPT login.
#[derive(Debug, Clone, Copy, PartialEq, Eq, Structural)]
pub enum RealtimeCallRoute {
    Api,
    Chatgpt,
}

/// The route of an authentication mode.
pub open spec fn route_of(mode: AuthMode) -> RealtimeCallRoute {
    match mode {
        AuthMode::ApiKey => RealtimeCallRoute::Api,
        _ => RealtimeCallRoute::Chatgpt,
    }
}

/// The message of a realtime call without authentication.
pub open spec fn auth_required_message() -> Seq<char> {
    "codex account authentication required to create realtime call"@
}

/// The route of a realtime call for the account's authentication; without one,
/// an invalid-request error.
pub fn realtime_call_route(auth_mode: Option<AuthMode>) -> (route: Result<
    RealtimeCallRoute,
    JSONRPCErrorError,
>)
    ensures
        route is Ok <==> auth_mode is Some,
        route matches Ok(r) ==> r == route_of(auth_mode->0),
        route matches Err(e) ==> e.code == INVALID_REQUEST_ERROR_CODE && e.message@
            == auth_required_message() && e.data is None,
{
    match auth_mode {
        None => Err(
            invalid_request_error(
                "codex account authentication required to create realtime call".to_owned(),
            ),
        ),
        Some(AuthMode::ApiKey) => Ok(RealtimeCallRoute::Api),
        Some(AuthMode::Chatgpt) => Ok(RealtimeCallRoute::Chatgpt),
        Some(AuthMode::ChatgptAuthTokens) => Ok(RealtimeCallRoute::Chatgpt),
    }
}

/// The message of a ChatGPT realtime call whose session is not an object.
pub open spec fn session_not_object_message() -> Seq<char> {
    "session must be an object for chatgpt auth"@
}

/// The session of a ChatGPT realtime call, given whether it is a JSON object:
/// the session when there is one and it is an object, else an invalid-request
/// error.
pub fn chatgpt_session_checked(session: Option<serde_json::Value>, is_object: bool) -> (checked:
    Result<serde_json::Value, JSONRPCErrorError>)
    ensures
        checked is Ok <==> (session is Some && is_object),
        checked matches Ok(v) ==> session == Some(v),
        checked matches Err(e) ==> e.code == INVALID_REQUEST_ERROR_CODE && e.message@
            == session_not_object_message() && e.data is None,
{
    match session {
        Some(v) => {
            if is_object {
                Ok(v)
            } else {
                Err(invalid_request_error("session must be an object for chatgpt auth".to_owned()))
            }
        },
        None => Err(invalid_request_error("session must be an object for chatgpt auth".to_owned())),
    }
}

/// The session of a ChatGPT realtime call: the session when it is a JSON object
/// (as `Value::is_object` says), else an invalid-request error.
pub fn chatgpt_realtime_call_session(session: Option<serde_json::Value>) -> (checked: Result<
    serde_json::Value,
    JSONRPCErrorError,
>)
    ensures
        session is None ==> checked is Err,
        session matches Some(v) ==> (checked is Ok <==> json_value_is_object(v)),
        checked matches Ok(v) ==> session == Some(v),
        checked matches Err(e) ==> e.code == INVALID_REQUEST_ERROR_CODE && e.message@
            == session_not_object_message() && e.data is None,
{
    let is_object = match &session {
        Some(v) => json_is_object(v),
        None => false,
    };
    chatgpt_session_checked(session, is_object)
}

/// The URL of the API's realtime calls endpoint for a provider base URL (the
/// default one when there is none): without trailing slashes, then
/// `/realtime/calls`.
pub open spec fn api_realtime_call_url_of(base_url: Option<Seq<char>>) -> Seq<char> {
    let base = match base_url {
        Some(b) => b,
        None => DEFAULT_API_BASE_URL@,
    };
    strip_trailing(base, '/') + "/realtime/calls"@
}

/// The URL of the API's realtime calls endpoint for the provider's base URL.
pub fn api_realtime_call_url(base_url: Option<&str>) -> (url: String)
    ensures
        url@ == api_realtime_call_url_of(
            match base_url {
                Some(b) => Some(b@),
                None => None,
            },
        ),
{
    let base = match base_url {
        Some(b) => b,
        None => DEFAULT_API_BASE_URL,
    };
    let mut url = str_trim_end_slashes(base).to_owned();
    url.append("/realtime/calls");
    url
}

/// Trailing slashes on the base URL do not change the endpoint.
pub proof fn lemma_api_url_ignores_trailing_slash(base_url: Seq<char>)
    ensures
        api_realtime_call_url_of(Some(base_url.push('/'))) == api_realtime_call_url_of(
            Some(base_url),
        ),
{
    assert(base_url.push('/').drop_last() =~= base_url);
}

/// Whether a header value read from the environment is sent: when it is not
/// blank.
pub open spec fn env_value_applies(value: Seq<char>) -> bool {
    trimmed(value).len() > 0
}

/// Whether an environment header value is sent: when it is not blank.
pub fn env_header_value_applies(value: &str) -> (applies: bool)
    ensures
        applies == env_value_applies(value@),
{
    !str_trim(value).is_empty()
}

/// The views of a list of header name and value pairs.
pub open spec fn header_pair_views(pairs: Seq<(String, String)>) -> Seq<(Seq<char>, Seq<char>)> {
    pairs.map_values(|p: (String, String)| (p.0@, p.1@))
}

/// The headers that environment variables give: for each header name and the
/// value of its variable (if it is set), the pair when the value is not blank.
pub open spec fn env_headers_sent(env: Seq<(String, Option<String>)>) -> Seq<(Seq<char>, Seq<char>)>
    decreases env.len(),
{
    if env.len() == 0 {
        seq![]
    } else {
        let rest = env_headers_sent(env.drop_last());
        match env.last().1 {
            Some(v) => if env_value_applies(v@) {
                rest.push((env.last().0@, v@))
            } else {
                rest
            },
            None => rest,
        }
    }
}

/// Headers from the environment are only sent with a value that is not blank,
/// and never more of them than there are variables.
pub proof fn lemma_sent_env_headers_are_not_blank(env: Seq<(String, Option<String>)>)
    ensures
        forall|k: int|
            0 <= k < env_headers_sent(env).len() ==> env_value_applies(
                #[trigger] env_headers_sent(env)[k].1,
            ),
        env_headers_sent(env).len() <= env.len(),
    decreases env.len(),
{
    if env.len() > 0 {
        lemma_sent_env_headers_are_not_blank(env.drop_last());
    }
}

/// Every environment variable that is set to a value that is not blank gives
/// its header.
pub proof fn lemma_env_headers_sent_complete(env: Seq<(String, Option<String>)>)
    ensures
        forall|k: int|
            #![trigger env[k]]
            0 <= k < env.len() && env[k].1 is Some && trimmed(env[k].1->0@).len() > 0
                ==> exists|i: int|
                0 <= i < env_headers_sent(env).len() && #[trigger] env_headers_sent(env)[i] == (
                    env[k].0@,
                    env[k].1->0@,
                ),
    decreases env.len(),
{
    if env.len() > 0 {
        let prefix = env.drop_last();
        lemma_env_headers_sent_complete(prefix);
        let rest = env_headers_sent(prefix);
        let sent = env_headers_sent(env);
        assert forall|j: int| 0 <= j < rest.len() implies sent[j] == rest[j] by {}
        assert forall|k: int|
            #![trigger env[k]]
            0 <= k < env.len() && env[k].1 is Some && trimmed(env[k].1->0@).len() > 0
                implies exists|i: int|
            0 <= i < sent.len() && #[trigger] sent[i] == (env[k].0@, env[k].1->0@) by {
            if k < env.len() - 1 {
                assert(prefix[k] == env[k]);
                let i = choose|i: int|
                    0 <= i < rest.len() && #[trigger] rest[i] == (prefix[k].0@, prefix[k].1->0@);
                assert(sent[i] == rest[i]);
            } else {
                assert(sent[sent.len() - 1] == (env[k].0@, env[k].1->0@));
            }
        }
    }
}

/// Every header that the environment gives comes from a variable that is set to
/// a value that is not blank.
pub proof fn lemma_env_headers_sent_sound(env: Seq<(String, Option<String>)>)
    ensures
        forall|i: int|
            #![trigger env_headers_sent(env)[i]]
            0 <= i < env_headers_sent(env).len() ==> exists|k: int|
                0 <= k < env.len() && (#[trigger] env[k]).1 is Some && trimmed(env[k].1->0@).len()
                    > 0 && env_headers_sent(env)[i] == (env[k].0@, env[k].1->0@),
    decreases env.len(),
{
    if env.len() > 0 {
        let prefix = env.drop_last();
        lemma_env_headers_sent_sound(prefix);
        let rest = env_headers_sent(prefix);
        let sent = env_headers_sent(env);
        assert forall|i: int|
            #![trigger sent[i]]
            0 <= i < sent.len() implies exists|k: int|
            0 <= k < env.len() && (#[trigger] env[k]).1 is Some && trimmed(env[k].1->0@).len() > 0
                && sent[i] == (env[k].0@, env[k].1->0@) by {
            if i < rest.len() {
                assert(sent[i] == rest[i]);
                let k = choose|k: int|
                    0 <= k < prefix.len() && (#[trigger] prefix[k]).1 is Some && trimmed(
                        prefix[k].1->0@,
                    ).len() > 0 && rest[i] == (prefix[k].0@, prefix[k].1->0@);
                assert(env[k] == prefix[k]);
            } else {
                assert(env[env.len() - 1] == env.last());
            }
        }
    }
}

/// A realtime call's headers begin with the bearer token, then the SDP content
/// type, then the provider's headers in order.
pub proof fn lemma_api_call_headers_start(
    token: Seq<char>,
    http_headers: Seq<(String, String)>,
    env_headers: Seq<(String, Option<String>)>,
)
    ensures
        api_call_headers(token, http_headers, env_headers).len() >= 2 + http_headers.len(),
        api_call_headers(token, http_headers, env_headers)[0] == ("Authorization"@, "Bearer "@ + token),
        api_call_headers(token, http_headers, env_headers)[1] == ("Content-Type"@, "application/sdp"@),
        forall|j: int|
            0 <= j < http_headers.len() ==> #[trigger] api_call_headers(token, http_headers, env_headers)[2
                + j] == (http_headers[j].0@, http_headers[j].1@),
{
}

/// After the provider's headers, a realtime call carries one header for each
/// environment variable set to a value that is not blank, whatever the
/// provider's headers are.
pub proof fn lemma_api_call_headers_carry_env(
    token: Seq<char>,
    http_headers: Seq<(String, String)>,
    env_headers: Seq<(String, Option<String>)>,
)
    ensures
        forall|k: int|
            #![trigger env_headers[k]]
            0 <= k < env_headers.len() && env_headers[k].1 is Some && trimmed(env_headers[k].1->0@).len()
                > 0 ==> exists|i: int|
                2 + http_headers.len() <= i < api_call_headers(token, http_headers, env_headers).len()
                    && #[trigger] api_call_headers(token, http_headers, env_headers)[i] == (
                    env_headers[k].0@,
                    env_headers[k].1->0@,
                ),
{
    lemma_env_headers_sent_complete(env_headers);
    let all = api_call_headers(token, http_headers, env_headers);
    let sent = env_headers_sent(env_headers);
    let off = 2 + http_headers.len();
    assert forall|k: int|
        #![trigger env_headers[k]]
        0 <= k < env_headers.len() && env_headers[k].1 is Some && trimmed(env_headers[k].1->0@).len()
            > 0 implies exists|i: int|
        off <= i < all.len() && #[trigger] all[i] == (env_headers[k].0@, env_headers[k].1->0@) by {
        let i0 = choose|i: int|
            0 <= i < sent.len() && #[trigger] sent[i] == (env_headers[k].0@, env_headers[k].1->0@);
        assert(all[off + i0] == sent[i0]);
    }
}

/// Every header after the provider's comes from an environment variable set to
/// a value that is not blank.
pub proof fn lemma_api_call_headers_only_env(
    token: Seq<char>,
    http_headers: Seq<(String, String)>,
    env_headers: Seq<(String, Option<String>)>,
)
    ensures
        forall|i: int|
            #![trigger api_call_headers(token, http_headers, env_headers)[i]]
            2 + http_headers.len() <= i < api_call_headers(token, http_headers, env_headers).len()
                ==> exists|k: int|
                0 <= k < env_headers.len() && (#[trigger] env_headers[k]).1 is Some && trimmed(
                    env_headers[k].1->0@,
                ).len() > 0 && api_call_headers(token, http_headers, env_headers)[i] == (
                    env_headers[k].0@,
                    env_headers[k].1->0@,
                ),
{
    lemma_env_headers_sent_sound(env_headers);
    let all = api_call_headers(token, http_headers, env_headers);
    let sent = env_headers_sent(env_headers);
    let off = 2 + http_headers.len();
    assert forall|i: int|
        #![trigger all[i]]
        off <= i < all.len() implies exists|k: int|
        0 <= k < env_headers.len() && (#[trigger] env_headers[k]).1 is Some && trimmed(
            env_headers[k].1->0@,
        ).len() > 0 && all[i] == (env_headers[k].0@, env_headers[k].1->0@) by {
        assert(all[i] == sent[i - off]);
    }
}

/// The headers of a realtime call to the API: the bearer token, the SDP
/// content type, the provider's headers, then the environment's headers.
pub open spec fn api_call_headers(
    token: Seq<char>,
    http_headers: Seq<(String, String)>,
    env_headers: Seq<(String, Option<String>)>,
) -> Seq<(Seq<char>, Seq<char>)> {
    seq![("Authorization"@, "Bearer "@ + token), ("Content-Type"@, "application/sdp"@)]
        + header_pair_views(http_headers) + env_headers_sent(env_headers)
}

/// What a header list laid out as `api_call_headers` holds, position by
/// position and header by header.
#[verifier::spinoff_prover]
#[verifier::rlimit(80)]
proof fn lemma_headers_direct(
    headers: Seq<(String, String)>,
    token: Seq<char>,
    http_headers: Seq<(String, String)>,
    env_headers: Seq<(String, Option<String>)>,
)
    requires
        header_pair_views(headers) == api_call_headers(token, http_headers, env_headers),
    ensures
        headers.len() >= 2 + http_headers.len(),
        headers[0].0@ == "Authorization"@ && headers[0].1@ == "Bearer "@ + token,
        headers[1].0@ == "Content-Type"@ && headers[1].1@ == "application/sdp"@,
        forall|j: int|
            0 <= j < http_headers.len() ==> (#[trigger] headers[2 + j]).0@ == http_headers[j].0@
                && headers[2 + j].1@ == http_headers[j].1@,
        forall|k: int|
            #![trigger env_headers[k]]
            0 <= k < env_headers.len() && env_headers[k].1 is Some && trimmed(env_headers[k].1->0@).len()
                > 0 ==> exists|i: int|
                2 + http_headers.len() <= i < headers.len() && (#[trigger] headers[i]).0@
                    == env_headers[k].0@ && headers[i].1@ == env_headers[k].1->0@,
{
    let views = header_pair_views(headers);
    let all = api_call_headers(token, http_headers, env_headers);
    assert forall|j: int| 0 <= j < headers.len() implies #[trigger] views[j] == (
        headers[j].0@,
        headers[j].1@,
    ) by {}
    assert(headers.len() >= 2 + http_headers.len()) by {
        lemma_api_call_headers_start(token, http_headers, env_headers);
    }
    assert(headers[0].0@ == "Authorization"@ && headers[0].1@ == "Bearer "@ + token) by {
        lemma_api_call_headers_start(token, http_headers, env_headers);
        assert(views[0] == all[0]);
    }
    assert(headers[1].0@ == "Content-Type"@ && headers[1].1@ == "application/sdp"@) by {
        lemma_api_call_headers_start(token, http_headers, env_headers);
        assert(views[1] == all[1]);
    }
    assert forall|j: int| 0 <= j < http_headers.len() implies (#[trigger] headers[2 + j]).0@
        == http_headers[j].0@ && headers[2 + j].1@ == http_headers[j].1@ by {
        lemma_api_call_headers_start(token, http_headers, env_headers);
        assert(views[2 + j] == all[2 + j]);
    }
    assert forall|k: int|
        #![trigger env_headers[k]]
        0 <= k < env_headers.len() && env_headers[k].1 is Some && trimmed(env_headers[k].1->0@).len()
            > 0 implies exists|i: int|
        2 + http_headers.len() <= i < headers.len() && (#[trigger] headers[i]).0@
            == env_headers[k].0@ && headers[i].1@ == env_headers[k].1->0@ by {
        lemma_api_call_headers_carry_env(token, http_headers, env_headers);
        let i = choose|i: int|
            2 + http_headers.len() <= i < all.len() && #[trigger] all[i] == (
                env_headers[k].0@,
                env_headers[k].1->0@,
            );
        assert(views[i] == all[i]);
    }
}

/// A realtime call to the API as it is sent: `POST` to the URL with the
/// headers (in order) and the SDP offer as body.
#[derive(Debug)]
pub struct ApiRealtimeCallRequest {
    pub url: String,
    pub headers: Vec<(String, String)>,
    pub body: String,
}

/// The realtime call to the API for a provider base URL, an API key, an SDP
/// offer, the provider's headers and the environment's header values.
#[verifier::rlimit(60)]
pub fn api_realtime_call_request(
    base_url: Option<&str>,
    token: &str,
    sdp: String,
    http_headers: Vec<(String, String)>,
    env_headers: Vec<(String, Option<String>)>,
) -> (req: ApiRealtimeCallRequest)
    ensures
        req.url@ == api_realtime_call_url_of(
            match base_url {
                Some(b) => Some(b@),
                None => None,
            },
        ),
        header_pair_views(req.headers@) == api_call_headers(token@, http_headers@, env_headers@),
        req.headers@.len() >= 2 + http_headers@.len(),
        req.headers@[0].0@ == "Authorization"@ && req.headers@[0].1@ == "Bearer "@ + token@,
        req.headers@[1].0@ == "Content-Type"@ && req.headers@[1].1@ == "application/sdp"@,
        forall|j: int|
            0 <= j < http_headers@.len() ==> (#[trigger] req.headers@[2 + j]).0@
                == http_headers@[j].0@ && req.headers@[2 + j].1@ == http_headers@[j].1@,
        forall|k: int|
            #![trigger env_headers@[k]]
            0 <= k < env_headers@.len() && env_headers@[k].1 is Some && trimmed(
                env_headers@[k].1->0@,
            ).len() > 0 ==> exists|i: int|
                2 + http_headers@.len() <= i < req.headers@.len() && (#[trigger] req.headers@[i]).0@
                    == env_headers@[k].0@ && req.headers@[i].1@ == env_headers@[k].1->0@,
        req.body == sdp,
{
    let url = api_realtime_call_url(base_url);
    let mut headers: Vec<(String, String)> = Vec::new();
    let mut bearer = "Bearer ".to_owned();
    bearer.append(token);
    headers.push(("Authorization".to_owned(), bearer));
    headers.push(("Content-Type".to_owned(), "application/sdp".to_owned()));
    proof {
        assert(header_pair_views(headers@) =~= seq![
            ("Authorization"@, "Bearer "@ + token@),
            ("Content-Type"@, "application/sdp"@),
        ]);
    }
    let ghost start = header_pair_views(headers@);
    let mut i: usize = 0;
    while i < http_headers.len()
        invariant
            i <= http_headers.len(),
            header_pair_views(headers@) == start + header_pair_views(http_headers@.take(i as int)),
        decreases http_headers.len() - i,
    {
        let name = http_headers[i].0.clone();
        let value = http_headers[i].1.clone();
        let ghost before = headers@;
        headers.push((name, value));
        proof {
            assert(http_headers@.take(i + 1) =~= http_headers@.take(i as int).push(http_headers@[i as int]));
            assert(header_pair_views(headers@) =~= header_pair_views(before).push(
                (http_headers@[i as int].0@, http_headers@[i as int].1@),
            ));
            assert(header_pair_views(http_headers@.take(i + 1)) =~= header_pair_views(
                http_headers@.take(i as int),
            ).push((http_headers@[i as int].0@, http_headers@[i as int].1@)));
            assert(header_pair_views(headers@) =~= start + header_pair_views(http_headers@.take(i + 1)));
        }
        i = i + 1;
    }
    proof {
        assert(http_headers@.take(http_headers@.len() as int) =~= http_headers@);
    }
    let ghost mid = header_pair_views(headers@);
    let mut j: usize = 0;
    while j < env_headers.len()
        invariant
            j <= env_headers.len(),
            header_pair_views(headers@) == mid + env_headers_sent(env_headers@.take(j as int)),
        decreases env_headers.len() - j,
    {
        proof {
            assert(env_headers@.take(j + 1).drop_last() =~= env_headers@.take(j as int));
            assert(env_headers@.take(j + 1).last() == env_headers@[j as int]);
        }
        match &env_headers[j].1 {
            Some(value) => {
                if env_header_value_applies(value.as_str()) {
                    let name = env_headers[j].0.clone();
                    let ghost before = headers@;
                    headers.push((name, value.clone()));
                    proof {
                        assert(header_pair_views(headers@) =~= header_pair_views(before).push(
                            (env_headers@[j as int].0@, value@),
                        ));
                        assert(header_pair_views(headers@) =~= mid + env_headers_sent(
                            env_headers@.take(j + 1),
                        ));
                    }
                }
            },
            None => {},
        }
        j = j + 1;
    }
    proof {
        assert(env_headers@.take(env_headers@.len() as int) =~= env_headers@);
        lemma_headers_direct(headers@, token@, http_headers@, env_headers@);
    }
    ApiRealtimeCallRequest { url, headers, body: sdp }
}

/// Whether an HTTP status code is a success (2xx).
pub open spec fn is_success_status(status: u16) -> bool {
    200 <= status <= 299
}

/// The successful statuses are exactly the 2xx ones, 200 and 299 included.
pub proof fn lemma_success_statuses_are_2xx(status: u16)
    ensures
        is_success_status(status) <==> (200 <= status && status <= 299),
        is_success_status(200) && is_success_status(204) && is_success_status(299),
        !is_success_status(199) && !is_success_status(300),
{
}

/// The message of a realtime call that the API refused.
pub open spec fn refused_call_message(
    url: Seq<char>,
    status: Seq<char>,
    content_type: Seq<char>,
    body: Seq<char>,
) -> Seq<char> {
    "failed to create realtime call: POST "@ + url + " failed: "@ + status + "; content-type="@
        + content_type + "; body="@ + body
}

/// The answer to a realtime call from the API's response: its body (the SDP
/// answer) when the status is a success, else an internal error that names the
/// URL, the status (as displayed), the content type and the body.
pub fn api_realtime_call_outcome(
    url: &str,
    status: u16,
    status_text: &str,
    content_type: &str,
    body: String,
) -> (answer: Result<String, JSONRPCErrorError>)
    ensures
        answer is Ok <==> (200 <= status && status <= 299),
        answer is Ok <==> is_success_status(status),
        answer matches Ok(sdp) ==> sdp == body,
        answer matches Err(e) ==> e.code == INTERNAL_ERROR_CODE && e.message@ == refused_call_message(
            url@,
            status_text@,
            content_type@,
            body@,
        ) && e.data is None,
{
    if 200 <= status && status <= 299 {
        return Ok(body);
    }
    let mut message = "failed to create realtime call: POST ".to_owned();
    message.append(url);
    message.append(" failed: ");
    message.append(status_text);
    message.append("; content-type=");
    message.append(content_type);
    message.append("; body=");
    message.append(body.as_str());
    Err(internal_error(message))
}

} // verus!
