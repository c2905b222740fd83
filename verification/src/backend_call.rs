//! Realtime calls through the Codex backend: one JSON body with the SDP offer
//! and the session configuration, and the SDP answer as text.
use vstd::prelude::*;

use crate::byte_buf::{bytes_as_slice, bytes_view};
use crate::http_types::{header_entries, header_map_new, method_name, method_post, no_headers};
use crate::realtime_call::{backend_call_body, backend_call_body_value, decode_utf8_body, decoded_sdp};
use crate::request::{Request, RequestCompression, Response};
use crate::session::{url_for_path, ApiError, AuthProvider, EndpointSession, Provider, RequestTelemetry};

verus! {

/// A client for the Codex backend's realtime calls endpoint.
pub struct CodexBackendRealtimeCallClient<T, A> {
    session: EndpointSession<T, A>,
}

/// The message context of an SDP answer from the backend that is not UTF-8.
pub open spec fn backend_sdp_context() -> Seq<char> {
    "failed to decode realtime call SDP"@
}

impl<T, A> CodexBackendRealtimeCallClient<T, A> {
    pub closed spec fn spec_session(&self) -> EndpointSession<T, A> {
        self.session
    }

    /// The base URL of the client's provider.
    pub open spec fn base_url(&self) -> Seq<char> {
        self.spec_session().spec_provider().base_url@
    }

    pub fn new(transport: T, provider: Provider, auth: A) -> (client: Self)
        ensures
            client.spec_session().spec_transport() == transport,
            client.spec_session().spec_provider() == provider,
            client.spec_session().spec_auth() == auth,
            client.spec_session().spec_request_telemetry() is None,
    {
        CodexBackendRealtimeCallClient { session: EndpointSession::new(transport, provider, auth) }
    }

    pub fn with_telemetry(self, request: Option<std::sync::Arc<dyn RequestTelemetry>>) -> (client: Self)
        ensures
            client.spec_session().spec_transport() == self.spec_session().spec_transport(),
            client.spec_session().spec_provider() == self.spec_session().spec_provider(),
            client.spec_session().spec_auth() == self.spec_session().spec_auth(),
            client.spec_session().spec_request_telemetry() == request,
    {
        CodexBackendRealtimeCallClient { session: self.session.with_request_telemetry(request) }
    }

    /// The session that the client sends through.
    pub fn session(&self) -> (session: &EndpointSession<T, A>)
        ensures
            *session == self.spec_session(),
    {
        &self.session
    }

    /// The path of the backend's realtime calls endpoint.
    pub fn path() -> (path: &'static str)
        ensures
            path@ == "api/codex/realtime/calls"@,
    {
        "api/codex/realtime/calls"
    }
}

impl<T, A: AuthProvider> CodexBackendRealtimeCallClient<T, A> {
    /// The request that creates a realtime call through the backend (before
    /// authentication): `POST` to the endpoint URL (no query is added), no
    /// headers, and the JSON body `{"sdp": sdp, "session": session}`.
    pub fn create_request(&self, sdp: &str, session: serde_json::Value) -> (req: Request)
        ensures
            method_name(req.method) == "POST"@,
            req.url@ == url_for_path(self.base_url(), "api/codex/realtime/calls"@),
            header_entries(req.headers) == no_headers(),
            req.body == Some(backend_call_body(sdp@, session)),
            req.raw_body is None,
            req.compression == RequestCompression::Uncompressed,
            req.timeout is None,
    {
        let body = backend_call_body_value(sdp, session);
        self.session.build_request(method_post(), Self::path(), header_map_new(), Some(body))
    }
}

/// Decodes the SDP answer that the backend sends back.
pub fn decode_backend_sdp(body: &[u8]) -> (decoded: Result<String, ApiError>)
    ensures
        decoded is Ok <==> decoded_sdp(body@, backend_sdp_context()) is Ok,
        decoded matches Ok(s) ==> Ok::<Seq<char>, Seq<char>>(s@) == decoded_sdp(
            body@,
            backend_sdp_context(),
        ),
        decoded matches Err(e) ==> e matches ApiError::Stream(m) && Err::<Seq<char>, Seq<char>>(
            m@,
        ) == decoded_sdp(body@, backend_sdp_context()),
{
    decode_utf8_body(body, "failed to decode realtime call SDP")
}

/// The SDP answer in a response from the backend.
pub fn backend_call_response(resp: &Response) -> (answer: Result<String, ApiError>)
    ensures
        answer is Ok <==> decoded_sdp(bytes_view(resp.body), backend_sdp_context()) is Ok,
        answer matches Ok(s) ==> Ok::<Seq<char>, Seq<char>>(s@) == decoded_sdp(
            bytes_view(resp.body),
            backend_sdp_context(),
        ),
        answer matches Err(e) ==> e matches ApiError::Stream(m) && Err::<Seq<char>, Seq<char>>(
            m@,
        ) == decoded_sdp(bytes_view(resp.body), backend_sdp_context()),
{
    decode_backend_sdp(bytes_as_slice(&resp.body))
}

} // verus!
