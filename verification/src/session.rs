//! The endpoint session that turns a path on a provider into a request:
//! the provider's base URL, the transport, the authentication and telemetry.
use vstd::prelude::*;

use crate::http_types::{header_entries, header_key, header_map_roomy_below, header_map_try_insert, is_header_value};
use crate::request::Request;
use crate::text::{str_trim_end_slashes, strip_trailing};
use vstd::string::StringSliceAdditionalSpecFns;

verus! {

/// Where requests go: a named provider and its base URL.
pub struct Provider {
    pub name: String,
    pub base_url: String,
}

/// Gives the bearer token that authenticates requests, if there is one.
pub trait AuthProvider {
    fn bearer_token(&self) -> Option<String>;
}

/// Observes requests as they are sent.
pub trait RequestTelemetry {
}

/// Errors of an endpoint call.
#[derive(Debug, PartialEq, Eq)]
pub enum ApiError {
    /// The response could not be read or decoded.
    Stream(String),
    /// The request could not be formed.
    InvalidRequest { message: String },
    /// The transport failed.
    Transport(String),
}

/// A transport, a provider and an authentication, with optional telemetry.
pub struct EndpointSession<T, A> {
    transport: T,
    provider: Provider,
    auth: A,
    request_telemetry: Option<std::sync::Arc<dyn RequestTelemetry>>,
}

/// The URL of `path` on a provider whose base URL is `base_url`: the base URL
/// without trailing slashes, a slash, then the path.
pub open spec fn url_for_path(base_url: Seq<char>, path: Seq<char>) -> Seq<char> {
    strip_trailing(base_url, '/') + seq!['/'] + path
}

/// A base URL with or without trailing slashes addresses the same URLs.
pub proof fn lemma_url_for_path_ignores_trailing_slash(base_url: Seq<char>, path: Seq<char>)
    ensures
        url_for_path(base_url.push('/'), path) == url_for_path(base_url, path),
{
    assert(base_url.push('/').drop_last() =~= base_url);
}

/// The `Authorization` value for a bearer token.
pub open spec fn bearer_value(token: Seq<char>) -> Seq<char> {
    "Bearer "@ + token
}

impl<T, A> EndpointSession<T, A> {
    pub closed spec fn spec_transport(&self) -> T {
        self.transport
    }

    pub closed spec fn spec_provider(&self) -> Provider {
        self.provider
    }

    pub closed spec fn spec_auth(&self) -> A {
        self.auth
    }

    pub closed spec fn spec_request_telemetry(&self) -> Option<std::sync::Arc<dyn RequestTelemetry>> {
        self.request_telemetry
    }

    pub fn new(transport: T, provider: Provider, auth: A) -> (s: Self)
        ensures
            s.spec_transport() == transport,
            s.spec_provider() == provider,
            s.spec_auth() == auth,
            s.spec_request_telemetry() is None,
    {
        EndpointSession { transport, provider, auth, request_telemetry: None }
    }

    pub fn with_request_telemetry(self, request: Option<std::sync::Arc<dyn RequestTelemetry>>) -> (s: Self)
        ensures
            s.spec_transport() == self.spec_transport(),
            s.spec_provider() == self.spec_provider(),
            s.spec_auth() == self.spec_auth(),
            s.spec_request_telemetry() == request,
    {
        EndpointSession { request_telemetry: request, ..self }
    }

    pub fn provider(&self) -> (p: &Provider)
        ensures
            *p == self.spec_provider(),
    {
        &self.provider
    }

    pub fn transport(&self) -> (t: &T)
        ensures
            *t == self.spec_transport(),
    {
        &self.transport
    }

    pub fn auth(&self) -> (a: &A)
        ensures
            *a == self.spec_auth(),
    {
        &self.auth
    }
}


/// The bytes of an ASCII string are its characters, one byte each.
pub proof fn lemma_ascii_str_bytes(s: &str)
    requires
        vstd::string::is_ascii(s),
    ensures
        s.spec_bytes() =~= Seq::new(s@.len(), |i: int| s@[i] as u8),
        s.spec_bytes().len() == s@.len(),
{
    vstd::string::is_ascii_spec_bytes(s);
}

impl<T, A: AuthProvider> EndpointSession<T, A> {
    /// The URL of `path` on this session's provider.
    pub fn url_for_path(&self, path: &str) -> (url: String)
        ensures
            url@ == url_for_path(self.spec_provider().base_url@, path@),
    {
        let base = str_trim_end_slashes(self.provider.base_url.as_str());
        let mut url = base.to_owned();
        url.append("/");
        url.append(path);
        proof {
            reveal_strlit("/");
        }
        url
    }

    /// The request for `path` on this session's provider, with the given method,
    /// headers and JSON body, before authentication.
    pub fn build_request(
        &self,
        method: http::Method,
        path: &str,
        extra_headers: http::HeaderMap,
        body: Option<serde_json::Value>,
    ) -> (req: Request)
        ensures
            req.method == method,
            req.url@ == url_for_path(self.spec_provider().base_url@, path@),
            req.headers == extra_headers,
            req.body == body,
            req.raw_body is None,
            req.compression == crate::request::RequestCompression::Uncompressed,
            req.timeout is None,
    {
        let url = self.url_for_path(path);
        let mut req = Request::new(method, url);
        req.headers = extra_headers;
        req.body = body;
        req
    }

    /// Authenticates the request with the bearer token that the session's
    /// authentication gives, if it gives one; true when the header was set.
    /// The request changes exactly as `apply_bearer_token` changes it for a
    /// token that the authentication's `bearer_token` can give (which its
    /// implementation decides).
    pub fn authorize(&self, req: &mut Request) -> (authorized: bool)
        ensures
            exists|token: Option<String>|
                call_ensures(A::bearer_token, (&self.spec_auth(),), token) && bearer_token_applied(
                    *old(req),
                    *final(req),
                    token,
                    authorized,
                ),
    {
        let token = self.auth.bearer_token();
        let ghost given = token;
        assert(call_ensures(A::bearer_token, (&self.spec_auth(),), given));
        let authorized = apply_bearer_token(req, token);
        assert(bearer_token_applied(*old(req), *final(req), given, authorized));
        authorized
    }
}

/// `after` is `before` with the bearer token applied (`authorized` says whether
/// the header was set): nothing but the `Authorization` header changes; with no
/// token, nothing is set; when set, the header holds `Bearer <token>` alone;
/// when not, the headers are as they were; and with a token whose `Bearer`
/// value is a valid header value, and fewer than `header_map_roomy_below()`
/// header names, it is set.
pub open spec fn bearer_token_applied(
    before: Request,
    after: Request,
    token: Option<String>,
    authorized: bool,
) -> bool {
    &&& after.method == before.method
    &&& after.url == before.url
    &&& after.body == before.body
    &&& after.raw_body == before.raw_body
    &&& after.compression == before.compression
    &&& after.timeout == before.timeout
    &&& token is None ==> !authorized
    &&& authorized ==> token is Some && header_entries(after.headers) == header_entries(
        before.headers,
    ).insert(authorization_key(), seq![vstd::utf8::encode_utf8(bearer_value(token->0@))])
    &&& !authorized ==> header_entries(after.headers) == header_entries(before.headers)
    &&& (token matches Some(t) && is_header_value(vstd::utf8::encode_utf8(bearer_value(t@)))
        && header_entries(before.headers).dom().len() < header_map_roomy_below()) ==> authorized
}

/// The header map key of `Authorization`.
pub open spec fn authorization_key() -> Seq<u8> {
    header_key("authorization".spec_bytes())
}

/// Sets `Authorization: Bearer <token>` on the request when there is a token;
/// true when the header was set. With a token whose `Bearer` value is a valid
/// header value (`is_header_value`), and fewer
/// than `header_map_roomy_below()` headers on the request, it is always set.
pub fn apply_bearer_token(req: &mut Request, token: Option<String>) -> (authorized: bool)
    ensures
        bearer_token_applied(*old(req), *final(req), token, authorized),
{
    match token {
        None => false,
        Some(t) => {
            let mut value = "Bearer ".to_owned();
            value.append(t.as_str());
            proof {
                reveal_strlit("Bearer ");
                reveal_strlit("authorization");
                lemma_ascii_str_bytes("authorization");
                assert(value@ == bearer_value(t@));
            }
            let inserted = header_map_try_insert(&mut req.headers, "authorization", value.as_str());
            inserted
        },
    }
}

} // verus!
