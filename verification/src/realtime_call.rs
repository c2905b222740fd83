//! Realtime calls: the request that creates one from an SDP offer (alone, or
//! with a session configuration) and the SDP answer read back.
use vstd::prelude::*;

use crate::byte_buf::{bytes_as_slice, bytes_from_vec, bytes_view};
use crate::http_types::{header_entries, header_key, header_map_new, header_map_roomy_below, header_map_try_insert, is_header_value, method_name, method_post, no_headers};
use crate::json::{json_entry_views, json_object_from_entries, json_object_of, json_string, json_string_value, json_text, json_to_string};
use crate::request::{Request, RequestCompression, Response};
use crate::session::{lemma_ascii_str_bytes, url_for_path, ApiError, AuthProvider, EndpointSession, Provider, RequestTelemetry};
use crate::text::{has_infix, str_contains, string_from_utf8, utf8_error_text};
use crate::url_query::{string_views, url_append_query_pair, url_parses, url_query_names, url_query_names_of, url_reserialize, url_serialization, url_with_query_pair};
use vstd::string::StringSliceAdditionalSpecFns;
use vstd::utf8::{decode_utf8, encode_utf8, valid_utf8};

verus! {

/// The boundary between the parts of a multipart realtime call body.
pub const MULTIPART_BOUNDARY: &'static str = "codex-realtime-call-boundary";

/// The value of the `intent` query parameter of realtime call URLs.
pub const REALTIME_CALL_INTENT: &'static str = "quicksilver";

/// The SDP answer to a realtime call.
#[derive(Debug, Clone, PartialEq, Eq)]
pub struct RealtimeCallResponse {
    pub sdp: String,
}

/// The URL with the realtime call intent: the URL's serialization when its
/// query already names `intent`, else the serialization with
/// `intent=quicksilver` appended to the query.
pub open spec fn with_realtime_call_intent(url: Seq<char>) -> Seq<char> {
    if url_query_names(url).contains("intent"@) {
        url_serialization(url)
    } else {
        url_with_query_pair(url, "intent"@, REALTIME_CALL_INTENT@)
    }
}

/// Appends `b` to `out`.
fn push_bytes(out: &mut Vec<u8>, b: &[u8])
    ensures
        final(out)@ == old(out)@ + b@,
{
    out.extend_from_slice(b);
    assert(final(out)@ =~= old(out)@ + b@);
}

/// Whether a query name is `intent`.
fn is_intent_name(name: &String) -> (is_intent: bool)
    ensures
        is_intent == (name@ == "intent"@),
{
    let intent = "intent".to_owned();
    *name == intent
}

/// Points the request at its URL with the realtime call intent (see
/// `with_realtime_call_intent`), given the names of the URL's query pairs.
fn append_intent_given_names(req: &mut Request, names: Vec<String>)
    requires
        url_parses(old(req).url@),
        string_views(names@) == url_query_names(old(req).url@),
    ensures
        final(req).url@ == with_realtime_call_intent(old(req).url@),
        final(req).method == old(req).method,
        final(req).headers == old(req).headers,
        final(req).body == old(req).body,
        final(req).raw_body == old(req).raw_body,
        final(req).compression == old(req).compression,
        final(req).timeout == old(req).timeout,
{
    let ghost url = req.url@;
    let mut found = false;
    let mut i: usize = 0;
    while i < names.len()
        invariant
            i <= names.len(),
            string_views(names@) == url_query_names(url),
            found == exists|j: int| 0 <= j < i && names@[j]@ == "intent"@,
        decreases names.len() - i,
    {
        let is_intent = is_intent_name(&names[i]);
        proof {
            if is_intent {
                assert(names@[i as int]@ == "intent"@);
            }
        }
        found = found || is_intent;
        i = i + 1;
    }
    proof {
        let views = string_views(names@);
        assert(views.len() == names@.len());
        if found {
            let j = choose|j: int| 0 <= j < i && names@[j]@ == "intent"@;
            assert(views[j] == "intent"@);
        }
        if views.contains("intent"@) {
            let j = choose|j: int| 0 <= j < views.len() && views[j] == "intent"@;
            assert(names@[j]@ == "intent"@);
        }
    }
    let new_url = if found {
        url_reserialize(req.url.as_str())
    } else {
        url_append_query_pair(req.url.as_str(), "intent", REALTIME_CALL_INTENT)
    };
    match new_url {
        Some(u) => {
            req.url = u;
        },
        None => {},
    }
}

/// Points the request at its URL with the realtime call intent (see
/// `with_realtime_call_intent`); the URL must parse.
pub fn append_realtime_call_intent(req: &mut Request)
    requires
        url_parses(old(req).url@),
    ensures
        final(req).url@ == with_realtime_call_intent(old(req).url@),
        final(req).method == old(req).method,
        final(req).headers == old(req).headers,
        final(req).body == old(req).body,
        final(req).raw_body == old(req).raw_body,
        final(req).compression == old(req).compression,
        final(req).timeout == old(req).timeout,
{
    match url_query_names_of(req.url.as_str()) {
        Some(names) => append_intent_given_names(req, names),
        None => {},
    }
}

/// Points the request at its URL with the realtime call intent when its URL
/// parses (true); otherwise leaves it as it is (false).
pub fn try_append_realtime_call_intent(req: &mut Request) -> (appended: bool)
    ensures
        appended == url_parses(old(req).url@),
        appended ==> final(req).url@ == with_realtime_call_intent(old(req).url@),
        !appended ==> final(req).url == old(req).url,
        final(req).method == old(req).method,
        final(req).headers == old(req).headers,
        final(req).body == old(req).body,
        final(req).raw_body == old(req).raw_body,
        final(req).compression == old(req).compression,
        final(req).timeout == old(req).timeout,
{
    match url_query_names_of(req.url.as_str()) {
        Some(_) => {
            append_realtime_call_intent(req);
            true
        },
        None => false,
    }
}


/// `--<boundary>\r\n`: the line that opens each part of the multipart body.
pub open spec fn part_boundary_line() -> Seq<char> {
    "--"@ + MULTIPART_BOUNDARY@ + "\r\n"@
}

/// `--<boundary>--\r\n`: the line that closes the multipart body.
pub open spec fn closing_boundary_line() -> Seq<char> {
    "--"@ + MULTIPART_BOUNDARY@ + "--\r\n"@
}

/// The headers of the SDP part, and the blank line after them.
pub open spec fn sdp_part_headers() -> Seq<char> {
    "Content-Disposition: form-data; name=\"sdp\"; filename=\"offer.sdp\"\r\n"@
        + "Content-Type: application/sdp\r\n\r\n"@
}

/// The headers of the session part, and the blank line after them.
pub open spec fn session_part_headers() -> Seq<char> {
    "Content-Disposition: form-data; name=\"session\"\r\n"@ + "Content-Type: application/json\r\n\r\n"@
}

/// The multipart text of a realtime call with an SDP offer and a session
/// configuration (its JSON text): an SDP part, a session part and the closing line.
pub open spec fn multipart_text(sdp: Seq<char>, session: Seq<char>) -> Seq<char> {
    part_boundary_line() + sdp_part_headers() + sdp + "\r\n"@ + part_boundary_line()
        + session_part_headers() + session + "\r\n"@ + closing_boundary_line()
}

/// The multipart body bytes for raw SDP and session bytes, piece by piece.
pub open spec fn multipart_body(sdp: Seq<u8>, session: Seq<u8>) -> Seq<u8> {
    encode_utf8(part_boundary_line()) + encode_utf8(sdp_part_headers()) + sdp + encode_utf8(
        "\r\n"@,
    ) + encode_utf8(part_boundary_line()) + encode_utf8(session_part_headers()) + session
        + encode_utf8("\r\n"@) + encode_utf8(closing_boundary_line())
}

/// UTF-8 encoding distributes over concatenation.
pub proof fn lemma_encode_utf8_concat(a: Seq<char>, b: Seq<char>)
    ensures
        encode_utf8(a + b) == encode_utf8(a) + encode_utf8(b),
    decreases a.len(),
{
    if a.len() == 0 {
        assert(a + b =~= b);
        assert(encode_utf8(a) + encode_utf8(b) =~= encode_utf8(b));
    } else {
        lemma_encode_utf8_concat(a.drop_first(), b);
        assert((a + b).drop_first() =~= a.drop_first() + b);
        assert((a + b)[0] == a[0]);
        assert(encode_utf8(a + b) =~= encode_utf8(a) + encode_utf8(b));
    }
}

/// Appends the UTF-8 bytes of `s` to `out`.
fn push_str(out: &mut Vec<u8>, s: &str)
    ensures
        final(out)@ == old(out)@ + encode_utf8(s@),
{
    push_bytes(out, s.as_bytes());
}

/// The multipart body of a realtime call: the SDP offer in a part named `sdp`
/// (file `offer.sdp`, type `application/sdp`), then the session configuration's
/// JSON text in a part named `session` (type `application/json`), each opened by
/// the boundary line, and the closing boundary line.
pub fn multipart_realtime_call_body(sdp: &str, session: &str) -> (body: Vec<u8>)
    ensures
        body@ == multipart_body(encode_utf8(sdp@), encode_utf8(session@)),
{
    let mut body: Vec<u8> = Vec::new();
    push_boundary_line(&mut body);
    push_str(&mut body, "Content-Disposition: form-data; name=\"sdp\"; filename=\"offer.sdp\"\r\n");
    push_str(&mut body, "Content-Type: application/sdp\r\n\r\n");
    proof {
        lemma_encode_utf8_concat(
            "Content-Disposition: form-data; name=\"sdp\"; filename=\"offer.sdp\"\r\n"@,
            "Content-Type: application/sdp\r\n\r\n"@,
        );
    }
    let ghost head = body@;
    assert(head =~= encode_utf8(part_boundary_line()) + encode_utf8(sdp_part_headers()));
    push_str(&mut body, sdp);
    push_str(&mut body, "\r\n");
    push_boundary_line(&mut body);
    push_str(&mut body, "Content-Disposition: form-data; name=\"session\"\r\n");
    push_str(&mut body, "Content-Type: application/json\r\n\r\n");
    proof {
        lemma_encode_utf8_concat(
            "Content-Disposition: form-data; name=\"session\"\r\n"@,
            "Content-Type: application/json\r\n\r\n"@,
        );
    }
    let ghost middle = body@;
    assert(middle =~= head + encode_utf8(sdp@) + encode_utf8("\r\n"@) + encode_utf8(
        part_boundary_line(),
    ) + encode_utf8(session_part_headers()));
    push_str(&mut body, session);
    push_str(&mut body, "\r\n");
    push_closing_line(&mut body);
    assert(body@ =~= multipart_body(encode_utf8(sdp@), encode_utf8(session@)));
    body
}

/// Appends the line that opens a part.
fn push_boundary_line(out: &mut Vec<u8>)
    ensures
        final(out)@ == old(out)@ + encode_utf8(part_boundary_line()),
{
    push_str(out, "--");
    push_str(out, MULTIPART_BOUNDARY);
    push_str(out, "\r\n");
    proof {
        lemma_encode_utf8_concat("--"@, MULTIPART_BOUNDARY@);
        lemma_encode_utf8_concat("--"@ + MULTIPART_BOUNDARY@, "\r\n"@);
        assert(final(out)@ =~= old(out)@ + encode_utf8(part_boundary_line()));
    }
}

/// Appends the line that closes the body.
fn push_closing_line(out: &mut Vec<u8>)
    ensures
        final(out)@ == old(out)@ + encode_utf8(closing_boundary_line()),
{
    push_str(out, "--");
    push_str(out, MULTIPART_BOUNDARY);
    push_str(out, "--\r\n");
    proof {
        lemma_encode_utf8_concat("--"@, MULTIPART_BOUNDARY@);
        lemma_encode_utf8_concat("--"@ + MULTIPART_BOUNDARY@, "--\r\n"@);
        assert(final(out)@ =~= old(out)@ + encode_utf8(closing_boundary_line()));
    }
}

/// The multipart body is the UTF-8 encoding of the multipart text; so it is
/// valid UTF-8, and decoding it gives the text back, with the SDP offer and the
/// session text each standing whole in their part.
pub proof fn lemma_multipart_body_is_encoded_text(sdp: Seq<char>, session: Seq<char>)
    ensures
        multipart_body(encode_utf8(sdp), encode_utf8(session)) == encode_utf8(
            multipart_text(sdp, session),
        ),
        valid_utf8(multipart_body(encode_utf8(sdp), encode_utf8(session))),
        decode_utf8(multipart_body(encode_utf8(sdp), encode_utf8(session))) == multipart_text(
            sdp,
            session,
        ),
        multipart_text(sdp, session).subrange(
            (part_boundary_line().len() + sdp_part_headers().len()) as int,
            (part_boundary_line().len() + sdp_part_headers().len() + sdp.len()) as int,
        ) == sdp,
{
    let p1 = part_boundary_line();
    let h1 = sdp_part_headers();
    let crlf = "\r\n"@;
    let h2 = session_part_headers();
    let close = closing_boundary_line();
    lemma_encode_utf8_concat(p1, h1);
    lemma_encode_utf8_concat(p1 + h1, sdp);
    lemma_encode_utf8_concat(p1 + h1 + sdp, crlf);
    lemma_encode_utf8_concat(p1 + h1 + sdp + crlf, p1);
    lemma_encode_utf8_concat(p1 + h1 + sdp + crlf + p1, h2);
    lemma_encode_utf8_concat(p1 + h1 + sdp + crlf + p1 + h2, session);
    lemma_encode_utf8_concat(p1 + h1 + sdp + crlf + p1 + h2 + session, crlf);
    lemma_encode_utf8_concat(p1 + h1 + sdp + crlf + p1 + h2 + session + crlf, close);
    assert(multipart_body(encode_utf8(sdp), encode_utf8(session)) =~= encode_utf8(
        multipart_text(sdp, session),
    ));
    vstd::utf8::encode_utf8_valid_utf8(multipart_text(sdp, session));
    vstd::utf8::encode_utf8_decode_utf8(multipart_text(sdp, session));
    assert(multipart_text(sdp, session).subrange(
        (p1.len() + h1.len()) as int,
        (p1.len() + h1.len() + sdp.len()) as int,
    ) =~= sdp);
}


/// The header map key of `Content-Type`.
pub open spec fn content_type_key() -> Seq<u8> {
    header_key("content-type".spec_bytes())
}

/// `headers` is `before` with `Content-Type` set to `value`, or, where the map
/// had no room left, `before` itself; with fewer than `header_map_roomy_below()`
/// names in `before` it is always the former.
pub open spec fn content_type_set(
    headers: Map<Seq<u8>, Seq<Seq<u8>>>,
    before: Map<Seq<u8>, Seq<Seq<u8>>>,
    value: Seq<char>,
) -> bool {
    let set = before.insert(content_type_key(), seq![encode_utf8(value)]);
    &&& (headers == set || headers == before)
    &&& before.dom().len() < header_map_roomy_below() ==> headers == set
}

/// The content type of a multipart realtime call body.
pub open spec fn multipart_content_type() -> Seq<char> {
    "multipart/form-data; boundary=codex-realtime-call-boundary"@
}

/// Sets `Content-Type` on the request to one of the content types that realtime
/// calls send.
fn set_content_type(req: &mut Request, value: &str)
    requires
        value@ == "application/sdp"@ || value@ == multipart_content_type(),
    ensures
        content_type_set(header_entries(final(req).headers), header_entries(old(req).headers), value@),
        final(req).method == old(req).method,
        final(req).url == old(req).url,
        final(req).body == old(req).body,
        final(req).raw_body == old(req).raw_body,
        final(req).compression == old(req).compression,
        final(req).timeout == old(req).timeout,
{
    proof {
        reveal_strlit("content-type");
        lemma_ascii_str_bytes("content-type");
        reveal_strlit("application/sdp");
        reveal_strlit("multipart/form-data; boundary=codex-realtime-call-boundary");
        vstd::utf8::is_ascii_chars_encode_utf8(value@);
        assert(is_header_value(value.spec_bytes()));
    }
    let _ = header_map_try_insert(&mut req.headers, "content-type", value);
}

/// Decodes an SDP answer: the text of the body when it is UTF-8, else an error
/// whose message is `context`, `": "` and the UTF-8 error's text.
pub open spec fn decoded_sdp(body: Seq<u8>, context: Seq<char>) -> Result<Seq<char>, Seq<char>> {
    if valid_utf8(body) {
        Ok(decode_utf8(body))
    } else {
        Err(context + ": "@ + utf8_error_text(body))
    }
}

/// Decodes the body of a response as text, or a stream error with `context`.
pub fn decode_utf8_body(body: &[u8], context: &str) -> (decoded: Result<String, ApiError>)
    ensures
        decoded is Ok <==> decoded_sdp(body@, context@) is Ok,
        decoded matches Ok(s) ==> Ok::<Seq<char>, Seq<char>>(s@) == decoded_sdp(body@, context@),
        decoded matches Err(e) ==> e matches ApiError::Stream(m) && Err::<Seq<char>, Seq<char>>(m@)
            == decoded_sdp(body@, context@),
{
    match string_from_utf8(vstd::slice::slice_to_vec(body)) {
        Ok(s) => Ok(s),
        Err(detail) => {
            let mut message = context.to_owned();
            message.append(": ");
            message.append(detail.as_str());
            proof {
                reveal_strlit(": ");
            }
            Err(ApiError::Stream(message))
        },
    }
}

/// The message context of an SDP answer that is not UTF-8.
pub open spec fn sdp_response_context() -> Seq<char> {
    "failed to decode realtime call SDP response"@
}

/// Decodes the SDP answer of a realtime call.
pub fn decode_sdp_response(body: &[u8]) -> (decoded: Result<String, ApiError>)
    ensures
        decoded is Ok <==> decoded_sdp(body@, sdp_response_context()) is Ok,
        decoded matches Ok(s) ==> Ok::<Seq<char>, Seq<char>>(s@) == decoded_sdp(
            body@,
            sdp_response_context(),
        ),
        decoded matches Err(e) ==> e matches ApiError::Stream(m) && Err::<Seq<char>, Seq<char>>(
            m@,
        ) == decoded_sdp(body@, sdp_response_context()),
{
    decode_utf8_body(body, "failed to decode realtime call SDP response")
}

/// The response to a realtime call: its SDP answer, decoded from the body.
pub fn realtime_call_response(resp: &Response) -> (answer: Result<RealtimeCallResponse, ApiError>)
    ensures
        answer is Ok <==> decoded_sdp(bytes_view(resp.body), sdp_response_context()) is Ok,
        answer matches Ok(a) ==> Ok::<Seq<char>, Seq<char>>(a.sdp@) == decoded_sdp(
            bytes_view(resp.body),
            sdp_response_context(),
        ),
        answer matches Err(e) ==> e matches ApiError::Stream(m) && Err::<Seq<char>, Seq<char>>(
            m@,
        ) == decoded_sdp(bytes_view(resp.body), sdp_response_context()),
{
    match decode_sdp_response(bytes_as_slice(&resp.body)) {
        Ok(sdp) => Ok(RealtimeCallResponse { sdp }),
        Err(e) => Err(e),
    }
}

/// Decoding the UTF-8 bytes of a text gives the text back.
pub proof fn lemma_decode_of_encoded_text(text: Seq<char>, context: Seq<char>)
    ensures
        decoded_sdp(encode_utf8(text), context) == Ok::<Seq<char>, Seq<char>>(text),
{
    vstd::utf8::encode_utf8_valid_utf8(text);
    vstd::utf8::encode_utf8_decode_utf8(text);
}


/// A client for the realtime calls endpoint of a provider.
pub struct RealtimeCallClient<T, A> {
    session: EndpointSession<T, A>,
}

/// The URL of the realtime calls endpoint on a provider with this base URL.
pub open spec fn realtime_calls_url(base_url: Seq<char>) -> Seq<char> {
    url_for_path(base_url, "realtime/calls"@)
}

/// `r` is the request that sends the SDP offer `sdp` to `url`: `POST`, the URL with the
/// realtime call intent, `extra` headers with `Content-Type: application/sdp`,
/// the offer's bytes as raw body, no JSON body.
pub open spec fn is_sdp_offer_request(
    r: Request,
    url: Seq<char>,
    sdp: Seq<char>,
    extra: Map<Seq<u8>, Seq<Seq<u8>>>,
) -> bool {
    &&& method_name(r.method) == "POST"@
    &&& r.url@ == with_realtime_call_intent(url)
    &&& content_type_set(header_entries(r.headers), extra, "application/sdp"@)
    &&& r.raw_body_bytes() == Some(encode_utf8(sdp))
    &&& r.body is None
    &&& r.compression == RequestCompression::Uncompressed
    &&& r.timeout is None
}

/// `r` is the request that sends the SDP offer `sdp` and the session
/// configuration's JSON text `session` to `url` as a multipart body, by `POST`.
pub open spec fn is_multipart_call_request(
    r: Request,
    url: Seq<char>,
    sdp: Seq<char>,
    session: Seq<char>,
    extra: Map<Seq<u8>, Seq<Seq<u8>>>,
) -> bool {
    &&& method_name(r.method) == "POST"@
    &&& r.url@ == with_realtime_call_intent(url)
    &&& content_type_set(header_entries(r.headers), extra, multipart_content_type())
    &&& r.raw_body_bytes() == Some(multipart_body(encode_utf8(sdp), encode_utf8(session)))
    &&& r.body is None
    &&& r.compression == RequestCompression::Uncompressed
    &&& r.timeout is None
}

impl<T, A> RealtimeCallClient<T, A> {
    pub closed spec fn spec_session(&self) -> EndpointSession<T, A> {
        self.session
    }

    /// The base URL of the client's provider.
    pub open spec fn base_url(&self) -> Seq<char> {
        self.spec_session().spec_provider().base_url@
    }

    pub fn new(transport: T, provider: Provider, auth: A) -> (client: Self)
        ensures
            client.spec_session().spec_transport() == transport,
            client.spec_session().spec_provider() == provider,
            client.spec_session().spec_auth() == auth,
            client.spec_session().spec_request_telemetry() is None,
    {
        RealtimeCallClient { session: EndpointSession::new(transport, provider, auth) }
    }

    pub fn with_telemetry(self, request: Option<std::sync::Arc<dyn RequestTelemetry>>) -> (client: Self)
        ensures
            client.spec_session().spec_transport() == self.spec_session().spec_transport(),
            client.spec_session().spec_provider() == self.spec_session().spec_provider(),
            client.spec_session().spec_auth() == self.spec_session().spec_auth(),
            client.spec_session().spec_request_telemetry() == request,
    {
        RealtimeCallClient { session: self.session.with_request_telemetry(request) }
    }

    /// The session that the client sends through.
    pub fn session(&self) -> (session: &EndpointSession<T, A>)
        ensures
            *session == self.spec_session(),
    {
        &self.session
    }

    /// The path of the realtime calls endpoint.
    pub fn path() -> (path: &'static str)
        ensures
            path@ == "realtime/calls"@,
    {
        "realtime/calls"
    }

    /// Whether the provider is the backend API, which takes the SDP offer and
    /// the session configuration as one JSON body: its base URL contains
    /// `/backend-api`.
    pub fn uses_backend_request_shape(&self) -> (backend: bool)
        ensures
            backend == has_infix(self.base_url(), "/backend-api"@),
    {
        str_contains(self.session.provider().base_url.as_str(), "/backend-api")
    }
}

impl<T, A: AuthProvider> RealtimeCallClient<T, A> {
    /// The request that sends an SDP offer with extra headers (before
    /// authentication); `None` when the endpoint URL does not parse.
    pub fn create_with_headers_request(&self, sdp: &String, extra_headers: http::HeaderMap) -> (req:
        Option<Request>)
        ensures
            req is Some <==> url_parses(realtime_calls_url(self.base_url())),
            req matches Some(r) ==> is_sdp_offer_request(
                r,
                realtime_calls_url(self.base_url()),
                sdp@,
                header_entries(extra_headers),
            ),
    {
        let ghost extra = header_entries(extra_headers);
        let mut req = self.session.build_request(method_post(), Self::path(), extra_headers, None);
        if !try_append_realtime_call_intent(&mut req) {
            return None;
        }
        set_content_type(&mut req, "application/sdp");
        proof {
            reveal_strlit("application/sdp");
        }
        let raw = bytes_from_vec(vstd::slice::slice_to_vec(sdp.as_str().as_bytes()));
        req.raw_body = Some(raw);
        Some(req)
    }

    /// The request that sends an SDP offer (before authentication); `None` when
    /// the endpoint URL does not parse.
    pub fn create_request(&self, sdp: &String) -> (req: Option<Request>)
        ensures
            req is Some <==> url_parses(realtime_calls_url(self.base_url())),
            req matches Some(r) ==> is_sdp_offer_request(
                r,
                realtime_calls_url(self.base_url()),
                sdp@,
                no_headers(),
            ),
    {
        self.create_with_headers_request(sdp, header_map_new())
    }

    /// The request that sends an SDP offer and a session configuration, given
    /// as its JSON text, as a multipart body (before authentication); `None` when
    /// the endpoint URL does not parse.
    pub fn multipart_call_request(&self, sdp: &String, session: &str, extra_headers: http::HeaderMap) -> (req:
        Option<Request>)
        ensures
            req is Some <==> url_parses(realtime_calls_url(self.base_url())),
            req matches Some(r) ==> is_multipart_call_request(
                r,
                realtime_calls_url(self.base_url()),
                sdp@,
                session@,
                header_entries(extra_headers),
            ),
    {
        let body = multipart_realtime_call_body(sdp.as_str(), session);
        let mut req = self.session.build_request(method_post(), Self::path(), extra_headers, None);
        if !try_append_realtime_call_intent(&mut req) {
            return None;
        }
        set_content_type(&mut req, "multipart/form-data; boundary=codex-realtime-call-boundary");
        proof {
            reveal_strlit("multipart/form-data; boundary=codex-realtime-call-boundary");
        }
        req.raw_body = Some(bytes_from_vec(body));
        Some(req)
    }

    /// The request that sends an SDP offer and a session configuration with
    /// extra headers (before authentication). On the backend API it is one JSON
    /// body `{"sdp": ..., "session": ...}`; elsewhere a multipart body with the
    /// session's JSON text. `None` when the endpoint URL does not parse.
    pub fn create_with_session_and_headers_request(
        &self,
        sdp: &String,
        session: serde_json::Value,
        extra_headers: http::HeaderMap,
    ) -> (req: Result<Option<Request>, ApiError>)
        ensures
            req is Ok,
            req matches Ok(r) ==> (r is Some <==> url_parses(realtime_calls_url(self.base_url()))),
            req matches Ok(Some(r)) ==> self.uses_backend_spec() ==> is_backend_session_call_request(
                r,
                realtime_calls_url(self.base_url()),
                sdp@,
                session,
                extra_headers,
            ),
            req matches Ok(Some(r)) ==> !self.uses_backend_spec() ==> is_multipart_call_request(
                r,
                realtime_calls_url(self.base_url()),
                sdp@,
                json_text(session),
                header_entries(extra_headers),
            ),
            req matches Ok(Some(r)) ==> has_infix(self.base_url(), "/backend-api"@) ==> {
                &&& header_entries(r.headers) == header_entries(extra_headers)
                &&& r.body == Some(backend_call_body(sdp@, session))
                &&& r.raw_body is None
            },
            req matches Ok(Some(r)) ==> !has_infix(self.base_url(), "/backend-api"@) ==> {
                &&& r.body is None
                &&& r.raw_body_bytes() == Some(
                    multipart_body(encode_utf8(sdp@), encode_utf8(json_text(session))),
                )
            },
    {
        if self.uses_backend_request_shape() {
            let body = backend_call_body_value(sdp.as_str(), session);
            let mut req = self.session.build_request(
                method_post(),
                Self::path(),
                extra_headers,
                Some(body),
            );
            if !try_append_realtime_call_intent(&mut req) {
                return Ok(None);
            }
            return Ok(Some(req));
        }
        match json_to_string(&session) {
            Err(message) => Err(ApiError::InvalidRequest { message }),
            Ok(text) => Ok(self.multipart_call_request(sdp, text.as_str(), extra_headers)),
        }
    }

    /// Whether the provider is the backend API (see `uses_backend_request_shape`).
    pub open spec fn uses_backend_spec(&self) -> bool {
        has_infix(self.base_url(), "/backend-api"@)
    }

    /// The request that sends an SDP offer and a session configuration (see
    /// `create_with_session_and_headers_request`), with no extra headers.
    pub fn create_with_session_request(&self, sdp: &String, session: serde_json::Value) -> (req:
        Result<Option<Request>, ApiError>)
        ensures
            req is Ok,
            req matches Ok(r) ==> (r is Some <==> url_parses(realtime_calls_url(self.base_url()))),
            req matches Ok(Some(r)) ==> self.uses_backend_spec() ==> is_backend_session_call_request(
                r,
                realtime_calls_url(self.base_url()),
                sdp@,
                session,
                r.headers,
            ) && header_entries(r.headers) == no_headers(),
            req matches Ok(Some(r)) ==> !self.uses_backend_spec() ==> is_multipart_call_request(
                r,
                realtime_calls_url(self.base_url()),
                sdp@,
                json_text(session),
                no_headers(),
            ),
            req matches Ok(Some(r)) ==> has_infix(self.base_url(), "/backend-api"@) ==> {
                &&& header_entries(r.headers) == no_headers()
                &&& r.body == Some(backend_call_body(sdp@, session))
                &&& r.raw_body is None
            },
            req matches Ok(Some(r)) ==> !has_infix(self.base_url(), "/backend-api"@) ==> {
                &&& r.body is None
                &&& r.raw_body_bytes() == Some(
                    multipart_body(encode_utf8(sdp@), encode_utf8(json_text(session))),
                )
            },
    {
        self.create_with_session_and_headers_request(sdp, session, header_map_new())
    }
}

/// The backend shape is taken exactly when the base URL contains
/// `/backend-api`.
pub proof fn lemma_backend_shape_is_backend_api<T, A: AuthProvider>(client: RealtimeCallClient<T, A>)
    ensures
        client.uses_backend_spec() <==> has_infix(client.base_url(), "/backend-api"@),
{
}

/// A backend session call keeps the caller's headers, carries the JSON body
/// `{"sdp", "session"}` and no raw body, and is a `POST` to the URL with the
/// intent; a multipart call carries the multipart body of the offer and the
/// session text and no JSON body.
pub proof fn lemma_session_call_shapes(
    r: Request,
    url: Seq<char>,
    sdp: Seq<char>,
    session: serde_json::Value,
    text: Seq<char>,
    headers: http::HeaderMap,
    extra: Map<Seq<u8>, Seq<Seq<u8>>>,
)
    ensures
        is_backend_session_call_request(r, url, sdp, session, headers) ==> {
            &&& header_entries(r.headers) == header_entries(headers)
            &&& r.body == Some(json_object_of(seq![("sdp"@, json_string(sdp)), ("session"@, session)]))
            &&& r.raw_body is None
            &&& method_name(r.method) == "POST"@
            &&& r.url@ == with_realtime_call_intent(url)
        },
        is_multipart_call_request(r, url, sdp, text, extra) ==> {
            &&& r.body is None
            &&& r.raw_body_bytes() == Some(multipart_body(encode_utf8(sdp), encode_utf8(text)))
            &&& method_name(r.method) == "POST"@
            &&& r.url@ == with_realtime_call_intent(url)
        },
{
}

/// The JSON body of a realtime call through the backend: the object
/// `{"sdp": sdp, "session": session}`.
pub open spec fn backend_call_body(sdp: Seq<char>, session: serde_json::Value) -> serde_json::Value {
    json_object_of(seq![("sdp"@, json_string(sdp)), ("session"@, session)])
}

/// The JSON body of a realtime call through the backend.
pub fn backend_call_body_value(sdp: &str, session: serde_json::Value) -> (body: serde_json::Value)
    ensures
        body == backend_call_body(sdp@, session),
{
    let sdp_value = json_string_value(sdp);
    let entries = vec![("sdp".to_owned(), sdp_value), ("session".to_owned(), session)];
    proof {
        assert(json_entry_views(entries@) =~= seq![("sdp"@, json_string(sdp@)), ("session"@, session)]);
    }
    json_object_from_entries(entries)
}

/// `r` is the request that sends the SDP offer `sdp` and the session
/// configuration `session` to `url` on the backend API: `POST` to the URL with
/// the realtime call intent, `headers` as they are, the JSON body
/// `{"sdp", "session"}`, no raw body.
pub open spec fn is_backend_session_call_request(
    r: Request,
    url: Seq<char>,
    sdp: Seq<char>,
    session: serde_json::Value,
    headers: http::HeaderMap,
) -> bool {
    &&& method_name(r.method) == "POST"@
    &&& r.url@ == with_realtime_call_intent(url)
    &&& r.headers == headers
    &&& r.body == Some(backend_call_body(sdp, session))
    &&& r.raw_body is None
    &&& r.compression == RequestCompression::Uncompressed
    &&& r.timeout is None
}

} // verus!
