# codex_realtime_call

Creating realtime (WebRTC) calls against the OpenAI API and the Codex backend:
the HTTP requests that carry an SDP offer, alone or with a session
configuration, and the decoding of the SDP answer. The library in `src/` is
verified with Verus; `app/` holds the asynchronous sending over HTTP.

## Layout

- `src/request.rs` — the transport request and response, and the request
  builders (`with_json`, `with_raw_body`, `with_compression`).
- `src/session.rs` — the endpoint session: provider base URL, path joining,
  bearer authentication.
- `src/realtime_call.rs` — `RealtimeCallClient`: the SDP offer request, the
  multipart body (SDP part and session part), the `intent=quicksilver` query
  parameter, the decoding of the SDP answer.
- `src/backend_call.rs` — `CodexBackendRealtimeCallClient`: one JSON body
  `{"sdp", "session"}` to `api/codex/realtime/calls`.
- `src/app_server.rs` — the app server's routing by authentication mode, the
  request to the API with an API key (URL, ordered headers, environment
  headers) and how its response and failures become JSON-RPC errors.
- `src/core_call.rs` — the core's choice of base URL and client, and the model
  in the session configuration.
- `src/http_types.rs`, `src/byte_buf.rs`, `src/json.rs`, `src/url_query.rs`,
  `src/text.rs` — the contracts of the `http`, `bytes`, `serde_json`, `url` and
  standard string operations the library calls. What a JSON value, a method,
  a header map, a buffer or a parsed URL holds is named (a spec function
  without a body), and the contracts speak through those names.
- `app/` — the `HttpTransport` trait, a `reqwest` transport, the async
  `create*` calls, the app server's `create_realtime_call`, the core's
  `handle_create`, and serializable forms of the protocol types.

## The session model

The endpoint session joins the provider's base URL (without trailing slashes)
and the endpoint path with `/`, takes the extra headers and JSON body as given,
and authenticates with `Authorization: Bearer <token>` when the authentication's
`bearer_token` gives a token. The provider carries its name and base URL.
