//! The transport-level request and response.
use vstd::prelude::*;

use crate::byte_buf::bytes_view;
use crate::http_types::{header_entries, header_map_new, no_headers};

verus! {

/// How a request body is compressed before it is sent.
#[derive(Debug, Clone, Copy, PartialEq, Eq, Structural)]
pub enum RequestCompression {
    /// The body is sent as it is (the default).
    Uncompressed,
    /// The body is compressed with zstd.
    Zstd,
}

impl Default for RequestCompression {
    fn default() -> (c: Self)
        ensures
            c == RequestCompression::Uncompressed,
    {
        RequestCompression::Uncompressed
    }
}

/// A request as the transport sends it: at most one of `body` (JSON) and
/// `raw_body` (bytes) is meant to be set, and the body builders keep it so.
#[derive(Debug)]
pub struct Request {
    pub method: http::Method,
    pub url: String,
    pub headers: http::HeaderMap,
    pub body: Option<serde_json::Value>,
    pub raw_body: Option<bytes::Bytes>,
    pub compression: RequestCompression,
    pub timeout: Option<core::time::Duration>,
}

/// A response as the transport received it.
#[derive(Debug)]
pub struct Response {
    pub status: http::StatusCode,
    pub headers: http::HeaderMap,
    pub body: bytes::Bytes,
}

impl Request {
    /// The request that `with_json(body)` turns `self` into.
    pub open spec fn spec_with_json(self, body: Option<serde_json::Value>) -> Request {
        Request { body: body, raw_body: None, ..self }
    }

    /// The request that `with_raw_body(body)` turns `self` into.
    pub open spec fn spec_with_raw_body(self, body: bytes::Bytes) -> Request {
        Request { body: None, raw_body: Some(body), ..self }
    }

    /// The request that `with_compression(compression)` turns `self` into.
    pub open spec fn spec_with_compression(self, compression: RequestCompression) -> Request {
        Request { compression: compression, ..self }
    }

    /// The bytes of the raw body, if there is one.
    pub open spec fn raw_body_bytes(self) -> Option<Seq<u8>> {
        match self.raw_body {
            Some(b) => Some(bytes_view(b)),
            None => None,
        }
    }

    /// A request with no headers, no body, no compression and no timeout.
    pub fn new(method: http::Method, url: String) -> (req: Self)
        ensures
            req.method == method,
            req.url == url,
            header_entries(req.headers) == no_headers(),
            req.body is None,
            req.raw_body is None,
            req.compression == RequestCompression::Uncompressed,
            req.timeout is None,
    {
        Request {
            method,
            url,
            headers: header_map_new(),
            body: None,
            raw_body: None,
            compression: RequestCompression::Uncompressed,
            timeout: None,
        }
    }

    /// Sets the JSON body (the serialized value, or `None` where serialization
    /// failed) and drops any raw body.
    pub fn with_json(self, body: Option<serde_json::Value>) -> (req: Self)
        ensures
            req == self.spec_with_json(body),
    {
        let mut req = self;
        req.body = body;
        req.raw_body = None;
        req
    }

    /// Sets the raw body and drops any JSON body.
    pub fn with_raw_body(self, body: bytes::Bytes) -> (req: Self)
        ensures
            req == self.spec_with_raw_body(body),
    {
        let mut req = self;
        req.body = None;
        req.raw_body = Some(body);
        req
    }

    /// Sets how the body is compressed.
    pub fn with_compression(self, compression: RequestCompression) -> (req: Self)
        ensures
            req == self.spec_with_compression(compression),
    {
        let mut req = self;
        req.compression = compression;
        req
    }
}

/// The last body builder applied decides the body: a raw body set after a JSON
/// body replaces it, and a JSON body set after a raw body replaces it; neither
/// builder leaves both bodies set, and neither touches the other fields.
pub proof fn lemma_last_body_builder_wins(
    req: Request,
    json: Option<serde_json::Value>,
    raw: bytes::Bytes,
)
    ensures
        req.spec_with_json(json).spec_with_raw_body(raw) == req.spec_with_raw_body(raw),
        req.spec_with_raw_body(raw).spec_with_json(json) == req.spec_with_json(json),
        req.spec_with_json(json).raw_body is None,
        req.spec_with_raw_body(raw).body is None,
        req.spec_with_json(json).url == req.url && req.spec_with_json(json).headers == req.headers,
        req.spec_with_raw_body(raw).url == req.url && req.spec_with_raw_body(raw).headers
            == req.headers,
{
}

/// Compression is independent of the body: setting it before or after a body
/// builder gives the same request.
pub proof fn lemma_compression_commutes_with_bodies(
    req: Request,
    compression: RequestCompression,
    json: Option<serde_json::Value>,
    raw: bytes::Bytes,
)
    ensures
        req.spec_with_compression(compression).spec_with_json(json) == req.spec_with_json(
            json,
        ).spec_with_compression(compression),
        req.spec_with_compression(compression).spec_with_raw_body(raw) == req.spec_with_raw_body(
            raw,
        ).spec_with_compression(compression),
{
}

} // verus!
