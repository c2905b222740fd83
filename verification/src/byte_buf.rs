//! The `bytes::Bytes` buffers that hold raw request and response bodies.
use vstd::prelude::*;

verus! {

#[verifier::external_type_specification]
#[verifier::external_body]
pub struct ExBytes(bytes::Bytes);

/// The bytes that a `Bytes` buffer holds.
pub uninterp spec fn bytes_view(b: bytes::Bytes) -> Seq<u8>;

/// Wraps `From<Vec<u8>> for Bytes`: the buffer holds the vector's bytes.
#[verifier::external_body]
pub(crate) fn bytes_from_vec(v: Vec<u8>) -> (buf: bytes::Bytes)
    ensures
        bytes_view(buf) == v@,
{
    bytes::Bytes::from(v)
}

/// Wraps `AsRef<[u8]> for Bytes`: the slice of the bytes the buffer holds.
#[verifier::external_body]
pub(crate) fn bytes_as_slice(b: &bytes::Bytes) -> (slice: &[u8])
    ensures
        slice@ == bytes_view(*b),
{
    b.as_ref()
}

} // verus!
