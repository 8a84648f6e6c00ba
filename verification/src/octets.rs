//! Shared byte buffers of the `bytes` crate, and what is trusted of them.
use vstd::prelude::*;

verus! {

/// Declares `bytes::Bytes`, a cheaply shared buffer of bytes.
#[verifier::external_type_specification]
#[verifier::external_body]
pub struct ExBytes(bytes::Bytes);

/// The bytes that a buffer holds, in order.
pub uninterp spec fn octets(buffer: bytes::Bytes) -> Seq<u8>;

/// `Bytes::len`: the number of bytes that the buffer holds.
pub assume_specification[ bytes::Bytes::len ](buffer: &bytes::Bytes) -> (len: usize)
    ensures
        len == octets(*buffer).len(),
;

/// `Bytes::is_empty`: whether the buffer holds no byte.
pub assume_specification[ bytes::Bytes::is_empty ](buffer: &bytes::Bytes) -> (empty: bool)
    ensures
        empty == (octets(*buffer).len() == 0),
;

/// `Bytes::clone`: another handle of a buffer that holds the same bytes.
pub assume_specification[ <bytes::Bytes as Clone>::clone ](buffer: &bytes::Bytes) -> (copy:
    bytes::Bytes)
    ensures
        octets(copy) == octets(*buffer),
;

/// `Bytes::as_ref`: a view of all the bytes that the buffer holds.
#[verifier::external_body]
pub(crate) fn as_slice(buffer: &bytes::Bytes) -> (slice: &[u8])
    ensures
        slice@ == octets(*buffer),
{
    buffer.as_ref()
}

/// `Bytes::from` on a vector: a buffer that holds the vector's bytes.
#[verifier::external_body]
pub(crate) fn from_vec(bytes: Vec<u8>) -> (buffer: bytes::Bytes)
    ensures
        octets(buffer) == bytes@,
{
    bytes::Bytes::from(bytes)
}

} // verus!
