//! Shared immutable byte buffers (`bytes::Bytes`), used so that reading an
//! object hands out its bytes without copying them.

use bytes::Bytes;
use vstd::prelude::*;

verus! {

#[verifier::external_type_specification]
#[verifier::external_body]
pub struct ExBytes(Bytes);

/// The bytes that a buffer holds.
pub uninterp spec fn bytes_content(b: Bytes) -> Seq<u8>;

/// Turns a vector into a buffer.
///
/// Calls `<Bytes as From<Vec<u8>>>::from`, which takes over the vector's
/// allocation: the buffer holds exactly the vector's bytes.
#[verifier::external_body]
pub(crate) fn bytes_from_vec(v: Vec<u8>) -> (b: Bytes)
    ensures
        bytes_content(b) == v@,
{
    Bytes::from(v)
}

/// Another handle to the same bytes.
///
/// Calls `<Bytes as Clone>::clone`, which shares the underlying storage:
/// the clone holds the same bytes.
#[verifier::external_body]
pub(crate) fn bytes_clone(b: &Bytes) -> (r: Bytes)
    ensures
        bytes_content(r) == bytes_content(*b),
{
    b.clone()
}

} // verus!
