//! The byte buffers that carry body data, as provided by the `bytes` crate.

use bytes::Bytes;
use vstd::prelude::*;

verus! {

/// `bytes::Bytes`, a cheaply cloneable contiguous byte buffer. Its inside is
/// not visible to the verifier; `buffer_contents` names what it holds.
#[verifier::external_type_specification]
#[verifier::external_body]
pub struct ExBytes(bytes::Bytes);

/// The bytes that a buffer holds, in order.
pub uninterp spec fn buffer_contents(b: Bytes) -> Seq<u8>;

/// `Bytes::len`: the number of bytes that the buffer holds.
pub assume_specification[ bytes::Bytes::len ](b: &Bytes) -> (n: usize)
    ensures
        n == buffer_contents(*b).len(),
;

/// `Deref for Bytes`: borrows the buffer as a slice of exactly its contents.
#[verifier::external_body]
pub(crate) fn buffer_as_slice(b: &Bytes) -> (s: &[u8])
    ensures
        s@ == buffer_contents(*b),
{
    b
}

/// `Bytes::from(Vec<u8>)`: takes the vector over as a buffer with the same
/// contents.
#[verifier::external_body]
pub(crate) fn buffer_from_vec(v: Vec<u8>) -> (b: Bytes)
    ensures
        buffer_contents(b) == v@,
{
    Bytes::from(v)
}

} // verus!
