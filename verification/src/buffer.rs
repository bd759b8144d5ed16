//! Byte buffers.
//!
//! Messages hold their binary fields as `bytes::Bytes`. The codec never looks
//! inside a buffer: it moves it from a message to its wire record and back.
//! What this crate assumes of the type is stated here and nowhere else.

use vstd::prelude::*;
use bytes::Bytes;

verus! {

/// `bytes::Bytes`, a cheaply cloneable immutable byte buffer. Its fields are
/// hidden from the verifier.
#[verifier::external_type_specification]
#[verifier::external_body]
pub struct ExBytes(Bytes);

/// The bytes that a buffer holds, in order.
pub uninterp spec fn contents(buffer: Bytes) -> Seq<u8>;

/// `Bytes::clone` returns a handle to the same bytes: the clone holds what
/// the buffer holds. The call ends the process if a buffer has more than
/// `usize::MAX / 2` handles, which no memory holds. Nothing is proved of
/// this claim; what `Snapshot::clone` promises is proved from it.
pub assume_specification[ <Bytes as Clone>::clone ](buffer: &Bytes) -> (copy: Bytes)
    ensures
        contents(copy) == contents(*buffer),
;

/// `Bytes`'s `==` compares the bytes of the two buffers: it is true exactly
/// when both hold the same bytes in the same order. Nothing is proved of
/// this claim.
#[verifier::external_body]
pub(crate) fn same_bytes(left: &Bytes, right: &Bytes) -> (same: bool)
    ensures
        same == (contents(*left) == contents(*right)),
{
    left.eq(right)
}

} // verus!
