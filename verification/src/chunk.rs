//! What the library relies on of `bytes::Bytes`, the chunk of bytes that streams carry.
//!
//! Nothing in this file is proved: each contract restates what the `bytes` crate
//! documents of the function it names.

use bytes::Bytes;
use vstd::prelude::*;

verus! {

#[verifier::external_type_specification]
#[verifier::external_body]
pub struct ExBytes(bytes::Bytes);

/// The bytes that a chunk holds, in order.
pub uninterp spec fn chunk_bytes(chunk: Bytes) -> Seq<u8>;

/// `Bytes::len`: the number of bytes in the chunk.
pub assume_specification[ Bytes::len ](chunk: &Bytes) -> (len: usize)
    ensures
        len == chunk_bytes(*chunk).len(),
;

/// `Bytes::split_to`: the chunk keeps what lies from `at` on and hands out what lies
/// before it. It panics when `at` is beyond the end.
pub assume_specification[ Bytes::split_to ](chunk: &mut Bytes, at: usize) -> (head: Bytes)
    requires
        at <= chunk_bytes(*old(chunk)).len(),
    ensures
        chunk_bytes(head) == chunk_bytes(*old(chunk)).take(at as int),
        chunk_bytes(*final(chunk)) == chunk_bytes(*old(chunk)).skip(at as int),
;

/// `Bytes::split_off`: the chunk keeps what lies before `at` and hands out what lies
/// from `at` on. It panics when `at` is beyond the end.
pub assume_specification[ Bytes::split_off ](chunk: &mut Bytes, at: usize) -> (tail: Bytes)
    requires
        at <= chunk_bytes(*old(chunk)).len(),
    ensures
        chunk_bytes(tail) == chunk_bytes(*old(chunk)).skip(at as int),
        chunk_bytes(*final(chunk)) == chunk_bytes(*old(chunk)).take(at as int),
;

/// `Bytes::from` for a `String`: a chunk that holds the UTF-8 bytes of the string.
#[verifier::external_body]
pub(crate) fn chunk_from_string(text: String) -> (chunk: Bytes)
    ensures
        chunk_bytes(chunk) == vstd::utf8::encode_utf8(text@),
{
    Bytes::from(text)
}

/// `Bytes` as a slice, through its `Deref`: the same bytes.
#[verifier::external_body]
pub(crate) fn chunk_as_slice(chunk: &Bytes) -> (bytes: &[u8])
    ensures
        bytes@ == chunk_bytes(*chunk),
{
    &chunk[..]
}

} // verus!
