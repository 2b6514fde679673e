//! The byte accumulator of a connection, a `bytes::BytesMut`.
//!
//! Verus sees nothing inside a `BytesMut`. Contracts speak of the bytes it
//! holds through [`buffered`]. The functions below, and the call of the
//! BER writer, are the only ones that touch the buffer; what they state of
//! it is taken on trust from the `bytes` crate.

use vstd::prelude::*;
use bytes::Buf;

verus! {

/// The buffer type, of which the verifier sees nothing.
#[verifier::external_type_specification]
#[verifier::external_body]
pub struct ExBytesMut(bytes::BytesMut);

/// The bytes that a buffer holds, front first.
pub uninterp spec fn buffered(buf: bytes::BytesMut) -> Seq<u8>;

/// `BytesMut`'s `Deref::deref`: the bytes of the buffer as a slice.
#[verifier::external_body]
pub(crate) fn contents(buf: &bytes::BytesMut) -> (bytes: &[u8])
    ensures
        bytes@ == buffered(*buf),
{
    &**buf
}

/// `Buf::advance` on a `BytesMut`: drops the first `count` bytes and keeps
/// the rest as they are. The outside function panics where `count` exceeds
/// what the buffer holds, so that is required not to happen.
#[verifier::external_body]
pub(crate) fn consume(buf: &mut bytes::BytesMut, count: usize)
    requires
        count <= buffered(*old(buf)).len(),
    ensures
        buffered(*final(buf)) == buffered(*old(buf)).skip(count as int),
{
    buf.advance(count);
}

} // verus!
