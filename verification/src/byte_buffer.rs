//! The contracts under which this library uses `bytes::BytesMut`.
//!
//! Nothing in this file is proved: each contract restates what the `bytes`
//! crate does.

use crate::big_endian::be_bytes;
use bytes::{BufMut, BytesMut};
use vstd::prelude::*;

verus! {

/// `bytes::BytesMut`, carried through verified code as an opaque value.
#[verifier::external_type_specification]
#[verifier::external_body]
pub struct ExBytesMut(bytes::BytesMut);

/// The bytes that a `BytesMut` holds, in the order in which they were written.
pub uninterp spec fn buffer_contents(buf: BytesMut) -> Seq<u8>;

/// The number of bytes that a `BytesMut` was created to hold.
pub uninterp spec fn buffer_room(buf: BytesMut) -> nat;

/// `BytesMut::with_capacity`: the new buffer is empty and can take at least
/// `capacity` bytes.
#[verifier::external_body]
pub(crate) fn buffer_with_capacity(capacity: usize) -> (buf: BytesMut)
    requires
        capacity <= isize::MAX,
    ensures
        buffer_contents(buf) == Seq::<u8>::empty(),
        buffer_room(buf) == capacity,
{
    BytesMut::with_capacity(capacity)
}

/// `BufMut::put_u16_be` on a `BytesMut`: writes the two bytes of `n`, most
/// significant first, after what the buffer holds. It is called only where
/// the buffer has room for them.
#[verifier::external_body]
pub(crate) fn buffer_put_u16_be(buf: &mut BytesMut, n: u16)
    requires
        buffer_contents(*old(buf)).len() + 2 <= buffer_room(*old(buf)),
    ensures
        buffer_contents(*final(buf)) == buffer_contents(*old(buf)) + be_bytes(n as nat, 2),
        buffer_room(*final(buf)) == buffer_room(*old(buf)),
{
    buf.put_u16_be(n)
}

/// `BufMut::put_u32_be` on a `BytesMut`: writes the four bytes of `n`, most
/// significant first, after what the buffer holds. It is called only where
/// the buffer has room for them.
#[verifier::external_body]
pub(crate) fn buffer_put_u32_be(buf: &mut BytesMut, n: u32)
    requires
        buffer_contents(*old(buf)).len() + 4 <= buffer_room(*old(buf)),
    ensures
        buffer_contents(*final(buf)) == buffer_contents(*old(buf)) + be_bytes(n as nat, 4),
        buffer_room(*final(buf)) == buffer_room(*old(buf)),
{
    buf.put_u32_be(n)
}

/// `BufMut::put_u64_be` on a `BytesMut`: writes the eight bytes of `n`, most
/// significant first, after what the buffer holds. It is called only where
/// the buffer has room for them.
#[verifier::external_body]
pub(crate) fn buffer_put_u64_be(buf: &mut BytesMut, n: u64)
    requires
        buffer_contents(*old(buf)).len() + 8 <= buffer_room(*old(buf)),
    ensures
        buffer_contents(*final(buf)) == buffer_contents(*old(buf)) + be_bytes(n as nat, 8),
        buffer_room(*final(buf)) == buffer_room(*old(buf)),
{
    buf.put_u64_be(n)
}

/// `to_vec` on the bytes of a `BytesMut`: a copy of what the buffer holds.
#[verifier::external_body]
pub(crate) fn buffer_to_vec(buf: &BytesMut) -> (bytes: Vec<u8>)
    ensures
        bytes@ == buffer_contents(*buf),
{
    buf.to_vec()
}

} // verus!
