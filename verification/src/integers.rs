//! The encodings of the fixed-width unsigned integers wider than a byte.

use crate::big_endian::{be_bytes, lemma_be_bytes_len};
use crate::byte_buffer::{
    buffer_put_u16_be, buffer_put_u32_be, buffer_put_u64_be, buffer_to_vec, buffer_with_capacity,
};
use crate::stream::{lemma_prefixed_short, Encodable, SszStream};
use vstd::prelude::*;

verus! {

impl Encodable for u16 {
    open spec fn ssz_encoding(&self) -> Seq<u8> {
        seq![0u8, 0u8, 0u8, 2u8] + be_bytes(*self as nat, 2)
    }

    /// Appends a header of 2, then the value in two big-endian bytes.
    fn ssz_append(&self, s: &mut SszStream) {
        let mut buf = buffer_with_capacity(16 / 8);
        buffer_put_u16_be(&mut buf, *self);
        let mut bytes = buffer_to_vec(&buf);
        proof {
            lemma_be_bytes_len(*self as nat, 2);
            lemma_prefixed_short(bytes@);
        }
        s.extend_buffer(&mut bytes);
    }
}

impl Encodable for u32 {
    open spec fn ssz_encoding(&self) -> Seq<u8> {
        seq![0u8, 0u8, 0u8, 4u8] + be_bytes(*self as nat, 4)
    }

    /// Appends a header of 4, then the value in four big-endian bytes.
    fn ssz_append(&self, s: &mut SszStream) {
        let mut buf = buffer_with_capacity(32 / 8);
        buffer_put_u32_be(&mut buf, *self);
        let mut bytes = buffer_to_vec(&buf);
        proof {
            lemma_be_bytes_len(*self as nat, 4);
            lemma_prefixed_short(bytes@);
        }
        s.extend_buffer(&mut bytes);
    }
}

impl Encodable for u64 {
    open spec fn ssz_encoding(&self) -> Seq<u8> {
        seq![0u8, 0u8, 0u8, 8u8] + be_bytes(*self as nat, 8)
    }

    /// Appends a header of 8, then the value in eight big-endian bytes.
    fn ssz_append(&self, s: &mut SszStream) {
        let mut buf = buffer_with_capacity(64 / 8);
        buffer_put_u64_be(&mut buf, *self);
        let mut bytes = buffer_to_vec(&buf);
        proof {
            lemma_be_bytes_len(*self as nat, 8);
            lemma_prefixed_short(bytes@);
        }
        s.extend_buffer(&mut bytes);
    }
}

} // verus!
