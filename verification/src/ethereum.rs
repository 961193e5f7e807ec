//! The encodings of the 256-bit digest and the 256-bit unsigned integer of
//! `ethereum_types`.

use crate::big_endian::{be_bytes, lemma_be_bytes_concat};
use crate::stream::{lemma_prefixed_short, Encodable, SszStream};
use ethereum_types::{H256, U256};
use vstd::prelude::*;

verus! {

/// `ethereum_types::H256`, carried through verified code as an opaque value.
#[verifier::external_type_specification]
#[verifier::external_body]
pub struct ExH256(ethereum_types::H256);

/// `ethereum_types::U256`, carried through verified code as an opaque value.
#[verifier::external_type_specification]
#[verifier::external_body]
pub struct ExU256(ethereum_types::U256);

/// The 32 bytes that an `H256` holds, in order.
pub uninterp spec fn digest_bytes(digest: H256) -> Seq<u8>;

/// The four 64-bit words that a `U256` holds, least significant word first.
pub uninterp spec fn uint_words(value: U256) -> Seq<u64>;

/// Four 64-bit words, least significant first, written out most significant
/// word first, each in eight big-endian bytes.
pub open spec fn words_big_endian(words: Seq<u64>) -> Seq<u8> {
    be_bytes(words[3] as nat, 8) + be_bytes(words[2] as nat, 8) + be_bytes(words[1] as nat, 8)
        + be_bytes(words[0] as nat, 8)
}

/// `to_vec` on the bytes of an `H256`: a copy of its 32 bytes.
#[verifier::external_body]
pub(crate) fn digest_to_vec(digest: &H256) -> (bytes: Vec<u8>)
    ensures
        bytes@ == digest_bytes(*digest),
        bytes@.len() == 32,
{
    digest.to_vec()
}

/// The 32 bytes of a digest, in order.
pub fn digest_to_bytes(digest: &H256) -> (bytes: Vec<u8>)
    ensures
        bytes@ == digest_bytes(*digest),
        bytes@.len() == 32,
{
    digest_to_vec(digest)
}

/// `U256::to_big_endian`: fills the 32 bytes of `out` with the four words of
/// `value`, the most significant word first and each word most significant
/// byte first. It is called only on a slice of 32 bytes.
#[verifier::external_body]
pub(crate) fn uint_to_big_endian(value: &U256, out: &mut [u8])
    requires
        old(out)@.len() == 32,
    ensures
        final(out)@ == words_big_endian(uint_words(*value)),
{
    value.to_big_endian(out)
}

/// The number that four 64-bit words denote, least significant word first.
pub open spec fn words_value(words: Seq<u64>) -> nat {
    (words[0] as nat) + (words[1] as nat) * 0x1_0000_0000_0000_0000 + (words[2] as nat)
        * 0x1_0000_0000_0000_0000_0000_0000_0000_0000 + (words[3] as nat)
        * 0x1_0000_0000_0000_0000_0000_0000_0000_0000_0000_0000_0000_0000
}

/// Four words written most significant first, eight big-endian bytes each,
/// are the 32 big-endian bytes of the number that the words denote.
pub proof fn lemma_words_big_endian(words: Seq<u64>)
    ensures
        words_big_endian(words) == be_bytes(words_value(words), 32),
{
    vstd::arithmetic::power2::lemma2_to64();
    vstd::arithmetic::power2::lemma2_to64_rest();
    let w0 = words[0] as nat;
    let w1 = words[1] as nat;
    let w2 = words[2] as nat;
    let w3 = words[3] as nat;
    lemma_be_bytes_concat(w3, 8, w2, 8);
    lemma_be_bytes_concat(w3 * 0x1_0000_0000_0000_0000 + w2, 16, w1, 8);
    lemma_be_bytes_concat(
        (w3 * 0x1_0000_0000_0000_0000 + w2) * 0x1_0000_0000_0000_0000 + w1,
        24,
        w0,
        8,
    );
    assert(((w3 * 0x1_0000_0000_0000_0000 + w2) * 0x1_0000_0000_0000_0000 + w1)
        * 0x1_0000_0000_0000_0000 + w0 == words_value(words)) by (nonlinear_arith)
        requires
            words_value(words) == w0 + w1 * 0x1_0000_0000_0000_0000 + w2
                * 0x1_0000_0000_0000_0000_0000_0000_0000_0000 + w3
                * 0x1_0000_0000_0000_0000_0000_0000_0000_0000_0000_0000_0000_0000,
    ;
}

impl Encodable for H256 {
    open spec fn ssz_encoding(&self) -> Seq<u8> {
        seq![0u8, 0u8, 0u8, 32u8] + digest_bytes(*self)
    }

    /// Appends a header of 32, then the 32 bytes of the digest.
    fn ssz_append(&self, s: &mut SszStream) {
        let mut bytes = digest_to_bytes(self);
        proof {
            lemma_prefixed_short(bytes@);
        }
        s.extend_buffer(&mut bytes);
    }
}

impl Encodable for U256 {
    open spec fn ssz_encoding(&self) -> Seq<u8> {
        seq![0u8, 0u8, 0u8, 32u8] + be_bytes(words_value(uint_words(*self)), 32)
    }

    /// Appends a header of 32, then the value in 32 big-endian bytes.
    fn ssz_append(&self, s: &mut SszStream) {
        let mut a: [u8; 32] = [0; 32];
        uint_to_big_endian(self, &mut a);
        proof {
            lemma_words_big_endian(uint_words(*self));
            lemma_prefixed_short(a@);
        }
        s.append_encoded_array(&mut a);
    }
}

} // verus!
