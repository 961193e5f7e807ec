//! The append-only byte accumulator and the capability that values use to
//! write themselves to it.

use crate::big_endian::{be_bytes, lemma_be_bytes_of_small_count, lemma_byte_capacity_of_four};
use crate::length::{encode_length, LENGTH_BYTES};
use vstd::prelude::*;

verus! {

/// A value that knows how to append its own serialized form to a stream.
///
/// A verified implementation states its segment in `ssz_encoding` and proves
/// that `ssz_append` writes exactly that. The two specification functions
/// have defaults so that unverified code can implement the trait with
/// `ssz_append` alone.
pub trait Encodable {
    /// The segment that this value contributes to a stream. Left unspecified
    /// where an implementation does not state it.
    open spec fn ssz_encoding(&self) -> Seq<u8> {
        arbitrary()
    }

    /// Whether every length that the segment records fits in a header. The
    /// built-in encodings always fit.
    open spec fn ssz_fits(&self) -> bool {
        true
    }

    /// Appends the segment of `self` to `s`, leaving what `s` already holds
    /// in place.
    fn ssz_append(&self, s: &mut SszStream)
        requires
            self.ssz_fits(),
        ensures
            final(s)@ == old(s)@ + self.ssz_encoding(),
    ;
}

/// An append-only buffer that collects the bytes of one encoding session.
pub struct SszStream {
    buffer: Vec<u8>,
}

impl View for SszStream {
    type V = Seq<u8>;

    /// The bytes written so far, in order.
    closed spec fn view(&self) -> Seq<u8> {
        self.buffer@
    }
}

/// The segment of a run of bytes: a header with the byte count, then the bytes.
pub open spec fn prefixed(payload: Seq<u8>) -> Seq<u8> {
    be_bytes(payload.len(), LENGTH_BYTES as nat) + payload
}

/// The segments of `items`, one after the other in order.
pub open spec fn concat_encodings<E: Encodable>(items: Seq<E>) -> Seq<u8>
    decreases items.len(),
{
    if items.len() == 0 {
        Seq::empty()
    } else {
        concat_encodings(items.drop_last()) + items.last().ssz_encoding()
    }
}

impl SszStream {
    /// Creates a new, empty stream.
    pub fn new() -> (s: Self)
        ensures
            s@ == Seq::<u8>::empty(),
    {
        SszStream { buffer: Vec::new() }
    }

    /// Appends the segment of an encodable value to the stream.
    pub fn append<E: Encodable>(&mut self, value: &E) -> (ret: &mut Self)
        requires
            value.ssz_fits(),
        ensures
            ret@ == old(self)@ + value.ssz_encoding(),
            *final(self) == *final(ret),
    {
        value.ssz_append(self);
        self
    }

    /// Appends a header with the byte count of `vec`, then a copy of its
    /// bytes. Only the stream changes.
    pub fn extend_buffer(&mut self, vec: &mut Vec<u8>)
        requires
            old(vec)@.len() <= u32::MAX,
        ensures
            final(self)@ == old(self)@ + prefixed(old(vec)@),
            final(vec)@ == old(vec)@,
    {
        proof {
            lemma_byte_capacity_of_four();
        }
        let mut header = encode_length(vec.len(), LENGTH_BYTES);
        self.buffer.append(&mut header);
        self.buffer.extend_from_slice(vec.as_slice());
        assert(self.buffer@ =~= old(self)@ + prefixed(old(vec)@));
    }

    /// Appends a header with the number of elements of `vec`, then the
    /// segment of each element in order. The header counts elements, not
    /// the bytes that follow it.
    pub fn append_vec<E: Encodable>(&mut self, vec: &mut Vec<E>)
        requires
            old(vec)@.len() <= u32::MAX,
            forall|i: int| 0 <= i < old(vec)@.len() ==> #[trigger] old(vec)@[i].ssz_fits(),
        ensures
            final(self)@ == old(self)@ + be_bytes(old(vec)@.len(), LENGTH_BYTES as nat)
                + concat_encodings(old(vec)@),
            final(vec)@ == old(vec)@,
    {
        proof {
            lemma_byte_capacity_of_four();
        }
        let count = vec.len();
        let mut header = encode_length(count, LENGTH_BYTES);
        self.buffer.append(&mut header);
        let ghost start = self@;
        let mut i: usize = 0;
        while i < count
            invariant
                i <= count,
                count == vec@.len(),
                vec@ == old(vec)@,
                forall|j: int| 0 <= j < vec@.len() ==> #[trigger] vec@[j].ssz_fits(),
                self@ == start + concat_encodings(vec@.take(i as int)),
            decreases count - i,
        {
            vec[i].ssz_append(self);
            proof {
                let done = vec@.take(i + 1);
                assert(done.drop_last() =~= vec@.take(i as int));
                assert(done.last() == vec@[i as int]);
                assert(self@ =~= start + concat_encodings(done));
            }
            i += 1;
        }
        assert(vec@.take(count as int) =~= vec@);
    }

    /// Appends a header with the byte count of `a`, then the bytes of `a`.
    pub fn append_encoded_array(&mut self, a: &mut [u8])
        requires
            old(a)@.len() <= u32::MAX,
        ensures
            final(self)@ == old(self)@ + prefixed(old(a)@),
            final(a)@ == old(a)@,
    {
        proof {
            lemma_byte_capacity_of_four();
        }
        let len = a.len();
        let mut header = encode_length(len, LENGTH_BYTES);
        self.buffer.append(&mut header);
        self.buffer.extend_from_slice(a);
        assert(self.buffer@ =~= old(self)@ + prefixed(old(a)@));
    }

    /// Consumes the stream and returns the bytes written to it.
    pub fn drain(self) -> (bytes: Vec<u8>)
        ensures
            bytes@ == self@,
    {
        self.buffer
    }
}

impl Encodable for u8 {
    open spec fn ssz_encoding(&self) -> Seq<u8> {
        seq![*self]
    }

    /// Appends the byte itself, with no header.
    fn ssz_append(&self, s: &mut SszStream) {
        s.buffer.push(*self);
        assert(s.buffer@ =~= old(s)@ + seq![*self]);
    }
}

/// The segment of a value depends on the value alone: two streams that hold
/// the same bytes hold the same bytes after the same value was appended to
/// each.
pub proof fn lemma_append_deterministic<E: Encodable>(
    value: &E,
    first: SszStream,
    first_after: SszStream,
    second: SszStream,
    second_after: SszStream,
)
    requires
        first@ == second@,
        first_after@ == first@ + value.ssz_encoding(),
        second_after@ == second@ + value.ssz_encoding(),
    ensures
        first_after@ == second_after@,
{
}

/// A run of fewer than 256 bytes has a header of three zero bytes and its
/// length.
pub proof fn lemma_prefixed_short(payload: Seq<u8>)
    requires
        payload.len() < 256,
    ensures
        prefixed(payload) == seq![0u8, 0u8, 0u8, payload.len() as u8] + payload,
        prefixed(payload).len() == 4 + payload.len(),
{
    lemma_be_bytes_of_small_count(payload.len());
}

/// Encodes one value on a stream of its own and returns the bytes.
pub fn encode<E: Encodable>(value: &E) -> (bytes: Vec<u8>)
    requires
        value.ssz_fits(),
    ensures
        bytes@ == value.ssz_encoding(),
{
    let mut s = SszStream::new();
    s.append(value);
    assert(Seq::<u8>::empty() + value.ssz_encoding() =~= value.ssz_encoding());
    s.drain()
}

} // verus!
