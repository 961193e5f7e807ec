//! The length-prefix codec: a count rendered as a fixed-width header.

use crate::big_endian::{
    be_bytes, be_value, byte_capacity, lemma_be_bytes_len, lemma_be_round_trip,
    lemma_be_value_bound,
};
use vstd::arithmetic::power2::pow2;
use vstd::prelude::*;

verus! {

/// The width in bytes of every length header in the format.
pub const LENGTH_BYTES: usize = 4;

/// Whether a header of `width` bytes can carry the count `len`: the width is
/// positive and `len` lies below `2^(8 * width)`.
pub open spec fn length_fits(len: nat, width: nat) -> bool {
    width > 0 && len < byte_capacity(width)
}

/// The codec refuses a width of zero and a count at or above `2^(8 * width)`,
/// and nothing else. These are exactly the inputs for which no header of a
/// positive width, read back as a big-endian number, gives the count.
pub proof fn lemma_length_refused(len: nat, width: nat)
    ensures
        !length_fits(len, width) <==> (width == 0 || len >= pow2(8 * width)),
        length_fits(len, width) <==> (width > 0 && exists|header: Seq<u8>|
            header.len() == width && #[trigger] be_value(header) == len),
{
    if length_fits(len, width) {
        lemma_be_bytes_len(len, width);
        lemma_be_round_trip(len, width);
        assert(be_value(be_bytes(len, width)) == len);
    }
    if width > 0 && exists|header: Seq<u8>|
        header.len() == width && #[trigger] be_value(header) == len {
        let header = choose|header: Seq<u8>|
            header.len() == width && #[trigger] be_value(header) == len;
        lemma_be_value_bound(header);
    }
}

/// Renders `len` as a big-endian header of `length_bytes` bytes.
///
/// The width must be positive and `len` must be representable in it; no
/// other input is refused.
pub fn encode_length(len: usize, length_bytes: usize) -> (header: Vec<u8>)
    requires
        length_fits(len as nat, length_bytes as nat),
    ensures
        header@ == be_bytes(len as nat, length_bytes as nat),
        header@.len() == length_bytes,
        be_value(header@) == len,
        length_bytes > 0 && len < pow2(8 * length_bytes as nat),
{
    let mut header: Vec<u8> = vec![0; length_bytes];
    let mut rest: usize = len;
    let mut i: usize = length_bytes;
    while i > 0
        invariant
            i <= length_bytes,
            header@.len() == length_bytes,
            be_bytes(len as nat, length_bytes as nat) == be_bytes(rest as nat, i as nat)
                + header@.subrange(i as int, length_bytes as int),
        decreases i,
    {
        let ghost before = header@;
        i -= 1;
        header.set(i, (rest % 256) as u8);
        proof {
            let low = (rest % 256) as u8;
            let tail = before.subrange(i + 1, length_bytes as int);
            assert(header@.subrange(i as int, length_bytes as int) =~= seq![low] + tail);
            assert(be_bytes(rest as nat, (i + 1) as nat) == be_bytes(
                rest as nat / 256,
                i as nat,
            ).push(low));
            assert(be_bytes(rest as nat / 256, i as nat).push(low) + tail =~= be_bytes(
                rest as nat / 256,
                i as nat,
            ) + (seq![low] + tail));
        }
        rest = rest / 256;
    }
    proof {
        assert(header@.subrange(0, length_bytes as int) =~= header@);
        assert(be_bytes(rest as nat, 0) + header@ =~= header@);
        lemma_be_bytes_len(len as nat, length_bytes as nat);
        lemma_be_round_trip(len as nat, length_bytes as nat);
    }
    header
}

} // verus!
