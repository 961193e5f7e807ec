//! The mathematical model of big-endian byte strings.

use vstd::arithmetic::power2::{lemma2_to64, lemma_pow2_adds, pow2};
use vstd::prelude::*;

verus! {

/// The number of distinct values that `width` bytes can hold: `2^(8 * width)`.
pub open spec fn byte_capacity(width: nat) -> nat {
    pow2(8 * width)
}

/// The low `width` bytes of `value`, most significant byte first.
pub open spec fn be_bytes(value: nat, width: nat) -> Seq<u8>
    decreases width,
{
    if width == 0 {
        Seq::empty()
    } else {
        be_bytes(value / 256, (width - 1) as nat).push((value % 256) as u8)
    }
}

/// The number that `bytes` denotes when read most significant byte first.
pub open spec fn be_value(bytes: Seq<u8>) -> nat
    decreases bytes.len(),
{
    if bytes.len() == 0 {
        0
    } else {
        be_value(bytes.drop_last()) * 256 + bytes.last() as nat
    }
}

/// Zero bytes hold one value, and each further byte multiplies the capacity by 256.
pub proof fn lemma_byte_capacity_step(width: nat)
    ensures
        byte_capacity(0) == 1,
        byte_capacity(width + 1) == 256 * byte_capacity(width),
        byte_capacity(width) > 0,
{
    lemma2_to64();
    lemma_pow2_adds(8, 8 * width);
    assert(8 * (width + 1) == 8 + 8 * width);
    vstd::arithmetic::power2::lemma_pow2_pos(8 * width);
}

/// Four bytes hold exactly the numbers below `2^32`.
pub proof fn lemma_byte_capacity_of_four()
    ensures
        byte_capacity(4) == 0x1_0000_0000,
{
    lemma2_to64();
}

/// A rendering has exactly the requested width.
pub proof fn lemma_be_bytes_len(value: nat, width: nat)
    ensures
        be_bytes(value, width).len() == width,
    decreases width,
{
    if width > 0 {
        lemma_be_bytes_len(value / 256, (width - 1) as nat);
    }
}

/// Byte `index` of a rendering is the base-256 digit of `value` that has
/// `width - 1 - index` digits below it.
pub proof fn lemma_be_bytes_index(value: nat, width: nat, index: int)
    requires
        0 <= index < width,
    ensures
        be_bytes(value, width).len() == width,
        be_bytes(value, width)[index] == (value / byte_capacity((width - 1 - index) as nat)) % 256,
    decreases width,
{
    lemma_be_bytes_len(value, width);
    lemma_be_bytes_len(value / 256, (width - 1) as nat);
    let head = be_bytes(value / 256, (width - 1) as nat);
    assert(be_bytes(value, width) == head.push((value % 256) as u8));
    if index == width - 1 {
        lemma_byte_capacity_step(0);
        assert(value / 1 == value);
    } else {
        let below = (width - 2 - index) as nat;
        lemma_be_bytes_index(value / 256, (width - 1) as nat, index);
        assert(be_bytes(value, width)[index] == head[index]);
        lemma_byte_capacity_step(below);
        assert((width - 1 - index) as nat == below + 1);
        vstd::arithmetic::div_mod::lemma_div_denominator(
            value as int,
            256,
            byte_capacity(below) as int,
        );
        assert((value / 256) / byte_capacity(below) == value / byte_capacity(below + 1));
    }
}

/// A count below 256 has a four-byte rendering of three zero bytes and the
/// count itself.
pub proof fn lemma_be_bytes_of_small_count(count: nat)
    requires
        count < 256,
    ensures
        be_bytes(count, 4) == seq![0u8, 0u8, 0u8, count as u8],
{
    reveal_with_fuel(be_bytes, 5);
    assert(be_bytes(count, 4) =~= seq![0u8, 0u8, 0u8, count as u8]);
}

/// Reading back the rendering of a number that fits in `width` bytes gives
/// that number.
pub proof fn lemma_be_round_trip(value: nat, width: nat)
    requires
        value < byte_capacity(width),
    ensures
        be_value(be_bytes(value, width)) == value,
    decreases width,
{
    lemma_byte_capacity_step((width - 1) as nat);
    if width > 0 {
        let head = be_bytes(value / 256, (width - 1) as nat);
        let all = be_bytes(value, width);
        lemma_be_bytes_len(value, width);
        assert(all.drop_last() =~= head);
        lemma_be_round_trip(value / 256, (width - 1) as nat);
    }
}

/// Writing `low` in `low_width` bytes after `high` in `high_width` bytes
/// renders the number whose upper part is `high` and whose lower part is `low`.
pub proof fn lemma_be_bytes_concat(high: nat, high_width: nat, low: nat, low_width: nat)
    requires
        low < byte_capacity(low_width),
    ensures
        be_bytes(high, high_width) + be_bytes(low, low_width) == be_bytes(
            high * byte_capacity(low_width) + low,
            high_width + low_width,
        ),
    decreases low_width,
{
    lemma_byte_capacity_step((low_width - 1) as nat);
    if low_width == 0 {
        assert(high * byte_capacity(0) + low == high);
        assert(be_bytes(high, high_width) + be_bytes(low, 0) =~= be_bytes(high, high_width));
    } else {
        let rest = (low_width - 1) as nat;
        let cap = byte_capacity(rest);
        let whole = high * byte_capacity(low_width) + low;
        let upper = high * cap;
        let last = (low % 256) as u8;
        lemma_be_bytes_concat(high, high_width, low / 256, rest);
        assert(whole == 256 * upper + low) by (nonlinear_arith)
            requires
                whole == high * (256 * cap) + low,
                upper == high * cap,
        ;
        assert(whole / 256 == upper + low / 256 && whole % 256 == low % 256);
        assert(be_bytes(whole, high_width + low_width) == be_bytes(
            whole / 256,
            high_width + rest,
        ).push(last)) by {
            assert((high_width + low_width - 1) as nat == high_width + rest);
        }
        assert(be_bytes(low, low_width) == be_bytes(low / 256, rest).push(last));
        assert(be_bytes(high, high_width) + be_bytes(low / 256, rest).push(last) =~= (be_bytes(
            high,
            high_width,
        ) + be_bytes(low / 256, rest)).push(last));
    }
}

/// Whatever `width` bytes hold, read as a number it lies below `2^(8 * width)`:
/// a number at or above that bound has no rendering of that width.
pub proof fn lemma_be_value_bound(bytes: Seq<u8>)
    ensures
        be_value(bytes) < byte_capacity(bytes.len()),
    decreases bytes.len(),
{
    if bytes.len() == 0 {
        lemma_byte_capacity_step(0);
    } else {
        lemma_be_value_bound(bytes.drop_last());
        lemma_byte_capacity_step(bytes.drop_last().len());
    }
}

} // verus!
