//! Fixed-width big-endian encoding of unsigned integers.

use vstd::arithmetic::div_mod::{
    lemma_basic_div, lemma_div_denominator, lemma_mod_breakdown, lemma_small_mod,
};
use vstd::prelude::*;

verus! {

/// The weight of the byte at `index`, counted from the least significant
/// byte: 256 to the power `index`.
pub open spec fn place_value(index: nat) -> nat
    decreases index,
{
    if index == 0 {
        1
    } else {
        256 * place_value((index - 1) as nat)
    }
}

/// The byte of `value` at `index`, counted from the least significant byte.
pub open spec fn byte_at(value: nat, index: nat) -> u8 {
    ((value / place_value(index)) % 256) as u8
}

/// The big-endian encoding of `value` in exactly `width` bytes, most
/// significant byte first. Bytes of `value` above the width are dropped; a
/// width beyond the value's size gives leading zero bytes.
pub open spec fn be_bytes(value: nat, width: nat) -> Seq<u8> {
    Seq::new(width, |i: int| byte_at(value, (width - 1 - i) as nat))
}

/// The number that `bytes` spell when read most significant byte first.
pub open spec fn be_value(bytes: Seq<u8>) -> nat
    decreases bytes.len(),
{
    if bytes.len() == 0 {
        0
    } else {
        256 * be_value(bytes.drop_last()) + bytes.last() as nat
    }
}

/// `len` bytes, each of them zero.
pub open spec fn zero_bytes(len: nat) -> Seq<u8> {
    Seq::new(len, |i: int| 0u8)
}

/// Appends the big-endian encoding of `value` in `width` bytes to `out`.
///
/// A width below eight keeps the low bytes of `value`; a width above eight
/// puts zero bytes in front.
pub fn push_be(out: &mut Vec<u8>, value: u64, width: usize)
    ensures
        final(out)@ == old(out)@ + be_bytes(value as nat, width as nat),
{
    let ghost encoded = be_bytes(value as nat, width as nat);
    let mut remaining: usize = width;
    while remaining > 0
        invariant
            remaining <= width,
            encoded == be_bytes(value as nat, width as nat),
            out@ == old(out)@ + encoded.take(width - remaining),
        decreases remaining,
    {
        remaining = remaining - 1;
        proof {
            lemma_byte_at_u64(value, remaining as nat);
        }
        let byte: u8 = if remaining < 8 {
            let shift: u64 = 8 * (remaining as u64);
            assert((value >> shift) & 0xff < 256) by (bit_vector);
            ((value >> shift) & 0xff) as u8
        } else {
            0
        };
        out.push(byte);
        assert(encoded.take(width - remaining) == encoded.take(width - remaining - 1).push(byte));
    }
    assert(encoded.take(width as int) == encoded);
}

/// Reading an encoding back gives the value reduced modulo 256 to the power
/// `width`: the value itself where it fits the width.
pub proof fn lemma_be_value_of_be_bytes(value: nat, width: nat)
    ensures
        be_value(be_bytes(value, width)) == value % place_value(width),
        value < place_value(width) ==> be_value(be_bytes(value, width)) == value,
    decreases width,
{
    lemma_place_value_positive(width);
    if width > 0 {
        let shorter: nat = (width - 1) as nat;
        lemma_be_bytes_drop_last(value, width);
        lemma_be_value_of_be_bytes(value / 256, shorter);
        lemma_place_value_positive(shorter);
        lemma_mod_breakdown(value as int, 256, place_value(shorter) as int);
    }
    if value < place_value(width) {
        lemma_small_mod(value, place_value(width));
    }
}

/// A narrower encoding of a value is the tail of a wider one: narrowing
/// drops the most significant bytes and keeps the low ones as they are.
pub proof fn lemma_narrow_keeps_low_bytes(value: nat, wide: nat, narrow: nat)
    requires
        narrow <= wide,
    ensures
        be_bytes(value, narrow) == be_bytes(value, wide).skip(wide - narrow),
{
    assert(be_bytes(value, narrow) =~= be_bytes(value, wide).skip(wide - narrow));
}

/// Zero encodes as zero bytes, in any width.
pub proof fn lemma_be_bytes_of_zero(width: nat)
    ensures
        be_bytes(0, width) == zero_bytes(width),
{
    assert forall|index: nat| byte_at(0, index) == 0 by {
        lemma_place_value_positive(index);
        lemma_basic_div(0, place_value(index) as int);
    }
    assert(be_bytes(0, width) =~= zero_bytes(width));
}

/// The two-byte encoding of a value: its second-lowest byte, then its lowest.
pub proof fn lemma_be_bytes_two(value: nat)
    ensures
        be_bytes(value, 2) == seq![((value / 256) % 256) as u8, (value % 256) as u8],
{
    reveal_with_fuel(place_value, 2);
    assert(place_value(0) == 1 && place_value(1) == 256);
    let bytes = be_bytes(value, 2);
    assert(bytes[0] == byte_at(value, 1) && bytes[1] == byte_at(value, 0));
    assert(bytes =~= seq![((value / 256) % 256) as u8, (value % 256) as u8]);
}

/// No place value is zero.
proof fn lemma_place_value_positive(index: nat)
    ensures
        place_value(index) > 0,
    decreases index,
{
    if index > 0 {
        lemma_place_value_positive((index - 1) as nat);
    }
}

/// From the ninth byte on, every place value exceeds any 64-bit value.
proof fn lemma_place_value_beyond_u64(index: nat)
    requires
        index >= 8,
    ensures
        place_value(index) >= 0x1_0000_0000_0000_0000,
    decreases index,
{
    if index == 8 {
        reveal_with_fuel(place_value, 9);
    } else {
        lemma_place_value_beyond_u64((index - 1) as nat);
    }
}

/// The byte at `index` of a 64-bit value is what shifting and masking
/// extracts, and zero beyond the eighth byte.
proof fn lemma_byte_at_u64(value: u64, index: nat)
    ensures
        index < 8 ==> byte_at(value as nat, index) == (value >> ((8 * index) as u64)) & 0xff,
        index >= 8 ==> byte_at(value as nat, index) == 0,
{
    if index >= 8 {
        lemma_place_value_beyond_u64(index);
        lemma_basic_div(value as int, place_value(index) as int);
    } else {
        reveal_with_fuel(place_value, 9);
        if index == 0 {
            assert((value >> 0u64) & 0xff == (value / 0x1) % 256) by (bit_vector);
        } else if index == 1 {
            assert((value >> 8u64) & 0xff == (value / 0x100) % 256) by (bit_vector);
        } else if index == 2 {
            assert((value >> 16u64) & 0xff == (value / 0x1_0000) % 256) by (bit_vector);
        } else if index == 3 {
            assert((value >> 24u64) & 0xff == (value / 0x100_0000) % 256) by (bit_vector);
        } else if index == 4 {
            assert((value >> 32u64) & 0xff == (value / 0x1_0000_0000) % 256) by (bit_vector);
        } else if index == 5 {
            assert((value >> 40u64) & 0xff == (value / 0x100_0000_0000) % 256) by (bit_vector);
        } else if index == 6 {
            assert((value >> 48u64) & 0xff == (value / 0x1_0000_0000_0000) % 256) by (bit_vector);
        } else {
            assert((value >> 56u64) & 0xff == (value / 0x100_0000_0000_0000) % 256)
                by (bit_vector);
        }
    }
}

/// An encoding without its last byte is the encoding of the value divided by
/// 256, and the last byte is the remainder.
proof fn lemma_be_bytes_drop_last(value: nat, width: nat)
    requires
        width > 0,
    ensures
        be_bytes(value, width).drop_last() == be_bytes(value / 256, (width - 1) as nat),
        be_bytes(value, width).last() == value % 256,
{
    let bytes = be_bytes(value, width);
    assert(bytes.drop_last() =~= be_bytes(value / 256, (width - 1) as nat)) by {
        assert forall|index: nat| byte_at(value, index + 1) == #[trigger] byte_at(
            value / 256,
            index,
        ) by {
            lemma_place_value_positive(index);
            lemma_div_denominator(value as int, 256, place_value(index) as int);
        }
    }
    assert(bytes.last() == value % 256) by {
        assert(bytes.last() == byte_at(value, 0));
        assert(place_value(0) == 1);
        assert(value / 1 == value);
    }
}

} // verus!
