//! Little-endian integers as byte sequences.

use vstd::arithmetic::div_mod::lemma_div_denominator;
use vstd::arithmetic::power::{lemma_pow_positive, pow};
use vstd::prelude::*;

verus! {

/// The number that `bytes` stand for, least significant byte first.
pub open spec fn le_value(bytes: Seq<u8>) -> nat
    decreases bytes.len(),
{
    if bytes.len() == 0 {
        0
    } else {
        bytes[0] as nat + 256 * le_value(bytes.drop_first())
    }
}

/// The `len` low bytes of `value`, least significant byte first.
pub open spec fn le_bytes(value: nat, len: nat) -> Seq<u8>
    decreases len,
{
    if len == 0 {
        Seq::empty()
    } else {
        seq![(value % 256) as u8] + le_bytes(value / 256, (len - 1) as nat)
    }
}

/// The first value that does not fit in `len` bytes.
pub open spec fn le_bound(len: nat) -> nat
    decreases len,
{
    if len == 0 {
        1
    } else {
        256 * le_bound((len - 1) as nat)
    }
}

/// The signed 32-bit number whose two's complement form is `bytes[0..4]`.
pub open spec fn le_i32(bytes: Seq<u8>) -> int {
    let value = le_value(bytes.subrange(0, 4));
    if value < 0x8000_0000 {
        value as int
    } else {
        value - 0x1_0000_0000
    }
}

/// `le_bytes` yields as many bytes as it was asked for.
pub proof fn le_bytes_len(value: nat, len: nat)
    ensures
        le_bytes(value, len).len() == len,
    decreases len,
{
    if len > 0 {
        le_bytes_len(value / 256, (len - 1) as nat);
    }
}

/// Reading back the bytes of a number that fits gives the number.
pub proof fn le_value_of_le_bytes(value: nat, len: nat)
    requires
        value < le_bound(len),
    ensures
        le_value(le_bytes(value, len)) == value,
    decreases len,
{
    if len > 0 {
        let rest = le_bytes(value / 256, (len - 1) as nat);
        le_value_of_le_bytes(value / 256, (len - 1) as nat);
        assert(le_bytes(value, len).drop_first() =~= rest);
    }
}

/// Writing out the number that some bytes stand for gives the bytes.
pub proof fn le_bytes_of_le_value(bytes: Seq<u8>)
    ensures
        le_bytes(le_value(bytes), bytes.len()) == bytes,
        le_value(bytes) < le_bound(bytes.len()),
    decreases bytes.len(),
{
    if bytes.len() > 0 {
        le_bytes_of_le_value(bytes.drop_first());
        assert(seq![bytes[0]] + bytes.drop_first() =~= bytes);
    }
}

/// Every `u128` fits in sixteen bytes.
pub proof fn u128_fits_sixteen_bytes(value: u128)
    ensures
        value < le_bound(16),
{
    reveal_with_fuel(le_bound, 17);
}

/// A number is zero exactly when all of its bytes are.
pub proof fn le_value_zero(bytes: Seq<u8>)
    ensures
        le_value(bytes) == 0 <==> (forall|i: int| 0 <= i < bytes.len() ==> bytes[i] == 0),
    decreases bytes.len(),
{
    if bytes.len() > 0 {
        let rest = bytes.drop_first();
        le_value_zero(rest);
        assert(forall|i: int| 0 <= i < rest.len() ==> rest[i] == bytes[i + 1]);
        if le_value(bytes) == 0 {
            assert forall|i: int| 0 <= i < bytes.len() implies bytes[i] == 0 by {
                if i > 0 {
                    assert(rest[i - 1] == bytes[i]);
                }
            }
        }
    }
}

/// The byte at index `i` is the digit of the number at `256` to the power `i`.
pub proof fn le_bytes_digit(value: nat, len: nat, i: int)
    requires
        0 <= i < len,
    ensures
        le_bytes(value, len)[i] == (value as int / pow(256, i as nat)) % 256,
    decreases len,
{
    reveal(pow);
    le_bytes_len(value / 256, (len - 1) as nat);
    if i > 0 {
        le_bytes_digit(value / 256, (len - 1) as nat, i - 1);
        lemma_pow_positive(256, (i - 1) as nat);
        lemma_div_denominator(value as int, 256, pow(256, (i - 1) as nat));
    }
}

/// The bytes are the digits of the number that they stand for, in base 256.
pub proof fn le_value_digit(bytes: Seq<u8>, i: int)
    requires
        0 <= i < bytes.len(),
    ensures
        bytes[i] == (le_value(bytes) as int / pow(256, i as nat)) % 256,
{
    le_bytes_of_le_value(bytes);
    le_bytes_digit(le_value(bytes), bytes.len(), i);
}

/// Decodes the four leading bytes of `bytes` as a little-endian `i32`.
pub fn i32_from_le(bytes: &[u8]) -> (value: i32)
    requires
        bytes@.len() >= 4,
    ensures
        value == le_i32(bytes@),
        bytes@[3] < 0x80 ==> value == bytes@[0] + 0x100 * bytes@[1] + 0x1_0000 * bytes@[2]
            + 0x100_0000 * bytes@[3],
        bytes@[3] >= 0x80 ==> value == bytes@[0] + 0x100 * bytes@[1] + 0x1_0000 * bytes@[2]
            + 0x100_0000 * bytes@[3] - 0x1_0000_0000,
{
    let raw: u32 = bytes[0] as u32 + 0x100 * (bytes[1] as u32) + 0x1_0000 * (bytes[2] as u32)
        + 0x100_0000 * (bytes[3] as u32);
    proof {
        let head = bytes@.subrange(0, 4);
        reveal_with_fuel(le_value, 5);
        assert(head.drop_first() =~= bytes@.subrange(1, 4));
        assert(bytes@.subrange(1, 4).drop_first() =~= bytes@.subrange(2, 4));
        assert(bytes@.subrange(2, 4).drop_first() =~= bytes@.subrange(3, 4));
        assert(bytes@.subrange(3, 4).drop_first() =~= Seq::<u8>::empty());
        assert(raw == le_value(head));
        assert(raw < 0x8000_0000 ==> raw as i32 == raw) by (bit_vector);
        assert(raw >= 0x8000_0000 ==> raw as i32 == raw - 0x1_0000_0000) by (bit_vector);
    }
    raw as i32
}

/// A number that was sent as its four little-endian bytes, in two's complement,
/// is read as it was sent, whatever follows.
pub proof fn i32_read_as_sent(sent: i32, bytes: &[u8], read: i32)
    requires
        bytes@.len() >= 4,
        forall|i: int|
            0 <= i < 4 ==> bytes@[i] == ((sent as int % 0x1_0000_0000) / pow(256, i as nat)) % 256,
        call_ensures(i32_from_le, (bytes,), read),
    ensures
        read == sent,
{
    four_digits(sent as int % 0x1_0000_0000, bytes@);
}

/// A number of 32 bits is the sum of its four digits in base 256.
pub(crate) proof fn four_digits(raw: int, bytes: Seq<u8>)
    requires
        0 <= raw < 0x1_0000_0000,
        bytes.len() >= 4,
        forall|i: int| 0 <= i < 4 ==> bytes[i] == (raw / pow(256, i as nat)) % 256,
    ensures
        raw == bytes[0] + 0x100 * bytes[1] + 0x1_0000 * bytes[2] + 0x100_0000 * bytes[3],
{
    reveal(pow);
    reveal_with_fuel(pow, 4);
    assert(pow(256, 0) == 1 && pow(256, 1) == 0x100 && pow(256, 2) == 0x1_0000 && pow(256, 3)
        == 0x100_0000);
    assert(bytes[0] == raw % 256);
    assert(bytes[1] == (raw / 0x100) % 256);
    assert(bytes[2] == (raw / 0x1_0000) % 256);
    assert(bytes[3] == (raw / 0x100_0000) % 256);
}

/// The four little-endian bytes of a number, in two's complement, stand for the
/// number, whatever follows.
pub proof fn le_i32_as_sent(sent: i32, bytes: Seq<u8>)
    requires
        bytes.len() >= 4,
        forall|i: int|
            0 <= i < 4 ==> bytes[i] == ((sent as int % 0x1_0000_0000) / pow(256, i as nat)) % 256,
    ensures
        le_i32(bytes) == sent,
{
    let head = bytes.subrange(0, 4);
    four_digits(sent as int % 0x1_0000_0000, bytes);
    reveal_with_fuel(le_value, 5);
    assert(head.drop_first().drop_first().drop_first().drop_first() =~= Seq::<u8>::empty());
}

/// Bytes that are read as the same number have the same four leading bytes.
pub proof fn i32_read_apart(one: &[u8], other: &[u8], read: i32)
    requires
        one@.len() >= 4,
        other@.len() >= 4,
        call_ensures(i32_from_le, (one,), read),
        call_ensures(i32_from_le, (other,), read),
    ensures
        one@.subrange(0, 4) == other@.subrange(0, 4),
{
    let raw = if read >= 0 {
        read as int
    } else {
        read + 0x1_0000_0000
    };
    digits_of_sum(raw, one@[0], one@[1], one@[2], one@[3]);
    digits_of_sum(raw, other@[0], other@[1], other@[2], other@[3]);
}

/// Four bytes are the digits in base 256 of the number that they add up to.
proof fn digits_of_sum(raw: int, b0: u8, b1: u8, b2: u8, b3: u8)
    requires
        raw == b0 + 0x100 * b1 + 0x1_0000 * b2 + 0x100_0000 * b3,
    ensures
        b0 == raw % 0x100,
        b1 == (raw / 0x100) % 0x100,
        b2 == (raw / 0x100 / 0x100) % 0x100,
        b3 == raw / 0x100 / 0x100 / 0x100,
{
    assert(raw / 0x100 == b1 + 0x100 * b2 + 0x1_0000 * b3);
    assert(raw / 0x100 / 0x100 == b2 + 0x100 * b3);
}

} // verus!
