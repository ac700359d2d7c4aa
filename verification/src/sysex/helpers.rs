//! Reading and writing multi-byte fields of the data blobs: 10-bit values
//! (little-endian pair, upper 6 bits of the high byte left to other data),
//! and big- and little-endian `u16`.

use vstd::prelude::*;

verus! {

/// The 10-bit value of the little-endian pair `lo`, `hi`.
pub open spec fn ten_bit_value(lo: u8, hi: u8) -> u16 {
    (((hi as u16) << 8u16) | (lo as u16)) & 0x03FF
}

/// The low byte that [`write_10bit`] stores for `value`.
pub open spec fn ten_bit_low(value: u16) -> u8 {
    ((value & 0x03FF) & 0xFF) as u8
}

/// The high byte that [`write_10bit`] stores for `value` over `old_hi`: the
/// upper 6 bits of `old_hi` with bits 8--9 of `value` below them.
pub open spec fn ten_bit_high(old_hi: u8, value: u16) -> u8 {
    (old_hi & 0xFC) | (((value & 0x03FF) >> 8u16) as u8)
}

/// Read a 10-bit value from the little-endian pair at `offset`; the upper 6
/// bits of the high byte are masked off.
pub fn read_10bit(bytes: &[u8], offset: usize) -> (v: u16)
    requires
        offset + 1 < bytes@.len(),
    ensures
        v == ten_bit_value(bytes@[offset as int], bytes@[offset + 1]),
        v <= 1023,
        v as int == (bytes@[offset + 1] % 4) * 256 + bytes@[offset as int],
{
    let lo = bytes[offset] as u16;
    let hi = bytes[offset + 1] as u16;
    let lo8 = bytes[offset];
    let hi8 = bytes[offset + 1];
    assert((((hi8 as u16) << 8u16) | (lo8 as u16)) & 0x03FF <= 1023) by (bit_vector);
    assert(((((hi8 as u16) << 8u16) | (lo8 as u16)) & 0x03FF) as int == (hi8 % 4) * 256 + lo8) by (bit_vector);
    ((hi << 8) | lo) & 0x03FF
}

/// Write the low 10 bits of `value` as a little-endian pair at `offset`,
/// keeping the upper 6 bits of the high byte.
pub fn write_10bit(bytes: &mut [u8], offset: usize, value: u16)
    requires
        offset + 1 < old(bytes)@.len(),
    ensures
        final(bytes)@ == old(bytes)@.update(offset as int, ten_bit_low(value)).update(
            offset + 1,
            ten_bit_high(old(bytes)@[offset + 1], value),
        ),
{
    let v = value & 0x03FF;
    bytes[offset] = (v & 0xFF) as u8;
    let hi = bytes[offset + 1];
    bytes[offset + 1] = (hi & 0xFC) | (v >> 8) as u8;
}

/// The big-endian `u16` of the pair `b0`, `b1`.
pub open spec fn u16_be_value(b0: u8, b1: u8) -> u16 {
    ((b0 as u16) << 8u16) | (b1 as u16)
}

/// The little-endian `u16` of the pair `b0`, `b1`.
pub open spec fn u16_le_value(b0: u8, b1: u8) -> u16 {
    (b0 as u16) | ((b1 as u16) << 8u16)
}

/// Read a big-endian `u16` at `offset`.
pub fn read_u16_be(bytes: &[u8], offset: usize) -> (v: u16)
    requires
        offset + 1 < bytes@.len(),
    ensures
        v == u16_be_value(bytes@[offset as int], bytes@[offset + 1]),
        v as int == bytes@[offset as int] * 256 + bytes@[offset + 1],
{
    let b0 = bytes[offset];
    let b1 = bytes[offset + 1];
    assert((((b0 as u16) << 8u16) | (b1 as u16)) as int == b0 * 256 + b1) by (bit_vector);
    (b0 as u16) << 8 | (b1 as u16)
}

/// Write `value` as a big-endian `u16` at `offset`.
pub fn write_u16_be(bytes: &mut [u8], offset: usize, value: u16)
    requires
        offset + 1 < old(bytes)@.len(),
    ensures
        final(bytes)@ == old(bytes)@.update(offset as int, (value >> 8u16) as u8).update(
            offset + 1,
            (value & 0xFF) as u8,
        ),
        final(bytes)@[offset as int] == value / 256,
        final(bytes)@[offset + 1] == value % 256,
{
    assert((value >> 8u16) as u8 == value / 256 && (value & 0xFF) as u8 == value % 256) by (bit_vector);
    bytes[offset] = (value >> 8) as u8;
    bytes[offset + 1] = (value & 0xFF) as u8;
}

/// Read a little-endian `u16` at `offset`.
pub fn read_u16_le(bytes: &[u8], offset: usize) -> (v: u16)
    requires
        offset + 1 < bytes@.len(),
    ensures
        v == u16_le_value(bytes@[offset as int], bytes@[offset + 1]),
        v as int == bytes@[offset as int] + bytes@[offset + 1] * 256,
{
    let b0 = bytes[offset];
    let b1 = bytes[offset + 1];
    assert(((b0 as u16) | ((b1 as u16) << 8u16)) as int == b0 + b1 * 256) by (bit_vector);
    (b0 as u16) | ((b1 as u16) << 8)
}

/// Write `value` as a little-endian `u16` at `offset`.
pub fn write_u16_le(bytes: &mut [u8], offset: usize, value: u16)
    requires
        offset + 1 < old(bytes)@.len(),
    ensures
        final(bytes)@ == old(bytes)@.update(offset as int, (value & 0xFF) as u8).update(
            offset + 1,
            (value >> 8u16) as u8,
        ),
        final(bytes)@[offset as int] == value % 256,
        final(bytes)@[offset + 1] == value / 256,
{
    assert((value >> 8u16) as u8 == value / 256 && (value & 0xFF) as u8 == value % 256) by (bit_vector);
    bytes[offset] = (value & 0xFF) as u8;
    bytes[offset + 1] = (value >> 8) as u8;
}

/// Reading a 10-bit value back after writing it gives its low 10 bits, and
/// the write keeps the upper 6 bits of the high byte.
pub proof fn lemma_ten_bit_round_trip(old_hi: u8, value: u16)
    ensures
        ten_bit_value(ten_bit_low(value), ten_bit_high(old_hi, value)) == value & 0x03FF,
        ten_bit_high(old_hi, value) & 0xFC == old_hi & 0xFC,
        value <= 1023 ==> ten_bit_value(ten_bit_low(value), ten_bit_high(old_hi, value)) == value,
{
    assert(ten_bit_value(ten_bit_low(value), ten_bit_high(old_hi, value)) == value & 0x03FF && ten_bit_high(old_hi, value) & 0xFC
        == old_hi & 0xFC && (value <= 1023 ==> value & 0x03FF == value)) by (bit_vector);
}

/// Writing back the 10-bit value that was read leaves both bytes unchanged.
pub proof fn lemma_ten_bit_rewrite(lo: u8, hi: u8)
    ensures
        ten_bit_low(ten_bit_value(lo, hi)) == lo,
        ten_bit_high(hi, ten_bit_value(lo, hi)) == hi,
{
    assert(ten_bit_low(ten_bit_value(lo, hi)) == lo && ten_bit_high(hi, ten_bit_value(lo, hi)) == hi) by (bit_vector);
}

/// Big- and little-endian `u16` fields read back what was written, and
/// writing back what was read leaves the bytes unchanged.
pub proof fn lemma_u16_round_trip(value: u16, b0: u8, b1: u8)
    ensures
        u16_be_value((value >> 8u16) as u8, (value & 0xFF) as u8) == value,
        u16_le_value((value & 0xFF) as u8, (value >> 8u16) as u8) == value,
        (u16_be_value(b0, b1) >> 8u16) as u8 == b0 && (u16_be_value(b0, b1) & 0xFF) as u8 == b1,
        (u16_le_value(b0, b1) & 0xFF) as u8 == b0 && (u16_le_value(b0, b1) >> 8u16) as u8 == b1,
{
    assert(u16_be_value((value >> 8u16) as u8, (value & 0xFF) as u8) == value && u16_le_value((value & 0xFF) as u8, (value
        >> 8u16) as u8) == value && (u16_be_value(b0, b1) >> 8u16) as u8 == b0 && (u16_be_value(b0, b1) & 0xFF) as u8 == b1
        && (u16_le_value(b0, b1) & 0xFF) as u8 == b0 && (u16_le_value(b0, b1) >> 8u16) as u8 == b1) by (bit_vector);
}

} // verus!
