use vstd::prelude::*;

verus! {

/// Bits `offset..offset + width` of `bits`, moved down to bit 0.
pub open spec fn field16(bits: u16, offset: u16, width: u16) -> u16 {
    (bits >> offset) & (0xFFFFu16 >> ((16 - width) as u16))
}

/// `bits` with bits `offset..offset + width` replaced by the low `width` bits
/// of `value`.
pub open spec fn with_field16(bits: u16, offset: u16, width: u16, value: u16) -> u16 {
    let mask = (0xFFFFu16 >> ((16 - width) as u16)) << offset;
    (bits & !mask) | ((value << offset) & mask)
}

pub fn get16(bits: u16, offset: u16, width: u16) -> (r: u16)
    requires
        1 <= width,
        offset + width <= 16,
    ensures
        r == field16(bits, offset, width),
{
    (bits >> offset) & (0xFFFFu16 >> (16 - width))
}

pub fn set16(bits: u16, offset: u16, width: u16, value: u16) -> (r: u16)
    requires
        1 <= width,
        offset + width <= 16,
    ensures
        r == with_field16(bits, offset, width, value),
{
    let mask = (0xFFFFu16 >> (16 - width)) << offset;
    (bits & !mask) | ((value << offset) & mask)
}

/// Bits `offset..offset + width` of `bits`, moved down to bit 0.
pub open spec fn field32(bits: u32, offset: u32, width: u32) -> u32 {
    (bits >> offset) & (0xFFFF_FFFFu32 >> ((32 - width) as u32))
}

/// `bits` with bits `offset..offset + width` replaced by the low `width` bits
/// of `value`.
pub open spec fn with_field32(bits: u32, offset: u32, width: u32, value: u32) -> u32 {
    let mask = (0xFFFF_FFFFu32 >> ((32 - width) as u32)) << offset;
    (bits & !mask) | ((value << offset) & mask)
}

pub fn get32(bits: u32, offset: u32, width: u32) -> (r: u32)
    requires
        1 <= width,
        offset + width <= 32,
    ensures
        r == field32(bits, offset, width),
{
    (bits >> offset) & (0xFFFF_FFFFu32 >> (32 - width))
}

pub fn set32(bits: u32, offset: u32, width: u32, value: u32) -> (r: u32)
    requires
        1 <= width,
        offset + width <= 32,
    ensures
        r == with_field32(bits, offset, width, value),
{
    let mask = (0xFFFF_FFFFu32 >> (32 - width)) << offset;
    (bits & !mask) | ((value << offset) & mask)
}

/// The field of a 16-bit register is no wider than its bits allow.
pub proof fn lemma_field16_bound(bits: u16, offset: u16, width: u16)
    by (bit_vector)
    requires
        1 <= width,
        offset + width <= 16,
    ensures
        width == 1 ==> field16(bits, offset, width) <= 1,
        width == 2 ==> field16(bits, offset, width) <= 3,
        width == 3 ==> field16(bits, offset, width) <= 7,
        width == 4 ==> field16(bits, offset, width) <= 15,
        width == 5 ==> field16(bits, offset, width) <= 31,
        width == 6 ==> field16(bits, offset, width) <= 63,
        width == 7 ==> field16(bits, offset, width) <= 127,
        width == 8 ==> field16(bits, offset, width) <= 255,
        width == 9 ==> field16(bits, offset, width) <= 511,
        width == 10 ==> field16(bits, offset, width) <= 1023,
{
}

/// The field of a 32-bit register is no wider than its bits allow.
pub proof fn lemma_field32_bound(bits: u32, offset: u32, width: u32)
    by (bit_vector)
    requires
        1 <= width,
        offset + width <= 32,
    ensures
        width == 1 ==> field32(bits, offset, width) <= 1,
        width == 2 ==> field32(bits, offset, width) <= 3,
        width == 3 ==> field32(bits, offset, width) <= 7,
        width == 4 ==> field32(bits, offset, width) <= 15,
        width == 5 ==> field32(bits, offset, width) <= 31,
        width == 6 ==> field32(bits, offset, width) <= 63,
        width == 7 ==> field32(bits, offset, width) <= 127,
        width == 8 ==> field32(bits, offset, width) <= 255,
        width == 9 ==> field32(bits, offset, width) <= 511,
{
}

} // verus!
