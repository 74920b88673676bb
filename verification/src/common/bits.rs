use std::ops::RangeInclusive;
use vstd::prelude::*;

verus! {

/// The lowest `bits` bits of `value`, as an unsigned number.
pub open spec fn low_field(value: u32, bits: u32) -> u64 {
    (value as u64) & (((1u64 << (bits as u64)) - 1) as u64)
}

/// The lowest `bits` bits of `value` read as a two's-complement number of
/// width `bits`.
pub open spec fn sign_extended(value: u32, bits: u32) -> int {
    let field = low_field(value, bits);
    if field >= (1u64 << ((bits - 1) as u64)) {
        field - (1u64 << (bits as u64))
    } else {
        field as int
    }
}

proof fn lemma_sign_extend_by_shifts(value: u32, bits: u32, shift: u32)
    requires
        1 <= bits <= 32,
        shift == 32 - bits,
    ensures
        ((((value << shift) as i32) >> shift) as int) == sign_extended(value, bits),
{
    assert(((((value << shift) as i32) >> shift) as int) == sign_extended(value, bits))
        by (bit_vector)
        requires
            1 <= bits <= 32,
            shift == 32 - bits,
    ;
}

/// Sign-extend the bottom `bits` bits of an unsigned value, interpreting them
/// as two's-complement, into a full `i32`.
///
/// Example: `0x1FFu16.sign_extend(9) == -1` because bit 8 is the 9-bit sign bit.
pub trait SignExtend: Sized {
    spec fn spec_as_u32(self) -> u32;

    fn sign_extend(self, bits: u32) -> (r: i32)
        requires
            1 <= bits <= 32,
        ensures
            r as int == sign_extended(self.spec_as_u32(), bits),
    ;
}

impl SignExtend for u32 {
    open spec fn spec_as_u32(self) -> u32 {
        self
    }

    fn sign_extend(self, bits: u32) -> (r: i32) {
        let shift = 32 - bits;
        proof {
            lemma_sign_extend_by_shifts(self, bits, shift);
        }
        ((self << shift) as i32) >> shift
    }
}

impl SignExtend for u16 {
    open spec fn spec_as_u32(self) -> u32 {
        self as u32
    }

    fn sign_extend(self, bits: u32) -> (r: i32) {
        (self as u32).sign_extend(bits)
    }
}


/// `RangeInclusive::start` (core): returns the range's lower bound, as the
/// standard library documents.
pub assume_specification<Idx>[ RangeInclusive::<Idx>::start ](range: &RangeInclusive<Idx>) -> (r: &Idx)
    ensures
        *r == range@.start,
;

/// `RangeInclusive::end` (core): returns the range's upper bound, as the
/// standard library documents. The library only reads the bounds of ranges
/// it builds and never iterates; what the bound is after iteration is left
/// unsaid.
pub assume_specification<Idx>[ RangeInclusive::<Idx>::end ](range: &RangeInclusive<Idx>) -> (r: &Idx)
    ensures
        *r == range@.end,
;

/// Bit access on fixed-width unsigned integers.
pub trait BitOps: Sized {
    /// The number of bits of the type.
    spec fn bit_width() -> nat;

    /// Whether bit `index` is set.
    spec fn spec_bit(self, index: usize) -> bool;

    /// The value with bit `index` set to `value`, every other bit unchanged.
    spec fn spec_set_bit(self, index: usize, value: bool) -> Self;

    /// Bits `start..=end`, shifted down to bit 0.
    spec fn spec_bits(self, start: usize, end: usize) -> Self;

    fn bit(&self, index: usize) -> (r: bool)
        requires
            index < Self::bit_width(),
        ensures
            r == self.spec_bit(index),
    ;

    fn set_bit(&mut self, index: usize, value: bool)
        requires
            index < Self::bit_width(),
        ensures
            *final(self) == old(self).spec_set_bit(index, value),
    ;

    fn bits(&self, range: RangeInclusive<usize>) -> (r: Self)
        requires
            range@.start <= range@.end,
            range@.end < Self::bit_width(),
        ensures
            r == self.spec_bits(range@.start, range@.end),
    ;

    /// Writing a bit and reading it back gives the written value; no other
    /// bit changes.
    proof fn lemma_set_bit_then_bit(self, index: usize, other: usize, value: bool)
        requires
            index < Self::bit_width(),
            other < Self::bit_width(),
        ensures
            self.spec_set_bit(index, value).spec_bit(index) == value,
            other != index ==> self.spec_set_bit(index, value).spec_bit(other) == self.spec_bit(other),
    ;
}

impl BitOps for u8 {
    open spec fn bit_width() -> nat {
        8
    }

    open spec fn spec_bit(self, index: usize) -> bool {
        (self >> (index as u8)) & 1 == 1
    }

    open spec fn spec_set_bit(self, index: usize, value: bool) -> u8 {
        if value {
            self | (1u8 << (index as u8))
        } else {
            self & !(1u8 << (index as u8))
        }
    }

    /// Bits `start..=end` of `self`, moved down to bit 0, under a mask of
    /// `end - start + 1` low ones.
    open spec fn spec_bits(self, start: usize, end: usize) -> u8 {
        (self >> (start as u8)) & (u8::MAX >> ((8 - (end - start + 1)) as u8))
    }

    fn bit(&self, index: usize) -> (r: bool) {
        let i = index as u8;
        (*self >> i) & 1 == 1
    }

    fn set_bit(&mut self, index: usize, value: bool) {
        let mask: u8 = 1 << index;
        if value {
            *self |= mask;
        } else {
            *self &= !mask;
        }
    }

    fn bits(&self, range: RangeInclusive<usize>) -> (r: u8) {
        let start = *range.start();
        let end = *range.end();
        let length = end - start + 1;
        let mask: u8 = u8::MAX >> ((8 - length) as u8);
        (*self >> (start as u8)) & mask
    }

    proof fn lemma_set_bit_then_bit(self, index: usize, other: usize, value: bool) {
        let i = index as u8;
        let o = other as u8;
        assert((((self | (1u8 << i)) >> i) & 1 == 1) && (((self & !(1u8 << i)) >> i) & 1 == 0)
            && (o != i ==> (((self | (1u8 << i)) >> o) & 1 == (self >> o) & 1)
                && (((self & !(1u8 << i)) >> o) & 1 == (self >> o) & 1))) by (bit_vector)
            requires
                i < 8,
                o < 8,
        ;
    }
}

impl BitOps for u16 {
    open spec fn bit_width() -> nat {
        16
    }

    open spec fn spec_bit(self, index: usize) -> bool {
        (self >> (index as u16)) & 1 == 1
    }

    open spec fn spec_set_bit(self, index: usize, value: bool) -> u16 {
        if value {
            self | (1u16 << (index as u16))
        } else {
            self & !(1u16 << (index as u16))
        }
    }

    /// Bits `start..=end` of `self`, moved down to bit 0, under a mask of
    /// `end - start + 1` low ones.
    open spec fn spec_bits(self, start: usize, end: usize) -> u16 {
        (self >> (start as u16)) & (u16::MAX >> ((16 - (end - start + 1)) as u16))
    }

    fn bit(&self, index: usize) -> (r: bool) {
        let i = index as u16;
        (*self >> i) & 1 == 1
    }

    fn set_bit(&mut self, index: usize, value: bool) {
        let mask: u16 = 1 << index;
        if value {
            *self |= mask;
        } else {
            *self &= !mask;
        }
    }

    fn bits(&self, range: RangeInclusive<usize>) -> (r: u16) {
        let start = *range.start();
        let end = *range.end();
        let length = end - start + 1;
        let mask: u16 = u16::MAX >> ((16 - length) as u16);
        (*self >> (start as u16)) & mask
    }

    proof fn lemma_set_bit_then_bit(self, index: usize, other: usize, value: bool) {
        let i = index as u16;
        let o = other as u16;
        assert((((self | (1u16 << i)) >> i) & 1 == 1) && (((self & !(1u16 << i)) >> i) & 1 == 0)
            && (o != i ==> (((self | (1u16 << i)) >> o) & 1 == (self >> o) & 1)
                && (((self & !(1u16 << i)) >> o) & 1 == (self >> o) & 1))) by (bit_vector)
            requires
                i < 16,
                o < 16,
        ;
    }
}

impl BitOps for u32 {
    open spec fn bit_width() -> nat {
        32
    }

    open spec fn spec_bit(self, index: usize) -> bool {
        (self >> (index as u32)) & 1 == 1
    }

    open spec fn spec_set_bit(self, index: usize, value: bool) -> u32 {
        if value {
            self | (1u32 << (index as u32))
        } else {
            self & !(1u32 << (index as u32))
        }
    }

    /// Bits `start..=end` of `self`, moved down to bit 0, under a mask of
    /// `end - start + 1` low ones.
    open spec fn spec_bits(self, start: usize, end: usize) -> u32 {
        (self >> (start as u32)) & (u32::MAX >> ((32 - (end - start + 1)) as u32))
    }

    fn bit(&self, index: usize) -> (r: bool) {
        let i = index as u32;
        (*self >> i) & 1 == 1
    }

    fn set_bit(&mut self, index: usize, value: bool) {
        let mask: u32 = 1 << index;
        if value {
            *self |= mask;
        } else {
            *self &= !mask;
        }
    }

    fn bits(&self, range: RangeInclusive<usize>) -> (r: u32) {
        let start = *range.start();
        let end = *range.end();
        let length = end - start + 1;
        let mask: u32 = u32::MAX >> ((32 - length) as u32);
        (*self >> (start as u32)) & mask
    }

    proof fn lemma_set_bit_then_bit(self, index: usize, other: usize, value: bool) {
        let i = index as u32;
        let o = other as u32;
        assert((((self | (1u32 << i)) >> i) & 1 == 1) && (((self & !(1u32 << i)) >> i) & 1 == 0)
            && (o != i ==> (((self | (1u32 << i)) >> o) & 1 == (self >> o) & 1)
                && (((self & !(1u32 << i)) >> o) & 1 == (self >> o) & 1))) by (bit_vector)
            requires
                i < 32,
                o < 32,
        ;
    }
}

impl BitOps for u64 {
    open spec fn bit_width() -> nat {
        64
    }

    open spec fn spec_bit(self, index: usize) -> bool {
        (self >> (index as u64)) & 1 == 1
    }

    open spec fn spec_set_bit(self, index: usize, value: bool) -> u64 {
        if value {
            self | (1u64 << (index as u64))
        } else {
            self & !(1u64 << (index as u64))
        }
    }

    /// Bits `start..=end` of `self`, moved down to bit 0, under a mask of
    /// `end - start + 1` low ones.
    open spec fn spec_bits(self, start: usize, end: usize) -> u64 {
        (self >> (start as u64)) & (u64::MAX >> ((64 - (end - start + 1)) as u64))
    }

    fn bit(&self, index: usize) -> (r: bool) {
        let i = index as u64;
        (*self >> i) & 1 == 1
    }

    fn set_bit(&mut self, index: usize, value: bool) {
        let mask: u64 = 1 << index;
        if value {
            *self |= mask;
        } else {
            *self &= !mask;
        }
    }

    fn bits(&self, range: RangeInclusive<usize>) -> (r: u64) {
        let start = *range.start();
        let end = *range.end();
        let length = end - start + 1;
        let mask: u64 = u64::MAX >> ((64 - length) as u64);
        (*self >> (start as u64)) & mask
    }

    proof fn lemma_set_bit_then_bit(self, index: usize, other: usize, value: bool) {
        let i = index as u64;
        let o = other as u64;
        assert((((self | (1u64 << i)) >> i) & 1 == 1) && (((self & !(1u64 << i)) >> i) & 1 == 0)
            && (o != i ==> (((self | (1u64 << i)) >> o) & 1 == (self >> o) & 1)
                && (((self & !(1u64 << i)) >> o) & 1 == (self >> o) & 1))) by (bit_vector)
            requires
                i < 64,
                o < 64,
        ;
    }
}

} // verus!
