use crate::common::register_ops::{RegisterOps, RegisterWord};
use crate::gba::bitfield::{field32, get32, lemma_field32_bound, set32, with_field16, with_field32};
use vstd::prelude::*;
use vstd::arithmetic::power2::{lemma2_to64, lemma_pow2_strictly_increases, pow2};
use vstd::bits::lemma_usize_shl_is_mul;

verus! {

/// SOUND4CNT_L: length and envelope of the noise channel. The length is
/// write-only.
#[derive(Debug, Copy, Clone, PartialEq, Eq, Structural)]
pub struct NoiseControl {
    bits: u32,
}

impl View for NoiseControl {
    type V = u32;

    closed spec fn view(&self) -> u32 {
        self.bits
    }
}

impl NoiseControl {
    pub fn from_bits(bits: u32) -> (r: Self)
        ensures
            r@ == bits,
    {
        NoiseControl { bits: bits }
    }

    pub fn into_bits(self) -> (r: u32)
        ensures
            r == self@,
    {
        self.bits
    }

    /// The bits the register holds after `bits` are written to it: fields
    /// reserved by the hardware keep their value.
    pub open spec fn spec_merged(current: u32, bits: u32) -> u32 {
        (current & 0xFFFF_00C0) | (bits & !0xFFFF_00C0)
    }

    pub open spec fn spec_write_bits(self, bits: u32) -> u32 {
        Self::spec_merged(self@, bits)
    }

    pub fn write_bits(&mut self, bits: u32)
        ensures
            final(self)@ == old(self).spec_write_bits(bits),
    {
        self.bits = (self.bits & 0xFFFF_00C0) | (bits & !0xFFFF_00C0);
    }

    pub open spec fn spec_length(self) -> u8 {
        field32(self@, 0, 6) as u8
    }

    pub fn length(&self) -> (r: u8)
        ensures
            r == self.spec_length(),
            r <= 63,
    {
        proof {
            lemma_field32_bound(self.bits, 0, 6);
        }
        get32(self.bits, 0, 6) as u8
    }

    pub open spec fn spec_envelope_pace(self) -> u8 {
        field32(self@, 8, 3) as u8
    }

    pub fn envelope_pace(&self) -> (r: u8)
        ensures
            r == self.spec_envelope_pace(),
            r <= 7,
    {
        proof {
            lemma_field32_bound(self.bits, 8, 3);
        }
        get32(self.bits, 8, 3) as u8
    }

    pub open spec fn spec_initial_volume(self) -> u8 {
        field32(self@, 12, 4) as u8
    }

    pub fn initial_volume(&self) -> (r: u8)
        ensures
            r == self.spec_initial_volume(),
            r <= 15,
    {
        proof {
            lemma_field32_bound(self.bits, 12, 4);
        }
        get32(self.bits, 12, 4) as u8
    }

}

impl RegisterOps<u32> for NoiseControl {
    open spec fn spec_register(&self) -> u32 {
        self@
    }

    open spec fn spec_written(&self, bits: u32) -> u32 {
        self.spec_write_bits(bits)
    }

    open spec fn spec_read_mask(&self) -> u32 {
        0xFFFF_FFC0
    }

    open spec fn spec_write_mask(&self) -> u32 {
        0xFFFF_FFFF
    }

    fn register(&self) -> (r: u32) {
        self.bits
    }

    fn write_register(&mut self, bits: u32) {
        self.write_bits(bits);
    }

    fn read_mask(&self) -> (r: u32) {
        0xFFFF_FFC0
    }

    fn write_mask(&self) -> (r: u32) {
        0xFFFF_FFFF
    }
}

/// The width of the noise shift register.
#[derive(Debug, Copy, Clone, PartialEq, Eq, Structural)]
pub enum CounterWidth {
    FullWidth,
    NarrowWidth,
}

impl CounterWidth {
    pub open spec fn spec_from_bits(bits: u8) -> Self {
        if bits == 1 {
            CounterWidth::NarrowWidth
        } else {
            CounterWidth::FullWidth
        }
    }

    pub open spec fn spec_into_bits(self) -> u8 {
        match self {
            CounterWidth::FullWidth => 0,
            CounterWidth::NarrowWidth => 1,
        }
    }

    pub fn from_bits(bits: u8) -> (r: Self)
        ensures
            r == Self::spec_from_bits(bits),
    {
        match bits {
            1 => CounterWidth::NarrowWidth,
            _ => CounterWidth::FullWidth,
        }
    }

    pub fn into_bits(self) -> (r: u8)
        ensures
            r == self.spec_into_bits(),
    {
        match self {
            CounterWidth::FullWidth => 0,
            CounterWidth::NarrowWidth => 1,
        }
    }

    pub open spec fn spec_width(self) -> u16 {
        match self {
            CounterWidth::FullWidth => 15,
            CounterWidth::NarrowWidth => 7,
        }
    }

    /// The number of bits of the shift register.
    pub fn width(&self) -> (r: u16)
        ensures
            r == self.spec_width(),
    {
        match self {
            CounterWidth::FullWidth => 15,
            CounterWidth::NarrowWidth => 7,
        }
    }

    /// One step of the noise shift register: it shifts right by one and its
    /// top bit (14 or 6) takes the complement of the exclusive or of the two
    /// low bits.
    pub fn step(&self, lfsr: u16) -> (r: u16)
        ensures
            r == with_field16(lfsr >> 1u16, (self.spec_width() - 1) as u16, 1, if lfsr % 2 == (lfsr / 2) % 2 { 1 } else { 0 }),
            self.spec_width() == 15 && lfsr < 0x8000 ==> r < 0x8000,
    {
        let feedback = !((lfsr ^ (lfsr >> 1)) & 1) & 1;
        let tap = self.width() - 1;
        let shifted = lfsr >> 1;
        let r = (shifted & !(1 << tap)) | (feedback << tap);
        proof {
            let fb: u16 = if lfsr % 2 == (lfsr / 2) % 2 { 1 } else { 0 };
            assert(feedback == fb && r == with_field16(shifted, tap, 1, fb) && (tap == 14 && lfsr < 0x8000 ==> r < 0x8000))
                by (bit_vector)
                requires
                    feedback == !((lfsr ^ (lfsr >> 1)) & 1) & 1,
                    shifted == lfsr >> 1,
                    r == (shifted & !(1u16 << tap)) | (feedback << tap),
                    fb == if lfsr % 2 == (lfsr / 2) % 2 { 1u16 } else { 0u16 },
                    tap == 14 || tap == 6,
            ;
        }
        r
    }

}

/// SOUND4CNT_H: the noise clock, width, length enable and trigger. Only the
/// length enable reads back.
#[derive(Debug, Copy, Clone, PartialEq, Eq, Structural)]
pub struct NoiseFrequency {
    bits: u32,
}

impl View for NoiseFrequency {
    type V = u32;

    closed spec fn view(&self) -> u32 {
        self.bits
    }
}

impl NoiseFrequency {
    pub fn from_bits(bits: u32) -> (r: Self)
        ensures
            r@ == bits,
    {
        NoiseFrequency { bits: bits }
    }

    pub fn into_bits(self) -> (r: u32)
        ensures
            r == self@,
    {
        self.bits
    }

    /// The bits the register holds after `bits` are written to it: fields
    /// reserved by the hardware keep their value.
    pub open spec fn spec_merged(current: u32, bits: u32) -> u32 {
        (current & 0xFFFF_3F00) | (bits & !0xFFFF_3F00)
    }

    pub open spec fn spec_write_bits(self, bits: u32) -> u32 {
        Self::spec_merged(self@, bits)
    }

    pub fn write_bits(&mut self, bits: u32)
        ensures
            final(self)@ == old(self).spec_write_bits(bits),
    {
        self.bits = (self.bits & 0xFFFF_3F00) | (bits & !0xFFFF_3F00);
    }

    pub open spec fn spec_divider(self) -> u8 {
        field32(self@, 0, 3) as u8
    }

    pub fn divider(&self) -> (r: u8)
        ensures
            r == self.spec_divider(),
            r <= 7,
    {
        proof {
            lemma_field32_bound(self.bits, 0, 3);
        }
        get32(self.bits, 0, 3) as u8
    }

    pub open spec fn spec_counter_step(self) -> CounterWidth {
        CounterWidth::spec_from_bits(field32(self@, 3, 1) as u8)
    }

    pub fn counter_step(&self) -> (r: CounterWidth)
        ensures
            r == self.spec_counter_step(),
    {
        proof {
            lemma_field32_bound(self.bits, 3, 1);
        }
        CounterWidth::from_bits(get32(self.bits, 3, 1) as u8)
    }

    pub open spec fn spec_shift_clock(self) -> u8 {
        field32(self@, 4, 4) as u8
    }

    pub fn shift_clock(&self) -> (r: u8)
        ensures
            r == self.spec_shift_clock(),
            r <= 15,
    {
        proof {
            lemma_field32_bound(self.bits, 4, 4);
        }
        get32(self.bits, 4, 4) as u8
    }

    pub open spec fn spec_length_enable(self) -> bool {
        field32(self@, 14, 1) == 1
    }

    pub fn length_enable(&self) -> (r: bool)
        ensures
            r == self.spec_length_enable(),
    {
        get32(self.bits, 14, 1) == 1
    }

    pub open spec fn spec_trigger(self) -> bool {
        field32(self@, 15, 1) == 1
    }

    pub fn trigger(&self) -> (r: bool)
        ensures
            r == self.spec_trigger(),
    {
        get32(self.bits, 15, 1) == 1
    }

    pub fn set_trigger(&mut self, value: bool)
        ensures
            final(self)@ == with_field32(old(self)@, 15, 1, if value { 1 } else { 0 }),
    {
        self.bits = set32(self.bits, 15, 1, if value { 1 } else { 0 });
    }

    /// Cycles between two steps of the noise generator: the divider times 16
    /// (a divider of 0 counts as a half, giving 8), doubled `shift_clock`
    /// times, times 4.
    pub open spec fn spec_period_cycles(self) -> int {
        let divisor: int = if self.spec_divider() == 0 {
            8
        } else {
            self.spec_divider() as int * 16
        };
        divisor * pow2(self.spec_shift_clock() as nat) * 4
    }

    pub fn period_cycles(&self) -> (r: usize)
        ensures
            r == self.spec_period_cycles(),
    {
        let clock_shift = self.shift_clock();
        let clock_divider = self.divider();
        proof {
            lemma2_to64();
            lemma_usize_shl_is_mul(clock_divider as usize, 4);
        }
        let divisor: usize = if clock_divider == 0 {
            8
        } else {
            (clock_divider as usize) << 4usize
        };
        let shift = clock_shift as usize;
        proof {
            if shift < 15 {
                lemma_pow2_strictly_increases(shift as nat, 15);
            }
            assert(divisor * pow2(shift as nat) <= 112 * 32768) by (nonlinear_arith)
                requires
                    divisor <= 112,
                    pow2(shift as nat) <= 32768,
            ;
            lemma_usize_shl_is_mul(divisor, shift);
            lemma_usize_shl_is_mul(divisor << shift, 2);
        }
        (divisor << shift) << 2usize
    }

}

impl RegisterOps<u32> for NoiseFrequency {
    open spec fn spec_register(&self) -> u32 {
        self@
    }

    open spec fn spec_written(&self, bits: u32) -> u32 {
        self.spec_write_bits(bits)
    }

    open spec fn spec_read_mask(&self) -> u32 {
        0xFFFF_7800
    }

    open spec fn spec_write_mask(&self) -> u32 {
        0xFFFF_FFFF
    }

    fn register(&self) -> (r: u32) {
        self.bits
    }

    fn write_register(&mut self, bits: u32) {
        self.write_bits(bits);
    }

    fn read_mask(&self) -> (r: u32) {
        0xFFFF_7800
    }

    fn write_mask(&self) -> (r: u32) {
        0xFFFF_FFFF
    }
}

} // verus!
