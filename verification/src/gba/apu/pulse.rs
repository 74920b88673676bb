use crate::common::register_ops::{RegisterOps, RegisterWord};
use crate::gba::bitfield::{field16, field32, get16, get32, lemma_field16_bound, lemma_field32_bound, set32, with_field32};
use vstd::prelude::*;

verus! {

/// SOUND1CNT_H / SOUND2CNT_L: length, duty and envelope of a pulse channel.
/// The length is write-only.
#[derive(Debug, Copy, Clone, PartialEq, Eq, Structural)]
pub struct PulseControl {
    bits: u16,
}

impl View for PulseControl {
    type V = u16;

    closed spec fn view(&self) -> u16 {
        self.bits
    }
}

impl PulseControl {
    pub fn from_bits(bits: u16) -> (r: Self)
        ensures
            r@ == bits,
    {
        PulseControl { bits: bits }
    }

    pub fn into_bits(self) -> (r: u16)
        ensures
            r == self@,
    {
        self.bits
    }

    /// The bits the register holds after `bits` are written to it: fields
    /// reserved by the hardware keep their value.
    pub open spec fn spec_merged(current: u16, bits: u16) -> u16 {
        bits
    }

    pub open spec fn spec_write_bits(self, bits: u16) -> u16 {
        Self::spec_merged(self@, bits)
    }

    pub fn write_bits(&mut self, bits: u16)
        ensures
            final(self)@ == old(self).spec_write_bits(bits),
    {
        self.bits = bits;
    }

    pub open spec fn spec_length(self) -> u8 {
        field16(self@, 0, 6) as u8
    }

    pub fn length(&self) -> (r: u8)
        ensures
            r == self.spec_length(),
            r <= 63,
    {
        proof {
            lemma_field16_bound(self.bits, 0, 6);
        }
        get16(self.bits, 0, 6) as u8
    }

    pub open spec fn spec_wave_duty(self) -> u8 {
        field16(self@, 6, 2) as u8
    }

    pub fn wave_duty(&self) -> (r: u8)
        ensures
            r == self.spec_wave_duty(),
            r <= 3,
    {
        proof {
            lemma_field16_bound(self.bits, 6, 2);
        }
        get16(self.bits, 6, 2) as u8
    }

    pub open spec fn spec_envelope_pace(self) -> u8 {
        field16(self@, 8, 3) as u8
    }

    pub fn envelope_pace(&self) -> (r: u8)
        ensures
            r == self.spec_envelope_pace(),
            r <= 7,
    {
        proof {
            lemma_field16_bound(self.bits, 8, 3);
        }
        get16(self.bits, 8, 3) as u8
    }

    pub open spec fn spec_initial_volume(self) -> u8 {
        field16(self@, 12, 4) as u8
    }

    pub fn initial_volume(&self) -> (r: u8)
        ensures
            r == self.spec_initial_volume(),
            r <= 15,
    {
        proof {
            lemma_field16_bound(self.bits, 12, 4);
        }
        get16(self.bits, 12, 4) as u8
    }

}

impl RegisterOps<u16> for PulseControl {
    open spec fn spec_register(&self) -> u16 {
        self@
    }

    open spec fn spec_written(&self, bits: u16) -> u16 {
        self.spec_write_bits(bits)
    }

    open spec fn spec_read_mask(&self) -> u16 {
        0xFFC0
    }

    open spec fn spec_write_mask(&self) -> u16 {
        0xFFFF
    }

    fn register(&self) -> (r: u16) {
        self.bits
    }

    fn write_register(&mut self, bits: u16) {
        self.write_bits(bits);
    }

    fn read_mask(&self) -> (r: u16) {
        0xFFC0
    }

    fn write_mask(&self) -> (r: u16) {
        0xFFFF
    }
}

/// SOUND1CNT_X / SOUND2CNT_H: frequency, length enable and trigger. Only
/// the length enable reads back.
#[derive(Debug, Copy, Clone, PartialEq, Eq, Structural)]
pub struct PulseFrequency {
    bits: u32,
}

impl View for PulseFrequency {
    type V = u32;

    closed spec fn view(&self) -> u32 {
        self.bits
    }
}

impl PulseFrequency {
    pub fn from_bits(bits: u32) -> (r: Self)
        ensures
            r@ == bits,
    {
        PulseFrequency { bits: bits }
    }

    pub fn into_bits(self) -> (r: u32)
        ensures
            r == self@,
    {
        self.bits
    }

    /// The bits the register holds after `bits` are written to it: fields
    /// reserved by the hardware keep their value.
    pub open spec fn spec_merged(current: u32, bits: u32) -> u32 {
        (current & 0xFFFF_3800) | (bits & !0xFFFF_3800)
    }

    pub open spec fn spec_write_bits(self, bits: u32) -> u32 {
        Self::spec_merged(self@, bits)
    }

    pub fn write_bits(&mut self, bits: u32)
        ensures
            final(self)@ == old(self).spec_write_bits(bits),
    {
        self.bits = (self.bits & 0xFFFF_3800) | (bits & !0xFFFF_3800);
    }

    pub open spec fn spec_frequency(self) -> u16 {
        field32(self@, 0, 11) as u16
    }

    pub fn frequency(&self) -> (r: u16)
        ensures
            r == self.spec_frequency(),
    {
        proof {
            lemma_field32_bound(self.bits, 0, 11);
        }
        get32(self.bits, 0, 11) as u16
    }

    pub open spec fn spec_length_enable(self) -> bool {
        field32(self@, 14, 1) == 1
    }

    pub fn length_enable(&self) -> (r: bool)
        ensures
            r == self.spec_length_enable(),
    {
        get32(self.bits, 14, 1) == 1
    }

    pub open spec fn spec_trigger(self) -> bool {
        field32(self@, 15, 1) == 1
    }

    pub fn trigger(&self) -> (r: bool)
        ensures
            r == self.spec_trigger(),
    {
        get32(self.bits, 15, 1) == 1
    }

    pub fn set_frequency(&mut self, value: u16)
        ensures
            final(self)@ == with_field32(old(self)@, 0, 11, value as u32),
    {
        self.bits = set32(self.bits, 0, 11, value as u32);
    }

    pub fn set_trigger(&mut self, value: bool)
        ensures
            final(self)@ == with_field32(old(self)@, 15, 1, if value { 1 } else { 0 }),
    {
        self.bits = set32(self.bits, 15, 1, if value { 1 } else { 0 });
    }

}

impl RegisterOps<u32> for PulseFrequency {
    open spec fn spec_register(&self) -> u32 {
        self@
    }

    open spec fn spec_written(&self, bits: u32) -> u32 {
        self.spec_write_bits(bits)
    }

    open spec fn spec_read_mask(&self) -> u32 {
        0xFFFF_7800
    }

    open spec fn spec_write_mask(&self) -> u32 {
        0xFFFF_FFFF
    }

    fn register(&self) -> (r: u32) {
        self.bits
    }

    fn write_register(&mut self, bits: u32) {
        self.write_bits(bits);
    }

    fn read_mask(&self) -> (r: u32) {
        0xFFFF_7800
    }

    fn write_mask(&self) -> (r: u32) {
        0xFFFF_FFFF
    }
}

} // verus!
