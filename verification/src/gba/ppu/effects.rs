use crate::common::register_ops::{RegisterOps, RegisterWord};
use crate::gba::bitfield::{field16, get16, lemma_field16_bound};
use crate::gba::bitfield::{field32, get32, lemma_field32_bound};
use vstd::prelude::*;

verus! {

/// The special effect of BLDCNT.
#[derive(Debug, Copy, Clone, PartialEq, Eq, Structural)]
pub enum ColorSpecialEffect {
    NoEffect,
    AlphaBlending,
    BrightnessIncrease,
    BrightnessDecrease,
}

impl ColorSpecialEffect {
    pub open spec fn spec_from_bits(bits: u8) -> Self {
        if bits == 0 {
            ColorSpecialEffect::NoEffect
        } else if bits == 1 {
            ColorSpecialEffect::AlphaBlending
        } else if bits == 2 {
            ColorSpecialEffect::BrightnessIncrease
        } else if bits == 3 {
            ColorSpecialEffect::BrightnessDecrease
        } else {
            ColorSpecialEffect::BrightnessDecrease
        }
    }

    pub open spec fn spec_into_bits(self) -> u8 {
        match self {
            ColorSpecialEffect::NoEffect => 0,
            ColorSpecialEffect::AlphaBlending => 1,
            ColorSpecialEffect::BrightnessIncrease => 2,
            ColorSpecialEffect::BrightnessDecrease => 3,
        }
    }

    pub fn from_bits(bits: u8) -> (r: Self)
        requires
            bits <= 3,
        ensures
            r == Self::spec_from_bits(bits),
    {
        match bits {
            0 => ColorSpecialEffect::NoEffect,
            1 => ColorSpecialEffect::AlphaBlending,
            2 => ColorSpecialEffect::BrightnessIncrease,
            _ => ColorSpecialEffect::BrightnessDecrease,
        }
    }

    pub fn into_bits(self) -> (r: u8)
        ensures
            r == self.spec_into_bits(),
    {
        match self {
            ColorSpecialEffect::NoEffect => 0,
            ColorSpecialEffect::AlphaBlending => 1,
            ColorSpecialEffect::BrightnessIncrease => 2,
            ColorSpecialEffect::BrightnessDecrease => 3,
        }
    }
}

/// BLDCNT: the blending targets and the effect.
#[derive(Debug, Copy, Clone, PartialEq, Eq, Structural)]
pub struct ColorSpecialEffectsSelection {
    bits: u16,
}

impl View for ColorSpecialEffectsSelection {
    type V = u16;

    closed spec fn view(&self) -> u16 {
        self.bits
    }
}

impl ColorSpecialEffectsSelection {
    pub fn from_bits(bits: u16) -> (r: Self)
        ensures
            r@ == bits,
    {
        ColorSpecialEffectsSelection { bits: bits }
    }

    pub fn into_bits(self) -> (r: u16)
        ensures
            r == self@,
    {
        self.bits
    }

    /// The bits the register holds after `bits` are written to it: fields
    /// reserved by the hardware keep their value.
    pub open spec fn spec_merged(current: u16, bits: u16) -> u16 {
        bits
    }

    pub open spec fn spec_write_bits(self, bits: u16) -> u16 {
        Self::spec_merged(self@, bits)
    }

    pub fn write_bits(&mut self, bits: u16)
        ensures
            final(self)@ == old(self).spec_write_bits(bits),
    {
        self.bits = bits;
    }

    pub open spec fn spec_bg0_1st_target_pixel(self) -> bool {
        field16(self@, 0, 1) == 1
    }

    pub fn bg0_1st_target_pixel(&self) -> (r: bool)
        ensures
            r == self.spec_bg0_1st_target_pixel(),
    {
        get16(self.bits, 0, 1) == 1
    }

    pub open spec fn spec_bg1_1st_target_pixel(self) -> bool {
        field16(self@, 1, 1) == 1
    }

    pub fn bg1_1st_target_pixel(&self) -> (r: bool)
        ensures
            r == self.spec_bg1_1st_target_pixel(),
    {
        get16(self.bits, 1, 1) == 1
    }

    pub open spec fn spec_bg2_1st_target_pixel(self) -> bool {
        field16(self@, 2, 1) == 1
    }

    pub fn bg2_1st_target_pixel(&self) -> (r: bool)
        ensures
            r == self.spec_bg2_1st_target_pixel(),
    {
        get16(self.bits, 2, 1) == 1
    }

    pub open spec fn spec_bg3_1st_target_pixel(self) -> bool {
        field16(self@, 3, 1) == 1
    }

    pub fn bg3_1st_target_pixel(&self) -> (r: bool)
        ensures
            r == self.spec_bg3_1st_target_pixel(),
    {
        get16(self.bits, 3, 1) == 1
    }

    pub open spec fn spec_obj_1st_target_pixel(self) -> bool {
        field16(self@, 4, 1) == 1
    }

    pub fn obj_1st_target_pixel(&self) -> (r: bool)
        ensures
            r == self.spec_obj_1st_target_pixel(),
    {
        get16(self.bits, 4, 1) == 1
    }

    pub open spec fn spec_bd_1st_target_pixel(self) -> bool {
        field16(self@, 5, 1) == 1
    }

    pub fn bd_1st_target_pixel(&self) -> (r: bool)
        ensures
            r == self.spec_bd_1st_target_pixel(),
    {
        get16(self.bits, 5, 1) == 1
    }

    pub open spec fn spec_color_special_effect(self) -> ColorSpecialEffect {
        ColorSpecialEffect::spec_from_bits(field16(self@, 6, 2) as u8)
    }

    pub fn color_special_effect(&self) -> (r: ColorSpecialEffect)
        ensures
            r == self.spec_color_special_effect(),
    {
        proof {
            lemma_field16_bound(self.bits, 6, 2);
        }
        ColorSpecialEffect::from_bits(get16(self.bits, 6, 2) as u8)
    }

    pub open spec fn spec_bg0_2nd_target_pixel(self) -> bool {
        field16(self@, 8, 1) == 1
    }

    pub fn bg0_2nd_target_pixel(&self) -> (r: bool)
        ensures
            r == self.spec_bg0_2nd_target_pixel(),
    {
        get16(self.bits, 8, 1) == 1
    }

    pub open spec fn spec_bg1_2nd_target_pixel(self) -> bool {
        field16(self@, 9, 1) == 1
    }

    pub fn bg1_2nd_target_pixel(&self) -> (r: bool)
        ensures
            r == self.spec_bg1_2nd_target_pixel(),
    {
        get16(self.bits, 9, 1) == 1
    }

    pub open spec fn spec_bg2_2nd_target_pixel(self) -> bool {
        field16(self@, 10, 1) == 1
    }

    pub fn bg2_2nd_target_pixel(&self) -> (r: bool)
        ensures
            r == self.spec_bg2_2nd_target_pixel(),
    {
        get16(self.bits, 10, 1) == 1
    }

    pub open spec fn spec_bg3_2nd_target_pixel(self) -> bool {
        field16(self@, 11, 1) == 1
    }

    pub fn bg3_2nd_target_pixel(&self) -> (r: bool)
        ensures
            r == self.spec_bg3_2nd_target_pixel(),
    {
        get16(self.bits, 11, 1) == 1
    }

    pub open spec fn spec_obj_2nd_target_pixel(self) -> bool {
        field16(self@, 12, 1) == 1
    }

    pub fn obj_2nd_target_pixel(&self) -> (r: bool)
        ensures
            r == self.spec_obj_2nd_target_pixel(),
    {
        get16(self.bits, 12, 1) == 1
    }

    pub open spec fn spec_bd_2nd_target_pixel(self) -> bool {
        field16(self@, 13, 1) == 1
    }

    pub fn bd_2nd_target_pixel(&self) -> (r: bool)
        ensures
            r == self.spec_bd_2nd_target_pixel(),
    {
        get16(self.bits, 13, 1) == 1
    }

}

impl RegisterOps<u16> for ColorSpecialEffectsSelection {
    open spec fn spec_register(&self) -> u16 {
        self@
    }

    open spec fn spec_written(&self, bits: u16) -> u16 {
        self.spec_write_bits(bits)
    }

    open spec fn spec_read_mask(&self) -> u16 {
        0xFFFF
    }

    open spec fn spec_write_mask(&self) -> u16 {
        0xFFFF
    }

    fn register(&self) -> (r: u16) {
        self.bits
    }

    fn write_register(&mut self, bits: u16) {
        self.write_bits(bits);
    }

    fn read_mask(&self) -> (r: u16) {
        0xFFFF
    }

    fn write_mask(&self) -> (r: u16) {
        0xFFFF
    }
}

/// BLDALPHA: the weights of the first and second targets.
#[derive(Debug, Copy, Clone, PartialEq, Eq, Structural)]
pub struct AlphaBlendingCoefficients {
    bits: u16,
}

impl View for AlphaBlendingCoefficients {
    type V = u16;

    closed spec fn view(&self) -> u16 {
        self.bits
    }
}

impl AlphaBlendingCoefficients {
    pub fn from_bits(bits: u16) -> (r: Self)
        ensures
            r@ == bits,
    {
        AlphaBlendingCoefficients { bits: bits }
    }

    pub fn into_bits(self) -> (r: u16)
        ensures
            r == self@,
    {
        self.bits
    }

    /// The bits the register holds after `bits` are written to it: fields
    /// reserved by the hardware keep their value.
    pub open spec fn spec_merged(current: u16, bits: u16) -> u16 {
        bits
    }

    pub open spec fn spec_write_bits(self, bits: u16) -> u16 {
        Self::spec_merged(self@, bits)
    }

    pub fn write_bits(&mut self, bits: u16)
        ensures
            final(self)@ == old(self).spec_write_bits(bits),
    {
        self.bits = bits;
    }

    pub open spec fn spec_eva_coefficient(self) -> u8 {
        field16(self@, 0, 5) as u8
    }

    pub fn eva_coefficient(&self) -> (r: u8)
        ensures
            r == self.spec_eva_coefficient(),
            r <= 31,
    {
        proof {
            lemma_field16_bound(self.bits, 0, 5);
        }
        get16(self.bits, 0, 5) as u8
    }

    pub open spec fn spec_evb_coefficient(self) -> u8 {
        field16(self@, 8, 5) as u8
    }

    pub fn evb_coefficient(&self) -> (r: u8)
        ensures
            r == self.spec_evb_coefficient(),
            r <= 31,
    {
        proof {
            lemma_field16_bound(self.bits, 8, 5);
        }
        get16(self.bits, 8, 5) as u8
    }

}

impl RegisterOps<u16> for AlphaBlendingCoefficients {
    open spec fn spec_register(&self) -> u16 {
        self@
    }

    open spec fn spec_written(&self, bits: u16) -> u16 {
        self.spec_write_bits(bits)
    }

    open spec fn spec_read_mask(&self) -> u16 {
        0xFFFF
    }

    open spec fn spec_write_mask(&self) -> u16 {
        0xFFFF
    }

    fn register(&self) -> (r: u16) {
        self.bits
    }

    fn write_register(&mut self, bits: u16) {
        self.write_bits(bits);
    }

    fn read_mask(&self) -> (r: u16) {
        0xFFFF
    }

    fn write_mask(&self) -> (r: u16) {
        0xFFFF
    }
}

/// BLDY: the weight of a brightness change.
#[derive(Debug, Copy, Clone, PartialEq, Eq, Structural)]
pub struct BrightnessCoefficient {
    bits: u32,
}

impl View for BrightnessCoefficient {
    type V = u32;

    closed spec fn view(&self) -> u32 {
        self.bits
    }
}

impl BrightnessCoefficient {
    pub fn from_bits(bits: u32) -> (r: Self)
        ensures
            r@ == bits,
    {
        BrightnessCoefficient { bits: bits }
    }

    pub fn into_bits(self) -> (r: u32)
        ensures
            r == self@,
    {
        self.bits
    }

    /// The bits the register holds after `bits` are written to it: fields
    /// reserved by the hardware keep their value.
    pub open spec fn spec_merged(current: u32, bits: u32) -> u32 {
        bits
    }

    pub open spec fn spec_write_bits(self, bits: u32) -> u32 {
        Self::spec_merged(self@, bits)
    }

    pub fn write_bits(&mut self, bits: u32)
        ensures
            final(self)@ == old(self).spec_write_bits(bits),
    {
        self.bits = bits;
    }

    pub open spec fn spec_evy_coefficient(self) -> u8 {
        field32(self@, 0, 5) as u8
    }

    pub fn evy_coefficient(&self) -> (r: u8)
        ensures
            r == self.spec_evy_coefficient(),
            r <= 31,
    {
        proof {
            lemma_field32_bound(self.bits, 0, 5);
        }
        get32(self.bits, 0, 5) as u8
    }

}

impl RegisterOps<u32> for BrightnessCoefficient {
    open spec fn spec_register(&self) -> u32 {
        self@
    }

    open spec fn spec_written(&self, bits: u32) -> u32 {
        self.spec_write_bits(bits)
    }

    open spec fn spec_read_mask(&self) -> u32 {
        0xFFFF_FFFF
    }

    open spec fn spec_write_mask(&self) -> u32 {
        0xFFFF_FFFF
    }

    fn register(&self) -> (r: u32) {
        self.bits
    }

    fn write_register(&mut self, bits: u32) {
        self.write_bits(bits);
    }

    fn read_mask(&self) -> (r: u32) {
        0xFFFF_FFFF
    }

    fn write_mask(&self) -> (r: u32) {
        0xFFFF_FFFF
    }
}

} // verus!
