use crate::common::register_ops::RegisterOps;
use crate::gba::bitfield::{field16, field32, get16, get32, set16, set32, with_field16, with_field32, lemma_field16_bound, lemma_field32_bound};
use vstd::prelude::*;

verus! {

/// SOUNDCNT_L: PSG channel volumes and left/right enables.
#[derive(Copy, Clone, PartialEq, Eq, Structural)]
pub struct PsgSoundControl {
    bits: u16,
}

impl View for PsgSoundControl {
    type V = u16;

    closed spec fn view(&self) -> u16 {
        self.bits
    }
}

impl PsgSoundControl {
    pub fn from_bits(bits: u16) -> (r: Self)
        ensures
            r@ == bits,
    {
        PsgSoundControl { bits: bits }
    }

    pub fn into_bits(self) -> (r: u16)
        ensures
            r == self@,
    {
        self.bits
    }

    /// The bits the register holds after `bits` are written to it: fields
    /// reserved by the hardware keep their value.
    pub open spec fn spec_write_bits(self, bits: u16) -> u16 {
        (self@ & 0x0088) | (bits & !0x0088)
    }

    pub fn write_bits(&mut self, bits: u16)
        ensures
            final(self)@ == old(self).spec_write_bits(bits),
    {
        self.bits = (self.bits & 0x0088) | (bits & !0x0088);
    }

}

impl RegisterOps<u16> for PsgSoundControl {
    open spec fn spec_register(&self) -> u16 {
        self@
    }

    open spec fn spec_written(&self, bits: u16) -> u16 {
        self.spec_write_bits(bits)
    }

    open spec fn spec_read_mask(&self) -> u16 {
        0xFFFF
    }

    open spec fn spec_write_mask(&self) -> u16 {
        0xFFFF
    }

    fn register(&self) -> (r: u16) {
        self.bits
    }

    fn write_register(&mut self, bits: u16) {
        self.write_bits(bits);
    }

    fn read_mask(&self) -> (r: u16) {
        0xFFFF
    }

    fn write_mask(&self) -> (r: u16) {
        0xFFFF
    }
}

#[derive(Debug, Copy, Clone, PartialEq, Eq, Structural)]
pub enum PsgVolumeRatio {
    Ratio25,
    Ratio50,
    Ratio100,
    Prohibited,
}

impl PsgVolumeRatio {
    pub open spec fn spec_from_bits(bits: u8) -> Self {
        if bits == 1 {
            PsgVolumeRatio::Ratio50
        } else if bits == 2 {
            PsgVolumeRatio::Ratio100
        } else if bits == 3 {
            PsgVolumeRatio::Prohibited
        } else {
            PsgVolumeRatio::Ratio25
        }
    }

    pub open spec fn spec_into_bits(self) -> u8 {
        match self {
            PsgVolumeRatio::Ratio25 => 0,
            PsgVolumeRatio::Ratio50 => 1,
            PsgVolumeRatio::Ratio100 => 2,
            PsgVolumeRatio::Prohibited => 3,
        }
    }

    pub fn from_bits(bits: u8) -> (r: Self)
        ensures
            r == Self::spec_from_bits(bits),
    {
        match bits {
            1 => PsgVolumeRatio::Ratio50,
            2 => PsgVolumeRatio::Ratio100,
            3 => PsgVolumeRatio::Prohibited,
            _ => PsgVolumeRatio::Ratio25,
        }
    }

    pub fn into_bits(self) -> (r: u8)
        ensures
            r == self.spec_into_bits(),
    {
        match self {
            PsgVolumeRatio::Ratio25 => 0,
            PsgVolumeRatio::Ratio50 => 1,
            PsgVolumeRatio::Ratio100 => 2,
            PsgVolumeRatio::Prohibited => 3,
        }
    }
}

#[derive(Debug, Copy, Clone, PartialEq, Eq, Structural)]
pub enum DmaVolumeRatio {
    Ratio50,
    Ratio100,
}

impl DmaVolumeRatio {
    pub open spec fn spec_from_bits(bits: u8) -> Self {
        if bits == 1 {
            DmaVolumeRatio::Ratio100
        } else {
            DmaVolumeRatio::Ratio50
        }
    }

    pub open spec fn spec_into_bits(self) -> u8 {
        match self {
            DmaVolumeRatio::Ratio50 => 0,
            DmaVolumeRatio::Ratio100 => 1,
        }
    }

    pub fn from_bits(bits: u8) -> (r: Self)
        ensures
            r == Self::spec_from_bits(bits),
    {
        match bits {
            1 => DmaVolumeRatio::Ratio100,
            _ => DmaVolumeRatio::Ratio50,
        }
    }

    pub fn into_bits(self) -> (r: u8)
        ensures
            r == self.spec_into_bits(),
    {
        match self {
            DmaVolumeRatio::Ratio50 => 0,
            DmaVolumeRatio::Ratio100 => 1,
        }
    }
}

/// SOUNDCNT_H: DMA sound control and PSG/DMA mixing ratios.
#[derive(Copy, Clone, PartialEq, Eq, Structural)]
pub struct DmaSoundControl {
    bits: u16,
}

impl View for DmaSoundControl {
    type V = u16;

    closed spec fn view(&self) -> u16 {
        self.bits
    }
}

impl DmaSoundControl {
    pub fn from_bits(bits: u16) -> (r: Self)
        ensures
            r@ == bits,
    {
        DmaSoundControl { bits: bits }
    }

    pub fn into_bits(self) -> (r: u16)
        ensures
            r == self@,
    {
        self.bits
    }

    /// The bits the register holds after `bits` are written to it: fields
    /// reserved by the hardware keep their value.
    pub open spec fn spec_write_bits(self, bits: u16) -> u16 {
        (self@ & 0x00F0) | (bits & !0x00F0)
    }

    pub fn write_bits(&mut self, bits: u16)
        ensures
            final(self)@ == old(self).spec_write_bits(bits),
    {
        self.bits = (self.bits & 0x00F0) | (bits & !0x00F0);
    }

    pub open spec fn spec_psg_volume_ratio(self) -> PsgVolumeRatio {
        PsgVolumeRatio::spec_from_bits(field16(self@, 0, 2) as u8)
    }

    pub fn psg_volume_ratio(&self) -> (r: PsgVolumeRatio)
        ensures
            r == self.spec_psg_volume_ratio(),
    {
        proof {
            lemma_field16_bound(self.bits, 0, 2);
        }
        PsgVolumeRatio::from_bits(get16(self.bits, 0, 2) as u8)
    }

    pub open spec fn spec_dma_a_right_enable(self) -> bool {
        field16(self@, 8, 1) == 1
    }

    pub fn dma_a_right_enable(&self) -> (r: bool)
        ensures
            r == self.spec_dma_a_right_enable(),
    {
        get16(self.bits, 8, 1) == 1
    }

    pub open spec fn spec_dma_a_left_enable(self) -> bool {
        field16(self@, 9, 1) == 1
    }

    pub fn dma_a_left_enable(&self) -> (r: bool)
        ensures
            r == self.spec_dma_a_left_enable(),
    {
        get16(self.bits, 9, 1) == 1
    }

    pub open spec fn spec_dma_a_timer_select(self) -> bool {
        field16(self@, 10, 1) == 1
    }

    pub fn dma_a_timer_select(&self) -> (r: bool)
        ensures
            r == self.spec_dma_a_timer_select(),
    {
        get16(self.bits, 10, 1) == 1
    }

    pub open spec fn spec_dma_b_right_enable(self) -> bool {
        field16(self@, 12, 1) == 1
    }

    pub fn dma_b_right_enable(&self) -> (r: bool)
        ensures
            r == self.spec_dma_b_right_enable(),
    {
        get16(self.bits, 12, 1) == 1
    }

    pub open spec fn spec_dma_b_left_enable(self) -> bool {
        field16(self@, 13, 1) == 1
    }

    pub fn dma_b_left_enable(&self) -> (r: bool)
        ensures
            r == self.spec_dma_b_left_enable(),
    {
        get16(self.bits, 13, 1) == 1
    }

    pub open spec fn spec_dma_b_timer_select(self) -> bool {
        field16(self@, 14, 1) == 1
    }

    pub fn dma_b_timer_select(&self) -> (r: bool)
        ensures
            r == self.spec_dma_b_timer_select(),
    {
        get16(self.bits, 14, 1) == 1
    }


    /// Whether DMA sound channel A takes its samples from timer `timer_id`
    /// and plays on at least one side.
    pub fn dma_a_active(&self, timer_id: usize) -> (r: bool)
        ensures
            r == ((if self.spec_dma_a_timer_select() { 1usize } else { 0usize }) == timer_id
                && (self.spec_dma_a_left_enable() || self.spec_dma_a_right_enable())),
    {
        (if self.dma_a_timer_select() { 1usize } else { 0usize }) == timer_id && (self.dma_a_left_enable()
            || self.dma_a_right_enable())
    }

    /// Whether DMA sound channel B takes its samples from timer `timer_id`
    /// and plays on at least one side.
    pub fn dma_b_active(&self, timer_id: usize) -> (r: bool)
        ensures
            r == ((if self.spec_dma_b_timer_select() { 1usize } else { 0usize }) == timer_id
                && (self.spec_dma_b_left_enable() || self.spec_dma_b_right_enable())),
    {
        (if self.dma_b_timer_select() { 1usize } else { 0usize }) == timer_id && (self.dma_b_left_enable()
            || self.dma_b_right_enable())
    }

}

impl RegisterOps<u16> for DmaSoundControl {
    open spec fn spec_register(&self) -> u16 {
        self@
    }

    open spec fn spec_written(&self, bits: u16) -> u16 {
        self.spec_write_bits(bits)
    }

    open spec fn spec_read_mask(&self) -> u16 {
        0x77FF
    }

    open spec fn spec_write_mask(&self) -> u16 {
        0xFFFF
    }

    fn register(&self) -> (r: u16) {
        self.bits
    }

    fn write_register(&mut self, bits: u16) {
        self.write_bits(bits);
    }

    fn read_mask(&self) -> (r: u16) {
        0x77FF
    }

    fn write_mask(&self) -> (r: u16) {
        0xFFFF
    }
}

/// SOUNDCNT_X: master enable and the channels' on flags (read-only).
#[derive(Copy, Clone, PartialEq, Eq, Structural)]
pub struct SoundStatus {
    bits: u32,
}

impl View for SoundStatus {
    type V = u32;

    closed spec fn view(&self) -> u32 {
        self.bits
    }
}

impl SoundStatus {
    pub fn from_bits(bits: u32) -> (r: Self)
        ensures
            r@ == bits,
    {
        SoundStatus { bits: bits }
    }

    pub fn into_bits(self) -> (r: u32)
        ensures
            r == self@,
    {
        self.bits
    }

    /// The bits the register holds after `bits` are written to it: fields
    /// reserved by the hardware keep their value.
    pub open spec fn spec_write_bits(self, bits: u32) -> u32 {
        (self@ & 0xFFFF_FF70) | (bits & !0xFFFF_FF70)
    }

    pub fn write_bits(&mut self, bits: u32)
        ensures
            final(self)@ == old(self).spec_write_bits(bits),
    {
        self.bits = (self.bits & 0xFFFF_FF70) | (bits & !0xFFFF_FF70);
    }

    pub open spec fn spec_master_enable(self) -> bool {
        field32(self@, 7, 1) == 1
    }

    pub fn master_enable(&self) -> (r: bool)
        ensures
            r == self.spec_master_enable(),
    {
        get32(self.bits, 7, 1) == 1
    }

    pub fn set_ch1_on(&mut self, value: bool)
        ensures
            final(self)@ == with_field32(old(self)@, 0, 1, if value { 1 } else { 0 }),
    {
        self.bits = set32(self.bits, 0, 1, if value { 1 } else { 0 });
    }

    pub fn set_ch2_on(&mut self, value: bool)
        ensures
            final(self)@ == with_field32(old(self)@, 1, 1, if value { 1 } else { 0 }),
    {
        self.bits = set32(self.bits, 1, 1, if value { 1 } else { 0 });
    }

    pub fn set_ch3_on(&mut self, value: bool)
        ensures
            final(self)@ == with_field32(old(self)@, 2, 1, if value { 1 } else { 0 }),
    {
        self.bits = set32(self.bits, 2, 1, if value { 1 } else { 0 });
    }

    pub fn set_ch4_on(&mut self, value: bool)
        ensures
            final(self)@ == with_field32(old(self)@, 3, 1, if value { 1 } else { 0 }),
    {
        self.bits = set32(self.bits, 3, 1, if value { 1 } else { 0 });
    }

}

impl RegisterOps<u32> for SoundStatus {
    open spec fn spec_register(&self) -> u32 {
        self@
    }

    open spec fn spec_written(&self, bits: u32) -> u32 {
        self.spec_write_bits(bits)
    }

    open spec fn spec_read_mask(&self) -> u32 {
        0xFFFF_FFFF
    }

    open spec fn spec_write_mask(&self) -> u32 {
        0xFFFF_FFF0
    }

    fn register(&self) -> (r: u32) {
        self.bits
    }

    fn write_register(&mut self, bits: u32) {
        self.write_bits(bits);
    }

    fn read_mask(&self) -> (r: u32) {
        0xFFFF_FFFF
    }

    fn write_mask(&self) -> (r: u32) {
        0xFFFF_FFF0
    }
}

#[derive(Debug, Copy, Clone, PartialEq, Eq, Structural)]
pub enum AmplitudeResolution {
    Nine,
    Eight,
    Seven,
    Six,
}

impl AmplitudeResolution {
    pub open spec fn spec_from_bits(bits: u8) -> Self {
        if bits == 1 {
            AmplitudeResolution::Eight
        } else if bits == 2 {
            AmplitudeResolution::Seven
        } else if bits == 3 {
            AmplitudeResolution::Six
        } else {
            AmplitudeResolution::Nine
        }
    }

    pub open spec fn spec_into_bits(self) -> u8 {
        match self {
            AmplitudeResolution::Nine => 0,
            AmplitudeResolution::Eight => 1,
            AmplitudeResolution::Seven => 2,
            AmplitudeResolution::Six => 3,
        }
    }

    pub fn from_bits(bits: u8) -> (r: Self)
        ensures
            r == Self::spec_from_bits(bits),
    {
        match bits {
            1 => AmplitudeResolution::Eight,
            2 => AmplitudeResolution::Seven,
            3 => AmplitudeResolution::Six,
            _ => AmplitudeResolution::Nine,
        }
    }

    pub fn into_bits(self) -> (r: u8)
        ensures
            r == self.spec_into_bits(),
    {
        match self {
            AmplitudeResolution::Nine => 0,
            AmplitudeResolution::Eight => 1,
            AmplitudeResolution::Seven => 2,
            AmplitudeResolution::Six => 3,
        }
    }

    /// The output sampling rate, in Hz, of an amplitude resolution.
    pub fn sampling_frequency(&self) -> (r: usize)
        ensures
            r == match *self {
                AmplitudeResolution::Nine => 32768usize,
                AmplitudeResolution::Eight => 65536,
                AmplitudeResolution::Seven => 131072,
                AmplitudeResolution::Six => 262144,
            },
    {
        match self {
            AmplitudeResolution::Nine => 32768,
            AmplitudeResolution::Eight => 65536,
            AmplitudeResolution::Seven => 131072,
            AmplitudeResolution::Six => 262144,
        }
    }

}

/// SOUNDBIAS: output bias level and amplitude resolution.
#[derive(PartialEq, Eq, Structural)]
pub struct SoundBias {
    bits: u32,
}

impl View for SoundBias {
    type V = u32;

    closed spec fn view(&self) -> u32 {
        self.bits
    }
}

impl SoundBias {
    pub fn from_bits(bits: u32) -> (r: Self)
        ensures
            r@ == bits,
    {
        SoundBias { bits: bits }
    }

    pub fn into_bits(self) -> (r: u32)
        ensures
            r == self@,
    {
        self.bits
    }

    /// The bits the register holds after `bits` are written to it: fields
    /// reserved by the hardware keep their value.
    pub open spec fn spec_write_bits(self, bits: u32) -> u32 {
        (self@ & 0xFFFF_3C01) | (bits & !0xFFFF_3C01)
    }

    pub fn write_bits(&mut self, bits: u32)
        ensures
            final(self)@ == old(self).spec_write_bits(bits),
    {
        self.bits = (self.bits & 0xFFFF_3C01) | (bits & !0xFFFF_3C01);
    }

    pub open spec fn spec_bias_level(self) -> u16 {
        field32(self@, 1, 9) as u16
    }

    pub fn bias_level(&self) -> (r: u16)
        ensures
            r == self.spec_bias_level(),
    {
        proof {
            lemma_field32_bound(self.bits, 1, 9);
        }
        get32(self.bits, 1, 9) as u16
    }

    pub open spec fn spec_amplitude_resolution(self) -> AmplitudeResolution {
        AmplitudeResolution::spec_from_bits(field32(self@, 14, 2) as u8)
    }

    pub fn amplitude_resolution(&self) -> (r: AmplitudeResolution)
        ensures
            r == self.spec_amplitude_resolution(),
    {
        proof {
            lemma_field32_bound(self.bits, 14, 2);
        }
        AmplitudeResolution::from_bits(get32(self.bits, 14, 2) as u8)
    }

}

impl RegisterOps<u32> for SoundBias {
    open spec fn spec_register(&self) -> u32 {
        self@
    }

    open spec fn spec_written(&self, bits: u32) -> u32 {
        self.spec_write_bits(bits)
    }

    open spec fn spec_read_mask(&self) -> u32 {
        0xFFFF_FFFF
    }

    open spec fn spec_write_mask(&self) -> u32 {
        0xFFFF_FFFF
    }

    fn register(&self) -> (r: u32) {
        self.bits
    }

    fn write_register(&mut self, bits: u32) {
        self.write_bits(bits);
    }

    fn read_mask(&self) -> (r: u32) {
        0xFFFF_FFFF
    }

    fn write_mask(&self) -> (r: u32) {
        0xFFFF_FFFF
    }
}

} // verus!
