use crate::common::memory::SystemMemoryAccess;
use crate::common::register_ops::{RegisterOps, RegisterWord};
use crate::gba::bitfield::{field32, get32, lemma_field32_bound};
use vstd::prelude::*;

verus! {

/// MOSAIC: the mosaic block sizes, each minus one.
#[derive(Debug, Copy, Clone, PartialEq, Eq, Structural)]
pub struct MosaicSize {
    bits: u32,
}

impl View for MosaicSize {
    type V = u32;

    closed spec fn view(&self) -> u32 {
        self.bits
    }
}

impl MosaicSize {
    pub fn from_bits(bits: u32) -> (r: Self)
        ensures
            r@ == bits,
    {
        MosaicSize { bits: bits }
    }

    pub fn into_bits(self) -> (r: u32)
        ensures
            r == self@,
    {
        self.bits
    }

    /// The bits the register holds after `bits` are written to it: fields
    /// reserved by the hardware keep their value.
    pub open spec fn spec_merged(current: u32, bits: u32) -> u32 {
        (current & 0xFFFF_0000) | (bits & !0xFFFF_0000)
    }

    pub open spec fn spec_write_bits(self, bits: u32) -> u32 {
        Self::spec_merged(self@, bits)
    }

    pub fn write_bits(&mut self, bits: u32)
        ensures
            final(self)@ == old(self).spec_write_bits(bits),
    {
        self.bits = (self.bits & 0xFFFF_0000) | (bits & !0xFFFF_0000);
    }

    pub open spec fn spec_bg_mosaic_h(self) -> u8 {
        field32(self@, 0, 4) as u8
    }

    pub fn bg_mosaic_h(&self) -> (r: u8)
        ensures
            r == self.spec_bg_mosaic_h(),
            r <= 15,
    {
        proof {
            lemma_field32_bound(self.bits, 0, 4);
        }
        get32(self.bits, 0, 4) as u8
    }

    pub open spec fn spec_bg_mosaic_v(self) -> u8 {
        field32(self@, 4, 4) as u8
    }

    pub fn bg_mosaic_v(&self) -> (r: u8)
        ensures
            r == self.spec_bg_mosaic_v(),
            r <= 15,
    {
        proof {
            lemma_field32_bound(self.bits, 4, 4);
        }
        get32(self.bits, 4, 4) as u8
    }

    pub open spec fn spec_obj_mosaic_h(self) -> u8 {
        field32(self@, 8, 4) as u8
    }

    pub fn obj_mosaic_h(&self) -> (r: u8)
        ensures
            r == self.spec_obj_mosaic_h(),
            r <= 15,
    {
        proof {
            lemma_field32_bound(self.bits, 8, 4);
        }
        get32(self.bits, 8, 4) as u8
    }

    pub open spec fn spec_obj_mosaic_v(self) -> u8 {
        field32(self@, 12, 4) as u8
    }

    pub fn obj_mosaic_v(&self) -> (r: u8)
        ensures
            r == self.spec_obj_mosaic_v(),
            r <= 15,
    {
        proof {
            lemma_field32_bound(self.bits, 12, 4);
        }
        get32(self.bits, 12, 4) as u8
    }

}

impl RegisterOps<u32> for MosaicSize {
    open spec fn spec_register(&self) -> u32 {
        self@
    }

    open spec fn spec_written(&self, bits: u32) -> u32 {
        self.spec_write_bits(bits)
    }

    open spec fn spec_read_mask(&self) -> u32 {
        0xFFFF_FFFF
    }

    open spec fn spec_write_mask(&self) -> u32 {
        0xFFFF_FFFF
    }

    fn register(&self) -> (r: u32) {
        self.bits
    }

    fn write_register(&mut self, bits: u32) {
        self.write_bits(bits);
    }

    fn read_mask(&self) -> (r: u32) {
        0xFFFF_FFFF
    }

    fn write_mask(&self) -> (r: u32) {
        0xFFFF_FFFF
    }
}

/// The mosaic state: MOSAIC, and the line each mosaic block of backgrounds
/// and of objects takes its pixels from.
#[derive(Copy, Clone)]
pub struct Mosaic {
    size: MosaicSize,
    bg_source_y: u8,
    obj_source_y: u8,
}

pub struct MosaicState {
    pub size: u32,
    pub bg_source_y: u8,
    pub obj_source_y: u8,
}

impl View for Mosaic {
    type V = MosaicState;

    closed spec fn view(&self) -> MosaicState {
        MosaicState { size: self.size@, bg_source_y: self.bg_source_y, obj_source_y: self.obj_source_y }
    }
}

/// The source line on line `v_count`: line 0 starts every block; a line
/// that is a multiple of the block height starts a new block; other lines
/// keep the block's source line.
pub open spec fn spec_source_y(source_y: u8, v_count: u8, size_minus_one: u8) -> u8 {
    if v_count == 0 {
        0
    } else if v_count % ((size_minus_one + 1) as u8) == 0 {
        v_count
    } else {
        source_y
    }
}

impl Mosaic {
    pub fn new() -> (r: Self)
        ensures
            r@ == (MosaicState { size: 0, bg_source_y: 0, obj_source_y: 0 }),
    {
        Self { size: MosaicSize::from_bits(0), bg_source_y: 0, obj_source_y: 0 }
    }

    pub fn size(&self) -> (r: MosaicSize)
        ensures
            r@ == self@.size,
    {
        self.size
    }

    pub fn bg_source_y(&self) -> (r: u8)
        ensures
            r == self@.bg_source_y,
    {
        self.bg_source_y
    }

    pub fn obj_source_y(&self) -> (r: u8)
        ensures
            r == self@.obj_source_y,
    {
        self.obj_source_y
    }

    /// Moves the source lines to line `v_count`. A block keeps its source
    /// line until the next block boundary, even if the block height changed.
    pub fn update_sources(&mut self, v_count: u8)
        ensures
            final(self)@.size == old(self)@.size,
            final(self)@.bg_source_y == spec_source_y(old(self)@.bg_source_y, v_count, field32(old(self)@.size, 4, 4) as u8),
            final(self)@.obj_source_y == spec_source_y(old(self)@.obj_source_y, v_count, field32(old(self)@.size, 12, 4) as u8),
    {
        if v_count == 0 {
            self.bg_source_y = 0;
            self.obj_source_y = 0;
            return;
        }

        let bg_v_size = self.size.bg_mosaic_v() + 1;
        let bg_mosaic_block_start = v_count % bg_v_size == 0;
        if bg_mosaic_block_start {
            self.bg_source_y = v_count;
        }

        let obj_v_size = self.size.obj_mosaic_v() + 1;
        let obj_mosaic_block_start = v_count % obj_v_size == 0;
        if obj_mosaic_block_start {
            self.obj_source_y = v_count;
        }
    }
}

impl SystemMemoryAccess for Mosaic {
    open spec fn spec_readable(m: MosaicState, address: u32) -> bool {
        true
    }

    /// Only MOSAIC, 0x0400004C..=0x0400004F, can be written.
    open spec fn spec_writable(m: MosaicState, address: u32, value: u8) -> bool {
        0x0400004C <= address <= 0x0400004F
    }

    /// MOSAIC is write-only: it reads as 0.
    open spec fn spec_read_8(m: MosaicState, address: u32) -> u8 {
        0
    }

    open spec fn spec_write_8(m: MosaicState, address: u32, value: u8) -> MosaicState {
        MosaicState {
            size: MosaicSize::spec_merged(m.size, u32::spec_merge_byte(m.size, 0xFFFF_FFFF, address, value)),
            ..m
        }
    }

    fn read_8(&self, address: u32) -> (r: u8) {
        0
    }

    fn write_8(&mut self, address: u32, value: u8) {
        self.size.write_byte(address, value);
    }
}

} // verus!
