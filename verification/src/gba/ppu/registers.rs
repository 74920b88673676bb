use crate::common::register_ops::{RegisterOps, RegisterWord};
use crate::gba::bitfield::{field16, field32, get16, get32, lemma_field16_bound, lemma_field32_bound};
use crate::gba::ppu::color::ColorMode;
use vstd::prelude::*;

verus! {

/// Side of a screen block, in screen entries.
pub const SB_SIDE: u16 = 32;

/// Screen entries in a screen block.
pub const SB_ENTRIES: u16 = 1024;

pub open spec fn spec_text_map_pixel_size(size: ScreenSize) -> (u16, u16) {
    match size {
        ScreenSize::Size0 => (256, 256),
        ScreenSize::Size1 => (512, 256),
        ScreenSize::Size2 => (256, 512),
        ScreenSize::Size3 => (512, 512),
    }
}

pub open spec fn spec_affine_map_pixel_size(size: ScreenSize) -> u16 {
    match size {
        ScreenSize::Size0 => 128,
        ScreenSize::Size1 => 256,
        ScreenSize::Size2 => 512,
        ScreenSize::Size3 => 1024,
    }
}

pub open spec fn spec_text_screen_entry_index(size: ScreenSize, x: int, y: int) -> int {
    let columns = match size {
        ScreenSize::Size1 | ScreenSize::Size3 => 2int,
        _ => 1int,
    };
    ((y / 32) * columns + x / 32) * 1024 + (y % 32) * 32 + x % 32
}

/// A character base block: which 16 KiB of VRAM holds a background's tiles.
#[derive(Copy, Clone, Debug, PartialEq, Eq, Structural)]
pub struct CharacterBaseBlock(pub u8);

impl CharacterBaseBlock {
    pub open spec fn spec_from_bits(bits: u8) -> Self {
        CharacterBaseBlock(bits & 0b11)
    }

    pub open spec fn spec_into_bits(self) -> u8 {
        self.0
    }

    pub fn from_bits(bits: u8) -> (r: Self)
        ensures
            r == Self::spec_from_bits(bits),
    {
        Self(bits & 0b11)
    }

    pub fn into_bits(self) -> (r: u8)
        ensures
            r == self.spec_into_bits(),
    {
        self.0
    }

    pub fn vram_offset(self) -> (r: usize)
        ensures
            r == self.0 * 0x4000,
    {
        self.0 as usize * 0x4000
    }
}

/// A screen base block: which 2 KiB of VRAM holds a background's map.
#[derive(Copy, Clone, Debug, PartialEq, Eq, Structural)]
pub struct ScreenBaseBlock(pub u8);

impl ScreenBaseBlock {
    pub open spec fn spec_from_bits(bits: u8) -> Self {
        ScreenBaseBlock(bits & 0x1F)
    }

    pub open spec fn spec_into_bits(self) -> u8 {
        self.0
    }

    pub fn from_bits(bits: u8) -> (r: Self)
        ensures
            r == Self::spec_from_bits(bits),
    {
        Self(bits & 0x1F)
    }

    pub fn into_bits(self) -> (r: u8)
        ensures
            r == self.spec_into_bits(),
    {
        self.0
    }

    pub fn vram_offset(self) -> (r: usize)
        ensures
            r == self.0 * 0x800,
    {
        self.0 as usize * 0x800
    }
}

/// A character base block is one of four, a screen base block one of 32.
pub proof fn lemma_base_block_bounds(bits: u8)
    ensures
        CharacterBaseBlock::spec_from_bits(bits).0 <= 3,
        ScreenBaseBlock::spec_from_bits(bits).0 <= 0x1F,
{
    assert(bits & 0b11 <= 3 && bits & 0x1F <= 0x1F) by (bit_vector);
}

/// A background map's size.
#[derive(Debug, Copy, Clone, PartialEq, Eq, Structural)]
pub enum ScreenSize {
    Size0,
    Size1,
    Size2,
    Size3,
}

impl ScreenSize {
    pub open spec fn spec_from_bits(bits: u8) -> Self {
        if bits == 0 {
            ScreenSize::Size0
        } else if bits == 1 {
            ScreenSize::Size1
        } else if bits == 2 {
            ScreenSize::Size2
        } else if bits == 3 {
            ScreenSize::Size3
        } else {
            ScreenSize::Size3
        }
    }

    pub open spec fn spec_into_bits(self) -> u8 {
        match self {
            ScreenSize::Size0 => 0,
            ScreenSize::Size1 => 1,
            ScreenSize::Size2 => 2,
            ScreenSize::Size3 => 3,
        }
    }

    pub fn from_bits(bits: u8) -> (r: Self)
        requires
            bits <= 3,
        ensures
            r == Self::spec_from_bits(bits),
    {
        match bits {
            0 => ScreenSize::Size0,
            1 => ScreenSize::Size1,
            2 => ScreenSize::Size2,
            _ => ScreenSize::Size3,
        }
    }

    pub fn into_bits(self) -> (r: u8)
        ensures
            r == self.spec_into_bits(),
    {
        match self {
            ScreenSize::Size0 => 0,
            ScreenSize::Size1 => 1,
            ScreenSize::Size2 => 2,
            ScreenSize::Size3 => 3,
        }
    }

    /// Width and height of a text background map, in pixels.
    pub fn text_map_pixel_size(self) -> (r: (u16, u16))
        ensures
            r == spec_text_map_pixel_size(self),
    {
        match self {
            ScreenSize::Size0 => (256, 256),
            ScreenSize::Size1 => (512, 256),
            ScreenSize::Size2 => (256, 512),
            ScreenSize::Size3 => (512, 512),
        }
    }

    /// Side of an affine background map (always square), in pixels.
    pub fn affine_map_pixel_size(self) -> (r: u16)
        ensures
            r == spec_affine_map_pixel_size(self),
    {
        match self {
            ScreenSize::Size0 => 128,
            ScreenSize::Size1 => 256,
            ScreenSize::Size2 => 512,
            ScreenSize::Size3 => 1024,
        }
    }

    /// The index of the screen entry of map tile (`map_tile_x`,
    /// `map_tile_y`) in a text map: screen blocks of 32x32 entries, one or
    /// two blocks wide.
    pub fn text_screen_entry_index(self, map_tile_x: u16, map_tile_y: u16) -> (r: u16)
        requires
            spec_text_screen_entry_index(self, map_tile_x as int, map_tile_y as int) <= u16::MAX,
        ensures
            r == spec_text_screen_entry_index(self, map_tile_x as int, map_tile_y as int),
    {
        let screen_block_columns: u16 = match self {
            ScreenSize::Size0 => 1,
            ScreenSize::Size1 => 2,
            ScreenSize::Size2 => 1,
            ScreenSize::Size3 => 2,
        };
        let screen_block_index = (map_tile_y / SB_SIDE) * screen_block_columns + (map_tile_x / SB_SIDE);
        screen_block_index * SB_ENTRIES + (map_tile_y % SB_SIDE) * SB_SIDE + (map_tile_x % SB_SIDE)
    }

    /// The index of the screen entry of map tile (`map_tile_x`,
    /// `map_tile_y`) in an affine map: a row-major byte per tile.
    pub fn affine_screen_entry_index(self, map_tile_x: u16, map_tile_y: u16) -> (r: u16)
        requires
            map_tile_y * spec_affine_map_pixel_size(self) <= u16::MAX,
            map_tile_y * spec_affine_map_pixel_size(self) / 8 + map_tile_x <= u16::MAX,
        ensures
            r == map_tile_y * spec_affine_map_pixel_size(self) / 8 + map_tile_x,
    {
        map_tile_y * self.affine_map_pixel_size() / 8 + map_tile_x
    }

}

/// What an affine background shows outside its map.
#[derive(Debug, Copy, Clone, PartialEq, Eq, Structural)]
pub enum DisplayAreaOverflow {
    Transparent,
    Wraparound,
}

impl DisplayAreaOverflow {
    pub open spec fn spec_from_bits(bits: u8) -> Self {
        if bits == 0 {
            DisplayAreaOverflow::Transparent
        } else if bits == 1 {
            DisplayAreaOverflow::Wraparound
        } else {
            DisplayAreaOverflow::Wraparound
        }
    }

    pub open spec fn spec_into_bits(self) -> u8 {
        match self {
            DisplayAreaOverflow::Transparent => 0,
            DisplayAreaOverflow::Wraparound => 1,
        }
    }

    pub fn from_bits(bits: u8) -> (r: Self)
        requires
            bits <= 1,
        ensures
            r == Self::spec_from_bits(bits),
    {
        match bits {
            0 => DisplayAreaOverflow::Transparent,
            _ => DisplayAreaOverflow::Wraparound,
        }
    }

    pub fn into_bits(self) -> (r: u8)
        ensures
            r == self.spec_into_bits(),
    {
        match self {
            DisplayAreaOverflow::Transparent => 0,
            DisplayAreaOverflow::Wraparound => 1,
        }
    }
}

/// BGxCNT: a background's control register.
#[derive(Debug, Copy, Clone, PartialEq, Eq, Structural)]
pub struct BgControl {
    bits: u16,
}

impl View for BgControl {
    type V = u16;

    closed spec fn view(&self) -> u16 {
        self.bits
    }
}

impl BgControl {
    pub fn from_bits(bits: u16) -> (r: Self)
        ensures
            r@ == bits,
    {
        BgControl { bits: bits }
    }

    pub fn into_bits(self) -> (r: u16)
        ensures
            r == self@,
    {
        self.bits
    }

    /// The bits the register holds after `bits` are written to it: fields
    /// reserved by the hardware keep their value.
    pub open spec fn spec_merged(current: u16, bits: u16) -> u16 {
        (current & 0x0030) | (bits & !0x0030)
    }

    pub open spec fn spec_write_bits(self, bits: u16) -> u16 {
        Self::spec_merged(self@, bits)
    }

    pub fn write_bits(&mut self, bits: u16)
        ensures
            final(self)@ == old(self).spec_write_bits(bits),
    {
        self.bits = (self.bits & 0x0030) | (bits & !0x0030);
    }

    pub open spec fn spec_priority(self) -> u8 {
        field16(self@, 0, 2) as u8
    }

    pub fn priority(&self) -> (r: u8)
        ensures
            r == self.spec_priority(),
            r <= 3,
    {
        proof {
            lemma_field16_bound(self.bits, 0, 2);
        }
        get16(self.bits, 0, 2) as u8
    }

    pub open spec fn spec_character_base_block(self) -> CharacterBaseBlock {
        CharacterBaseBlock::spec_from_bits(field16(self@, 2, 2) as u8)
    }

    pub fn character_base_block(&self) -> (r: CharacterBaseBlock)
        ensures
            r == self.spec_character_base_block(),
    {
        proof {
            lemma_field16_bound(self.bits, 2, 2);
        }
        CharacterBaseBlock::from_bits(get16(self.bits, 2, 2) as u8)
    }

    pub open spec fn spec_mosaic(self) -> bool {
        field16(self@, 6, 1) == 1
    }

    pub fn mosaic(&self) -> (r: bool)
        ensures
            r == self.spec_mosaic(),
    {
        get16(self.bits, 6, 1) == 1
    }

    pub open spec fn spec_color_mode(self) -> ColorMode {
        ColorMode::spec_from_bits(field16(self@, 7, 1) as u8)
    }

    pub fn color_mode(&self) -> (r: ColorMode)
        ensures
            r == self.spec_color_mode(),
    {
        proof {
            lemma_field16_bound(self.bits, 7, 1);
        }
        ColorMode::from_bits(get16(self.bits, 7, 1) as u8)
    }

    pub open spec fn spec_screen_base_block(self) -> ScreenBaseBlock {
        ScreenBaseBlock::spec_from_bits(field16(self@, 8, 5) as u8)
    }

    pub fn screen_base_block(&self) -> (r: ScreenBaseBlock)
        ensures
            r == self.spec_screen_base_block(),
    {
        proof {
            lemma_field16_bound(self.bits, 8, 5);
        }
        ScreenBaseBlock::from_bits(get16(self.bits, 8, 5) as u8)
    }

    pub open spec fn spec_display_area_overflow(self) -> DisplayAreaOverflow {
        DisplayAreaOverflow::spec_from_bits(field16(self@, 13, 1) as u8)
    }

    pub fn display_area_overflow(&self) -> (r: DisplayAreaOverflow)
        ensures
            r == self.spec_display_area_overflow(),
    {
        proof {
            lemma_field16_bound(self.bits, 13, 1);
        }
        DisplayAreaOverflow::from_bits(get16(self.bits, 13, 1) as u8)
    }

    pub open spec fn spec_screen_size(self) -> ScreenSize {
        ScreenSize::spec_from_bits(field16(self@, 14, 2) as u8)
    }

    pub fn screen_size(&self) -> (r: ScreenSize)
        ensures
            r == self.spec_screen_size(),
    {
        proof {
            lemma_field16_bound(self.bits, 14, 2);
        }
        ScreenSize::from_bits(get16(self.bits, 14, 2) as u8)
    }

}

impl RegisterOps<u16> for BgControl {
    open spec fn spec_register(&self) -> u16 {
        self@
    }

    open spec fn spec_written(&self, bits: u16) -> u16 {
        self.spec_write_bits(bits)
    }

    open spec fn spec_read_mask(&self) -> u16 {
        0xFFFF
    }

    open spec fn spec_write_mask(&self) -> u16 {
        0xFFFF
    }

    fn register(&self) -> (r: u16) {
        self.bits
    }

    fn write_register(&mut self, bits: u16) {
        self.write_bits(bits);
    }

    fn read_mask(&self) -> (r: u16) {
        0xFFFF
    }

    fn write_mask(&self) -> (r: u16) {
        0xFFFF
    }
}

/// BGxHOFS / BGxVOFS: a text background's scroll.
#[derive(Debug, Copy, Clone, PartialEq, Eq, Structural)]
pub struct BgOffset {
    bits: u16,
}

impl View for BgOffset {
    type V = u16;

    closed spec fn view(&self) -> u16 {
        self.bits
    }
}

impl BgOffset {
    pub fn from_bits(bits: u16) -> (r: Self)
        ensures
            r@ == bits,
    {
        BgOffset { bits: bits }
    }

    pub fn into_bits(self) -> (r: u16)
        ensures
            r == self@,
    {
        self.bits
    }

    /// The bits the register holds after `bits` are written to it: fields
    /// reserved by the hardware keep their value.
    pub open spec fn spec_merged(current: u16, bits: u16) -> u16 {
        bits
    }

    pub open spec fn spec_write_bits(self, bits: u16) -> u16 {
        Self::spec_merged(self@, bits)
    }

    pub fn write_bits(&mut self, bits: u16)
        ensures
            final(self)@ == old(self).spec_write_bits(bits),
    {
        self.bits = bits;
    }

    pub open spec fn spec_offset(self) -> u16 {
        field16(self@, 0, 9)
    }

    pub fn offset(&self) -> (r: u16)
        ensures
            r == self.spec_offset(),
            r <= 511,
    {
        proof {
            lemma_field16_bound(self.bits, 0, 9);
        }
        get16(self.bits, 0, 9)
    }

}

impl RegisterOps<u16> for BgOffset {
    open spec fn spec_register(&self) -> u16 {
        self@
    }

    open spec fn spec_written(&self, bits: u16) -> u16 {
        self.spec_write_bits(bits)
    }

    open spec fn spec_read_mask(&self) -> u16 {
        0xFFFF
    }

    open spec fn spec_write_mask(&self) -> u16 {
        0xFFFF
    }

    fn register(&self) -> (r: u16) {
        self.bits
    }

    fn write_register(&mut self, bits: u16) {
        self.write_bits(bits);
    }

    fn read_mask(&self) -> (r: u16) {
        0xFFFF
    }

    fn write_mask(&self) -> (r: u16) {
        0xFFFF
    }
}

/// BGxX / BGxY: an affine background's reference point, signed 19.8 fixed
/// point.
#[derive(Debug, Copy, Clone, PartialEq, Eq, Structural)]
pub struct BgReferencePoint {
    bits: u32,
}

impl View for BgReferencePoint {
    type V = u32;

    closed spec fn view(&self) -> u32 {
        self.bits
    }
}

impl BgReferencePoint {
    pub fn from_bits(bits: u32) -> (r: Self)
        ensures
            r@ == bits,
    {
        BgReferencePoint { bits: bits }
    }

    pub fn into_bits(self) -> (r: u32)
        ensures
            r == self@,
    {
        self.bits
    }

    /// The bits the register holds after `bits` are written to it: fields
    /// reserved by the hardware keep their value.
    pub open spec fn spec_merged(current: u32, bits: u32) -> u32 {
        bits
    }

    pub open spec fn spec_write_bits(self, bits: u32) -> u32 {
        Self::spec_merged(self@, bits)
    }

    pub fn write_bits(&mut self, bits: u32)
        ensures
            final(self)@ == old(self).spec_write_bits(bits),
    {
        self.bits = bits;
    }

    pub open spec fn spec_fractional_portion(self) -> u8 {
        field32(self@, 0, 8) as u8
    }

    pub fn fractional_portion(&self) -> (r: u8)
        ensures
            r == self.spec_fractional_portion(),
            r <= 255,
    {
        proof {
            lemma_field32_bound(self.bits, 0, 8);
        }
        get32(self.bits, 0, 8) as u8
    }

    pub open spec fn spec_sign(self) -> bool {
        field32(self@, 27, 1) == 1
    }

    pub fn sign(&self) -> (r: bool)
        ensures
            r == self.spec_sign(),
    {
        get32(self.bits, 27, 1) == 1
    }

}

impl RegisterOps<u32> for BgReferencePoint {
    open spec fn spec_register(&self) -> u32 {
        self@
    }

    open spec fn spec_written(&self, bits: u32) -> u32 {
        self.spec_write_bits(bits)
    }

    open spec fn spec_read_mask(&self) -> u32 {
        0xFFFF_FFFF
    }

    open spec fn spec_write_mask(&self) -> u32 {
        0xFFFF_FFFF
    }

    fn register(&self) -> (r: u32) {
        self.bits
    }

    fn write_register(&mut self, bits: u32) {
        self.write_bits(bits);
    }

    fn read_mask(&self) -> (r: u32) {
        0xFFFF_FFFF
    }

    fn write_mask(&self) -> (r: u32) {
        0xFFFF_FFFF
    }
}

/// BGxPA..BGxPD: an affine parameter, signed 7.8 fixed point.
#[derive(Debug, Copy, Clone, PartialEq, Eq, Structural)]
pub struct BgAffineParameter {
    bits: u16,
}

impl View for BgAffineParameter {
    type V = u16;

    closed spec fn view(&self) -> u16 {
        self.bits
    }
}

impl BgAffineParameter {
    pub fn from_bits(bits: u16) -> (r: Self)
        ensures
            r@ == bits,
    {
        BgAffineParameter { bits: bits }
    }

    pub fn into_bits(self) -> (r: u16)
        ensures
            r == self@,
    {
        self.bits
    }

    /// The bits the register holds after `bits` are written to it: fields
    /// reserved by the hardware keep their value.
    pub open spec fn spec_merged(current: u16, bits: u16) -> u16 {
        bits
    }

    pub open spec fn spec_write_bits(self, bits: u16) -> u16 {
        Self::spec_merged(self@, bits)
    }

    pub fn write_bits(&mut self, bits: u16)
        ensures
            final(self)@ == old(self).spec_write_bits(bits),
    {
        self.bits = bits;
    }

    pub open spec fn spec_fractional_portion(self) -> u8 {
        field16(self@, 0, 8) as u8
    }

    pub fn fractional_portion(&self) -> (r: u8)
        ensures
            r == self.spec_fractional_portion(),
            r <= 255,
    {
        proof {
            lemma_field16_bound(self.bits, 0, 8);
        }
        get16(self.bits, 0, 8) as u8
    }

    pub open spec fn spec_interger_portion(self) -> u8 {
        field16(self@, 8, 7) as u8
    }

    pub fn interger_portion(&self) -> (r: u8)
        ensures
            r == self.spec_interger_portion(),
            r <= 127,
    {
        proof {
            lemma_field16_bound(self.bits, 8, 7);
        }
        get16(self.bits, 8, 7) as u8
    }

    pub open spec fn spec_sign(self) -> bool {
        field16(self@, 15, 1) == 1
    }

    pub fn sign(&self) -> (r: bool)
        ensures
            r == self.spec_sign(),
    {
        get16(self.bits, 15, 1) == 1
    }

}

impl RegisterOps<u16> for BgAffineParameter {
    open spec fn spec_register(&self) -> u16 {
        self@
    }

    open spec fn spec_written(&self, bits: u16) -> u16 {
        self.spec_write_bits(bits)
    }

    open spec fn spec_read_mask(&self) -> u16 {
        0xFFFF
    }

    open spec fn spec_write_mask(&self) -> u16 {
        0xFFFF
    }

    fn register(&self) -> (r: u16) {
        self.bits
    }

    fn write_register(&mut self, bits: u16) {
        self.write_bits(bits);
    }

    fn read_mask(&self) -> (r: u16) {
        0xFFFF
    }

    fn write_mask(&self) -> (r: u16) {
        0xFFFF
    }
}

/// MOSAIC: block sizes minus one.
#[derive(Debug, Copy, Clone, PartialEq, Eq, Structural)]
pub struct MosiacSize {
    bits: u32,
}

impl View for MosiacSize {
    type V = u32;

    closed spec fn view(&self) -> u32 {
        self.bits
    }
}

impl MosiacSize {
    pub fn from_bits(bits: u32) -> (r: Self)
        ensures
            r@ == bits,
    {
        MosiacSize { bits: bits }
    }

    pub fn into_bits(self) -> (r: u32)
        ensures
            r == self@,
    {
        self.bits
    }

    /// The bits the register holds after `bits` are written to it: fields
    /// reserved by the hardware keep their value.
    pub open spec fn spec_merged(current: u32, bits: u32) -> u32 {
        bits
    }

    pub open spec fn spec_write_bits(self, bits: u32) -> u32 {
        Self::spec_merged(self@, bits)
    }

    pub fn write_bits(&mut self, bits: u32)
        ensures
            final(self)@ == old(self).spec_write_bits(bits),
    {
        self.bits = bits;
    }

    pub open spec fn spec_bg_mosaic_h_size(self) -> u8 {
        field32(self@, 0, 4) as u8
    }

    pub fn bg_mosaic_h_size(&self) -> (r: u8)
        ensures
            r == self.spec_bg_mosaic_h_size(),
            r <= 15,
    {
        proof {
            lemma_field32_bound(self.bits, 0, 4);
        }
        get32(self.bits, 0, 4) as u8
    }

    pub open spec fn spec_bg_mosaic_v_size(self) -> u8 {
        field32(self@, 4, 4) as u8
    }

    pub fn bg_mosaic_v_size(&self) -> (r: u8)
        ensures
            r == self.spec_bg_mosaic_v_size(),
            r <= 15,
    {
        proof {
            lemma_field32_bound(self.bits, 4, 4);
        }
        get32(self.bits, 4, 4) as u8
    }

    pub open spec fn spec_obj_mosaic_h_size(self) -> u8 {
        field32(self@, 8, 4) as u8
    }

    pub fn obj_mosaic_h_size(&self) -> (r: u8)
        ensures
            r == self.spec_obj_mosaic_h_size(),
            r <= 15,
    {
        proof {
            lemma_field32_bound(self.bits, 8, 4);
        }
        get32(self.bits, 8, 4) as u8
    }

    pub open spec fn spec_obj_mosaic_v_size(self) -> u8 {
        field32(self@, 12, 4) as u8
    }

    pub fn obj_mosaic_v_size(&self) -> (r: u8)
        ensures
            r == self.spec_obj_mosaic_v_size(),
            r <= 15,
    {
        proof {
            lemma_field32_bound(self.bits, 12, 4);
        }
        get32(self.bits, 12, 4) as u8
    }

}

impl RegisterOps<u32> for MosiacSize {
    open spec fn spec_register(&self) -> u32 {
        self@
    }

    open spec fn spec_written(&self, bits: u32) -> u32 {
        self.spec_write_bits(bits)
    }

    open spec fn spec_read_mask(&self) -> u32 {
        0xFFFF_FFFF
    }

    open spec fn spec_write_mask(&self) -> u32 {
        0xFFFF_FFFF
    }

    fn register(&self) -> (r: u32) {
        self.bits
    }

    fn write_register(&mut self, bits: u32) {
        self.write_bits(bits);
    }

    fn read_mask(&self) -> (r: u32) {
        0xFFFF_FFFF
    }

    fn write_mask(&self) -> (r: u32) {
        0xFFFF_FFFF
    }
}

/// The map sizes of a background by BGxCNT bits 14-15: a text map is
/// 256x256, 512x256, 256x512 or 512x512 pixels; an affine map is 128, 256,
/// 512 or 1024 pixels square.
pub proof fn lemma_screen_size_table(control: BgControl)
    ensures
        control@ >> 14u16 == 0 ==> spec_text_map_pixel_size(control.spec_screen_size()) == (256u16, 256u16)
            && spec_affine_map_pixel_size(control.spec_screen_size()) == 128,
        control@ >> 14u16 == 1 ==> spec_text_map_pixel_size(control.spec_screen_size()) == (512u16, 256u16)
            && spec_affine_map_pixel_size(control.spec_screen_size()) == 256,
        control@ >> 14u16 == 2 ==> spec_text_map_pixel_size(control.spec_screen_size()) == (256u16, 512u16)
            && spec_affine_map_pixel_size(control.spec_screen_size()) == 512,
        control@ >> 14u16 == 3 ==> spec_text_map_pixel_size(control.spec_screen_size()) == (512u16, 512u16)
            && spec_affine_map_pixel_size(control.spec_screen_size()) == 1024,
{
    let bits = control@;
    assert(field16(bits, 14, 2) == bits >> 14u16) by (bit_vector);
}

} // verus!
