use crate::gba::bitfield::{field16, get16, lemma_field16_bound};
use vstd::prelude::*;

verus! {

/// A screen entry of a text background map.
#[derive(Debug, Copy, Clone, PartialEq, Eq, Structural)]
pub struct TextBgScreenEntry {
    bits: u16,
}

impl View for TextBgScreenEntry {
    type V = u16;

    closed spec fn view(&self) -> u16 {
        self.bits
    }
}

impl TextBgScreenEntry {
    pub fn from_bits(bits: u16) -> (r: Self)
        ensures
            r@ == bits,
    {
        TextBgScreenEntry { bits: bits }
    }

    pub fn into_bits(self) -> (r: u16)
        ensures
            r == self@,
    {
        self.bits
    }

    /// The bits the register holds after `bits` are written to it: fields
    /// reserved by the hardware keep their value.
    pub open spec fn spec_merged(current: u16, bits: u16) -> u16 {
        bits
    }

    pub open spec fn spec_write_bits(self, bits: u16) -> u16 {
        Self::spec_merged(self@, bits)
    }

    pub fn write_bits(&mut self, bits: u16)
        ensures
            final(self)@ == old(self).spec_write_bits(bits),
    {
        self.bits = bits;
    }

    pub open spec fn spec_tile_index(self) -> u16 {
        field16(self@, 0, 10)
    }

    pub fn tile_index(&self) -> (r: u16)
        ensures
            r == self.spec_tile_index(),
            r <= 1023,
    {
        proof {
            lemma_field16_bound(self.bits, 0, 10);
        }
        get16(self.bits, 0, 10)
    }

    pub open spec fn spec_horizontal_flip(self) -> bool {
        field16(self@, 10, 1) == 1
    }

    pub fn horizontal_flip(&self) -> (r: bool)
        ensures
            r == self.spec_horizontal_flip(),
    {
        get16(self.bits, 10, 1) == 1
    }

    pub open spec fn spec_vertical_flip(self) -> bool {
        field16(self@, 11, 1) == 1
    }

    pub fn vertical_flip(&self) -> (r: bool)
        ensures
            r == self.spec_vertical_flip(),
    {
        get16(self.bits, 11, 1) == 1
    }

    pub open spec fn spec_palette_bank(self) -> u8 {
        field16(self@, 12, 4) as u8
    }

    pub fn palette_bank(&self) -> (r: u8)
        ensures
            r == self.spec_palette_bank(),
            r <= 15,
    {
        proof {
            lemma_field16_bound(self.bits, 12, 4);
        }
        get16(self.bits, 12, 4) as u8
    }


    /// The tile pixel to sample for (`tile_pixel_x`, `tile_pixel_y`), after
    /// the entry's flips.
    pub fn apply_flip(self, tile_pixel_x: u8, tile_pixel_y: u8) -> (r: (u8, u8))
        requires
            tile_pixel_x <= 7,
            tile_pixel_y <= 7,
        ensures
            r.0 == if self.spec_horizontal_flip() { 7 - tile_pixel_x } else { tile_pixel_x as int },
            r.1 == if self.spec_vertical_flip() { 7 - tile_pixel_y } else { tile_pixel_y as int },
    {
        let tile_pixel_x = if self.horizontal_flip() {
            7 - tile_pixel_x
        } else {
            tile_pixel_x
        };
        let tile_pixel_y = if self.vertical_flip() {
            7 - tile_pixel_y
        } else {
            tile_pixel_y
        };
        (tile_pixel_x, tile_pixel_y)
    }

}

/// A screen entry of an affine background map: a tile index.
#[derive(Copy, Clone, PartialEq, Eq, Structural)]
pub struct AffineBgScreenEntry {
    tile_index: u8,
}

impl AffineBgScreenEntry {
    pub fn from_bits(bits: u8) -> (r: Self)
        ensures
            r.spec_tile_index() == bits,
    {
        Self { tile_index: bits }
    }

    pub fn into_bits(self) -> (r: u8)
        ensures
            r == self.spec_tile_index(),
    {
        self.tile_index
    }

    pub closed spec fn spec_tile_index(self) -> u8 {
        self.tile_index
    }

    pub fn tile_index(self) -> (r: u8)
        ensures
            r == self.spec_tile_index(),
    {
        self.tile_index
    }
}

/// The screen entry of a rotation/scaling (affine) map, under its other name.
pub type RotationScalingBgScreenEntry = AffineBgScreenEntry;

} // verus!
