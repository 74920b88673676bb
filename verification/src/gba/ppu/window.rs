use crate::common::register_ops::{RegisterOps, RegisterWord};
use crate::gba::bitfield::{field16, get16, lemma_field16_bound, set16, with_field16};
use vstd::prelude::*;

verus! {

/// WINxH / WINxV: bits 0-7 the right or bottom edge plus one, bits 8-15 the
/// left or top edge.
#[derive(Debug, Copy, Clone, PartialEq, Eq, Structural)]
pub struct WindowDimension {
    bits: u16,
}

impl View for WindowDimension {
    type V = u16;

    closed spec fn view(&self) -> u16 {
        self.bits
    }
}

impl WindowDimension {
    pub fn from_bits(bits: u16) -> (r: Self)
        ensures
            r@ == bits,
    {
        WindowDimension { bits: bits }
    }

    pub fn into_bits(self) -> (r: u16)
        ensures
            r == self@,
    {
        self.bits
    }

    /// The bits the register holds after `bits` are written to it: fields
    /// reserved by the hardware keep their value.
    pub open spec fn spec_merged(current: u16, bits: u16) -> u16 {
        bits
    }

    pub open spec fn spec_write_bits(self, bits: u16) -> u16 {
        Self::spec_merged(self@, bits)
    }

    pub fn write_bits(&mut self, bits: u16)
        ensures
            final(self)@ == old(self).spec_write_bits(bits),
    {
        self.bits = bits;
    }

    pub open spec fn spec_end(self) -> u8 {
        field16(self@, 0, 8) as u8
    }

    pub fn end(&self) -> (r: u8)
        ensures
            r == self.spec_end(),
            r <= 255,
    {
        proof {
            lemma_field16_bound(self.bits, 0, 8);
        }
        get16(self.bits, 0, 8) as u8
    }

    pub open spec fn spec_start(self) -> u8 {
        field16(self@, 8, 8) as u8
    }

    pub fn start(&self) -> (r: u8)
        ensures
            r == self.spec_start(),
            r <= 255,
    {
        proof {
            lemma_field16_bound(self.bits, 8, 8);
        }
        get16(self.bits, 8, 8) as u8
    }

}

impl RegisterOps<u16> for WindowDimension {
    open spec fn spec_register(&self) -> u16 {
        self@
    }

    open spec fn spec_written(&self, bits: u16) -> u16 {
        self.spec_write_bits(bits)
    }

    open spec fn spec_read_mask(&self) -> u16 {
        0xFFFF
    }

    open spec fn spec_write_mask(&self) -> u16 {
        0xFFFF
    }

    fn register(&self) -> (r: u16) {
        self.bits
    }

    fn write_register(&mut self, bits: u16) {
        self.write_bits(bits);
    }

    fn read_mask(&self) -> (r: u16) {
        0xFFFF
    }

    fn write_mask(&self) -> (r: u16) {
        0xFFFF
    }
}

/// WININ: what shows inside windows 0 and 1.
#[derive(Debug, Copy, Clone, PartialEq, Eq, Structural)]
pub struct WindowInside {
    bits: u16,
}

impl View for WindowInside {
    type V = u16;

    closed spec fn view(&self) -> u16 {
        self.bits
    }
}

impl WindowInside {
    pub fn from_bits(bits: u16) -> (r: Self)
        ensures
            r@ == bits,
    {
        WindowInside { bits: bits }
    }

    pub fn into_bits(self) -> (r: u16)
        ensures
            r == self@,
    {
        self.bits
    }

    /// The bits the register holds after `bits` are written to it: fields
    /// reserved by the hardware keep their value.
    pub open spec fn spec_merged(current: u16, bits: u16) -> u16 {
        bits
    }

    pub open spec fn spec_write_bits(self, bits: u16) -> u16 {
        Self::spec_merged(self@, bits)
    }

    pub fn write_bits(&mut self, bits: u16)
        ensures
            final(self)@ == old(self).spec_write_bits(bits),
    {
        self.bits = bits;
    }

    pub open spec fn spec_window_0_bg0_enable(self) -> bool {
        field16(self@, 0, 1) == 1
    }

    pub fn window_0_bg0_enable(&self) -> (r: bool)
        ensures
            r == self.spec_window_0_bg0_enable(),
    {
        get16(self.bits, 0, 1) == 1
    }

    pub open spec fn spec_window_0_bg1_enable(self) -> bool {
        field16(self@, 1, 1) == 1
    }

    pub fn window_0_bg1_enable(&self) -> (r: bool)
        ensures
            r == self.spec_window_0_bg1_enable(),
    {
        get16(self.bits, 1, 1) == 1
    }

    pub open spec fn spec_window_0_bg2_enable(self) -> bool {
        field16(self@, 2, 1) == 1
    }

    pub fn window_0_bg2_enable(&self) -> (r: bool)
        ensures
            r == self.spec_window_0_bg2_enable(),
    {
        get16(self.bits, 2, 1) == 1
    }

    pub open spec fn spec_window_0_bg3_enable(self) -> bool {
        field16(self@, 3, 1) == 1
    }

    pub fn window_0_bg3_enable(&self) -> (r: bool)
        ensures
            r == self.spec_window_0_bg3_enable(),
    {
        get16(self.bits, 3, 1) == 1
    }

    pub open spec fn spec_window_0_obj_enable(self) -> bool {
        field16(self@, 4, 1) == 1
    }

    pub fn window_0_obj_enable(&self) -> (r: bool)
        ensures
            r == self.spec_window_0_obj_enable(),
    {
        get16(self.bits, 4, 1) == 1
    }

    pub open spec fn spec_window_0_color_special_effect(self) -> bool {
        field16(self@, 5, 1) == 1
    }

    pub fn window_0_color_special_effect(&self) -> (r: bool)
        ensures
            r == self.spec_window_0_color_special_effect(),
    {
        get16(self.bits, 5, 1) == 1
    }

    pub open spec fn spec_window_1_bg0_enable(self) -> bool {
        field16(self@, 8, 1) == 1
    }

    pub fn window_1_bg0_enable(&self) -> (r: bool)
        ensures
            r == self.spec_window_1_bg0_enable(),
    {
        get16(self.bits, 8, 1) == 1
    }

    pub open spec fn spec_window_1_bg1_enable(self) -> bool {
        field16(self@, 9, 1) == 1
    }

    pub fn window_1_bg1_enable(&self) -> (r: bool)
        ensures
            r == self.spec_window_1_bg1_enable(),
    {
        get16(self.bits, 9, 1) == 1
    }

    pub open spec fn spec_window_1_bg2_enable(self) -> bool {
        field16(self@, 10, 1) == 1
    }

    pub fn window_1_bg2_enable(&self) -> (r: bool)
        ensures
            r == self.spec_window_1_bg2_enable(),
    {
        get16(self.bits, 10, 1) == 1
    }

    pub open spec fn spec_window_1_bg3_enable(self) -> bool {
        field16(self@, 11, 1) == 1
    }

    pub fn window_1_bg3_enable(&self) -> (r: bool)
        ensures
            r == self.spec_window_1_bg3_enable(),
    {
        get16(self.bits, 11, 1) == 1
    }

    pub open spec fn spec_window_1_obj_enable(self) -> bool {
        field16(self@, 12, 1) == 1
    }

    pub fn window_1_obj_enable(&self) -> (r: bool)
        ensures
            r == self.spec_window_1_obj_enable(),
    {
        get16(self.bits, 12, 1) == 1
    }

    pub open spec fn spec_window_1_color_special_effect(self) -> bool {
        field16(self@, 13, 1) == 1
    }

    pub fn window_1_color_special_effect(&self) -> (r: bool)
        ensures
            r == self.spec_window_1_color_special_effect(),
    {
        get16(self.bits, 13, 1) == 1
    }

}

impl RegisterOps<u16> for WindowInside {
    open spec fn spec_register(&self) -> u16 {
        self@
    }

    open spec fn spec_written(&self, bits: u16) -> u16 {
        self.spec_write_bits(bits)
    }

    open spec fn spec_read_mask(&self) -> u16 {
        0xFFFF
    }

    open spec fn spec_write_mask(&self) -> u16 {
        0xFFFF
    }

    fn register(&self) -> (r: u16) {
        self.bits
    }

    fn write_register(&mut self, bits: u16) {
        self.write_bits(bits);
    }

    fn read_mask(&self) -> (r: u16) {
        0xFFFF
    }

    fn write_mask(&self) -> (r: u16) {
        0xFFFF
    }
}

/// WINOUT: what shows outside the windows and inside the object window.
#[derive(Debug, Copy, Clone, PartialEq, Eq, Structural)]
pub struct WindowOutside {
    bits: u16,
}

impl View for WindowOutside {
    type V = u16;

    closed spec fn view(&self) -> u16 {
        self.bits
    }
}

impl WindowOutside {
    pub fn from_bits(bits: u16) -> (r: Self)
        ensures
            r@ == bits,
    {
        WindowOutside { bits: bits }
    }

    pub fn into_bits(self) -> (r: u16)
        ensures
            r == self@,
    {
        self.bits
    }

    /// The bits the register holds after `bits` are written to it: fields
    /// reserved by the hardware keep their value.
    pub open spec fn spec_merged(current: u16, bits: u16) -> u16 {
        bits
    }

    pub open spec fn spec_write_bits(self, bits: u16) -> u16 {
        Self::spec_merged(self@, bits)
    }

    pub fn write_bits(&mut self, bits: u16)
        ensures
            final(self)@ == old(self).spec_write_bits(bits),
    {
        self.bits = bits;
    }

    pub open spec fn spec_outside_bg0_enable(self) -> bool {
        field16(self@, 0, 1) == 1
    }

    pub fn outside_bg0_enable(&self) -> (r: bool)
        ensures
            r == self.spec_outside_bg0_enable(),
    {
        get16(self.bits, 0, 1) == 1
    }

    pub open spec fn spec_outside_bg1_enable(self) -> bool {
        field16(self@, 1, 1) == 1
    }

    pub fn outside_bg1_enable(&self) -> (r: bool)
        ensures
            r == self.spec_outside_bg1_enable(),
    {
        get16(self.bits, 1, 1) == 1
    }

    pub open spec fn spec_outside_bg2_enable(self) -> bool {
        field16(self@, 2, 1) == 1
    }

    pub fn outside_bg2_enable(&self) -> (r: bool)
        ensures
            r == self.spec_outside_bg2_enable(),
    {
        get16(self.bits, 2, 1) == 1
    }

    pub open spec fn spec_outside_bg3_enable(self) -> bool {
        field16(self@, 3, 1) == 1
    }

    pub fn outside_bg3_enable(&self) -> (r: bool)
        ensures
            r == self.spec_outside_bg3_enable(),
    {
        get16(self.bits, 3, 1) == 1
    }

    pub open spec fn spec_outside_obj_enable(self) -> bool {
        field16(self@, 4, 1) == 1
    }

    pub fn outside_obj_enable(&self) -> (r: bool)
        ensures
            r == self.spec_outside_obj_enable(),
    {
        get16(self.bits, 4, 1) == 1
    }

    pub open spec fn spec_outside_color_special_effect(self) -> bool {
        field16(self@, 5, 1) == 1
    }

    pub fn outside_color_special_effect(&self) -> (r: bool)
        ensures
            r == self.spec_outside_color_special_effect(),
    {
        get16(self.bits, 5, 1) == 1
    }

    pub open spec fn spec_obj_window_bg0_enable(self) -> bool {
        field16(self@, 8, 1) == 1
    }

    pub fn obj_window_bg0_enable(&self) -> (r: bool)
        ensures
            r == self.spec_obj_window_bg0_enable(),
    {
        get16(self.bits, 8, 1) == 1
    }

    pub open spec fn spec_obj_window_bg1_enable(self) -> bool {
        field16(self@, 9, 1) == 1
    }

    pub fn obj_window_bg1_enable(&self) -> (r: bool)
        ensures
            r == self.spec_obj_window_bg1_enable(),
    {
        get16(self.bits, 9, 1) == 1
    }

    pub open spec fn spec_obj_window_bg2_enable(self) -> bool {
        field16(self@, 10, 1) == 1
    }

    pub fn obj_window_bg2_enable(&self) -> (r: bool)
        ensures
            r == self.spec_obj_window_bg2_enable(),
    {
        get16(self.bits, 10, 1) == 1
    }

    pub open spec fn spec_obj_window_bg3_enable(self) -> bool {
        field16(self@, 11, 1) == 1
    }

    pub fn obj_window_bg3_enable(&self) -> (r: bool)
        ensures
            r == self.spec_obj_window_bg3_enable(),
    {
        get16(self.bits, 11, 1) == 1
    }

    pub open spec fn spec_obj_window_obj_enable(self) -> bool {
        field16(self@, 12, 1) == 1
    }

    pub fn obj_window_obj_enable(&self) -> (r: bool)
        ensures
            r == self.spec_obj_window_obj_enable(),
    {
        get16(self.bits, 12, 1) == 1
    }

    pub open spec fn spec_obj_window_color_special_effect(self) -> bool {
        field16(self@, 13, 1) == 1
    }

    pub fn obj_window_color_special_effect(&self) -> (r: bool)
        ensures
            r == self.spec_obj_window_color_special_effect(),
    {
        get16(self.bits, 13, 1) == 1
    }

}

impl RegisterOps<u16> for WindowOutside {
    open spec fn spec_register(&self) -> u16 {
        self@
    }

    open spec fn spec_written(&self, bits: u16) -> u16 {
        self.spec_write_bits(bits)
    }

    open spec fn spec_read_mask(&self) -> u16 {
        0xFFFF
    }

    open spec fn spec_write_mask(&self) -> u16 {
        0xFFFF
    }

    fn register(&self) -> (r: u16) {
        self.bits
    }

    fn write_register(&mut self, bits: u16) {
        self.write_bits(bits);
    }

    fn read_mask(&self) -> (r: u16) {
        0xFFFF
    }

    fn write_mask(&self) -> (r: u16) {
        0xFFFF
    }
}

} // verus!
