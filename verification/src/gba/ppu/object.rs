use crate::common::bits::{sign_extended, SignExtend};
use crate::gba::bitfield::{field16, field32, get16, lemma_field16_bound, lemma_field32_bound};
use crate::gba::ppu::color::{spec_palette_index, ColorMode};
use crate::gba::ppu::lcd::BgMode;
use crate::gba::ppu::{le_u16, spec_le_u16, Layer, Pixel, ScanlineContext, OBJ_PALETTE_START, OBJ_VRAM_START, VIEWPORT_WIDTH};
use vstd::prelude::*;

verus! {

/// An object's rotation/scaling mode.
#[derive(Debug, Copy, Clone, PartialEq, Eq, Structural)]
pub enum AffineMode {
    NoAffine,
    Affine,
    Hidden,
    AffineDouble,
}

impl AffineMode {
    pub open spec fn spec_from_bits(bits: u8) -> Self {
        if bits == 0 {
            AffineMode::NoAffine
        } else if bits == 1 {
            AffineMode::Affine
        } else if bits == 2 {
            AffineMode::Hidden
        } else if bits == 3 {
            AffineMode::AffineDouble
        } else {
            AffineMode::AffineDouble
        }
    }

    pub open spec fn spec_into_bits(self) -> u8 {
        match self {
            AffineMode::NoAffine => 0,
            AffineMode::Affine => 1,
            AffineMode::Hidden => 2,
            AffineMode::AffineDouble => 3,
        }
    }

    pub fn from_bits(bits: u8) -> (r: Self)
        requires
            bits <= 3,
        ensures
            r == Self::spec_from_bits(bits),
    {
        match bits {
            0 => AffineMode::NoAffine,
            1 => AffineMode::Affine,
            2 => AffineMode::Hidden,
            _ => AffineMode::AffineDouble,
        }
    }

    pub fn into_bits(self) -> (r: u8)
        ensures
            r == self.spec_into_bits(),
    {
        match self {
            AffineMode::NoAffine => 0,
            AffineMode::Affine => 1,
            AffineMode::Hidden => 2,
            AffineMode::AffineDouble => 3,
        }
    }
}

/// How an object is drawn.
#[derive(Debug, Copy, Clone, PartialEq, Eq, Structural)]
pub enum ObjectMode {
    Normal,
    SemiTransparent,
    ObjectWindow,
    Prohibited,
}

impl ObjectMode {
    pub open spec fn spec_from_bits(bits: u8) -> Self {
        if bits == 0 {
            ObjectMode::Normal
        } else if bits == 1 {
            ObjectMode::SemiTransparent
        } else if bits == 2 {
            ObjectMode::ObjectWindow
        } else {
            ObjectMode::Prohibited
        }
    }

    pub open spec fn spec_into_bits(self) -> u8 {
        match self {
            ObjectMode::Normal => 0,
            ObjectMode::SemiTransparent => 1,
            ObjectMode::ObjectWindow => 2,
            ObjectMode::Prohibited => 3,
        }
    }

    pub fn from_bits(bits: u8) -> (r: Self)
        ensures
            r == Self::spec_from_bits(bits),
    {
        match bits {
            0 => ObjectMode::Normal,
            1 => ObjectMode::SemiTransparent,
            2 => ObjectMode::ObjectWindow,
            _ => ObjectMode::Prohibited,
        }
    }

    pub fn into_bits(self) -> (r: u8)
        ensures
            r == self.spec_into_bits(),
    {
        match self {
            ObjectMode::Normal => 0,
            ObjectMode::SemiTransparent => 1,
            ObjectMode::ObjectWindow => 2,
            ObjectMode::Prohibited => 3,
        }
    }
}

/// An object's shape.
#[derive(Debug, Copy, Clone, PartialEq, Eq, Structural)]
pub enum ObjectShape {
    Square,
    Horizontal,
    Vertical,
    Prohibited,
}

impl ObjectShape {
    pub open spec fn spec_from_bits(bits: u8) -> Self {
        if bits == 0 {
            ObjectShape::Square
        } else if bits == 1 {
            ObjectShape::Horizontal
        } else if bits == 2 {
            ObjectShape::Vertical
        } else {
            ObjectShape::Prohibited
        }
    }

    pub open spec fn spec_into_bits(self) -> u8 {
        match self {
            ObjectShape::Square => 0,
            ObjectShape::Horizontal => 1,
            ObjectShape::Vertical => 2,
            ObjectShape::Prohibited => 3,
        }
    }

    pub fn from_bits(bits: u8) -> (r: Self)
        ensures
            r == Self::spec_from_bits(bits),
    {
        match bits {
            0 => ObjectShape::Square,
            1 => ObjectShape::Horizontal,
            2 => ObjectShape::Vertical,
            _ => ObjectShape::Prohibited,
        }
    }

    pub fn into_bits(self) -> (r: u8)
        ensures
            r == self.spec_into_bits(),
    {
        match self {
            ObjectShape::Square => 0,
            ObjectShape::Horizontal => 1,
            ObjectShape::Vertical => 2,
            ObjectShape::Prohibited => 3,
        }
    }
}

/// OBJ attribute 0.
#[derive(Debug, Copy, Clone, PartialEq, Eq, Structural)]
pub struct ObjectAttribute0 {
    bits: u16,
}

impl View for ObjectAttribute0 {
    type V = u16;

    closed spec fn view(&self) -> u16 {
        self.bits
    }
}

impl ObjectAttribute0 {
    pub fn from_bits(bits: u16) -> (r: Self)
        ensures
            r@ == bits,
    {
        ObjectAttribute0 { bits: bits }
    }

    pub fn into_bits(self) -> (r: u16)
        ensures
            r == self@,
    {
        self.bits
    }

    /// The bits the register holds after `bits` are written to it: fields
    /// reserved by the hardware keep their value.
    pub open spec fn spec_merged(current: u16, bits: u16) -> u16 {
        bits
    }

    pub open spec fn spec_write_bits(self, bits: u16) -> u16 {
        Self::spec_merged(self@, bits)
    }

    pub fn write_bits(&mut self, bits: u16)
        ensures
            final(self)@ == old(self).spec_write_bits(bits),
    {
        self.bits = bits;
    }

    pub open spec fn spec_y(self) -> u8 {
        field16(self@, 0, 8) as u8
    }

    pub fn y(&self) -> (r: u8)
        ensures
            r == self.spec_y(),
            r <= 255,
    {
        proof {
            lemma_field16_bound(self.bits, 0, 8);
        }
        get16(self.bits, 0, 8) as u8
    }

    pub open spec fn spec_affine_mode(self) -> AffineMode {
        AffineMode::spec_from_bits(field16(self@, 8, 2) as u8)
    }

    pub fn affine_mode(&self) -> (r: AffineMode)
        ensures
            r == self.spec_affine_mode(),
    {
        proof {
            lemma_field16_bound(self.bits, 8, 2);
        }
        AffineMode::from_bits(get16(self.bits, 8, 2) as u8)
    }

    pub open spec fn spec_object_mode(self) -> ObjectMode {
        ObjectMode::spec_from_bits(field16(self@, 10, 2) as u8)
    }

    pub fn object_mode(&self) -> (r: ObjectMode)
        ensures
            r == self.spec_object_mode(),
    {
        proof {
            lemma_field16_bound(self.bits, 10, 2);
        }
        ObjectMode::from_bits(get16(self.bits, 10, 2) as u8)
    }

    pub open spec fn spec_mosaic_enabled(self) -> bool {
        field16(self@, 12, 1) == 1
    }

    pub fn mosaic_enabled(&self) -> (r: bool)
        ensures
            r == self.spec_mosaic_enabled(),
    {
        get16(self.bits, 12, 1) == 1
    }

    pub open spec fn spec_color_mode(self) -> ColorMode {
        ColorMode::spec_from_bits(field16(self@, 13, 1) as u8)
    }

    pub fn color_mode(&self) -> (r: ColorMode)
        ensures
            r == self.spec_color_mode(),
    {
        proof {
            lemma_field16_bound(self.bits, 13, 1);
        }
        ColorMode::from_bits(get16(self.bits, 13, 1) as u8)
    }

    pub open spec fn spec_object_shape(self) -> ObjectShape {
        ObjectShape::spec_from_bits(field16(self@, 14, 2) as u8)
    }

    pub fn object_shape(&self) -> (r: ObjectShape)
        ensures
            r == self.spec_object_shape(),
    {
        proof {
            lemma_field16_bound(self.bits, 14, 2);
        }
        ObjectShape::from_bits(get16(self.bits, 14, 2) as u8)
    }

}

/// OBJ attribute 1 of an object with rotation/scaling.
#[derive(Debug, Copy, Clone, PartialEq, Eq, Structural)]
pub struct ObjectAttribute1Affine {
    bits: u16,
}

impl View for ObjectAttribute1Affine {
    type V = u16;

    closed spec fn view(&self) -> u16 {
        self.bits
    }
}

impl ObjectAttribute1Affine {
    pub fn from_bits(bits: u16) -> (r: Self)
        ensures
            r@ == bits,
    {
        ObjectAttribute1Affine { bits: bits }
    }

    pub fn into_bits(self) -> (r: u16)
        ensures
            r == self@,
    {
        self.bits
    }

    /// The bits the register holds after `bits` are written to it: fields
    /// reserved by the hardware keep their value.
    pub open spec fn spec_merged(current: u16, bits: u16) -> u16 {
        bits
    }

    pub open spec fn spec_write_bits(self, bits: u16) -> u16 {
        Self::spec_merged(self@, bits)
    }

    pub fn write_bits(&mut self, bits: u16)
        ensures
            final(self)@ == old(self).spec_write_bits(bits),
    {
        self.bits = bits;
    }

    pub open spec fn spec_x(self) -> u16 {
        field16(self@, 0, 9)
    }

    pub fn x(&self) -> (r: u16)
        ensures
            r == self.spec_x(),
            r <= 511,
    {
        proof {
            lemma_field16_bound(self.bits, 0, 9);
        }
        get16(self.bits, 0, 9)
    }

    pub open spec fn spec_affine_index(self) -> u8 {
        field16(self@, 9, 5) as u8
    }

    pub fn affine_index(&self) -> (r: u8)
        ensures
            r == self.spec_affine_index(),
            r <= 31,
    {
        proof {
            lemma_field16_bound(self.bits, 9, 5);
        }
        get16(self.bits, 9, 5) as u8
    }

    pub open spec fn spec_object_size(self) -> u8 {
        field16(self@, 14, 2) as u8
    }

    pub fn object_size(&self) -> (r: u8)
        ensures
            r == self.spec_object_size(),
            r <= 3,
    {
        proof {
            lemma_field16_bound(self.bits, 14, 2);
        }
        get16(self.bits, 14, 2) as u8
    }

}

/// OBJ attribute 1 of an object without rotation/scaling.
#[derive(Debug, Copy, Clone, PartialEq, Eq, Structural)]
pub struct ObjectAttribute1Normal {
    bits: u16,
}

impl View for ObjectAttribute1Normal {
    type V = u16;

    closed spec fn view(&self) -> u16 {
        self.bits
    }
}

impl ObjectAttribute1Normal {
    pub fn from_bits(bits: u16) -> (r: Self)
        ensures
            r@ == bits,
    {
        ObjectAttribute1Normal { bits: bits }
    }

    pub fn into_bits(self) -> (r: u16)
        ensures
            r == self@,
    {
        self.bits
    }

    /// The bits the register holds after `bits` are written to it: fields
    /// reserved by the hardware keep their value.
    pub open spec fn spec_merged(current: u16, bits: u16) -> u16 {
        (current & 0x0E00) | (bits & !0x0E00)
    }

    pub open spec fn spec_write_bits(self, bits: u16) -> u16 {
        Self::spec_merged(self@, bits)
    }

    pub fn write_bits(&mut self, bits: u16)
        ensures
            final(self)@ == old(self).spec_write_bits(bits),
    {
        self.bits = (self.bits & 0x0E00) | (bits & !0x0E00);
    }

    pub open spec fn spec_x(self) -> u16 {
        field16(self@, 0, 9)
    }

    pub fn x(&self) -> (r: u16)
        ensures
            r == self.spec_x(),
            r <= 511,
    {
        proof {
            lemma_field16_bound(self.bits, 0, 9);
        }
        get16(self.bits, 0, 9)
    }

    pub open spec fn spec_horizontal_flip(self) -> bool {
        field16(self@, 12, 1) == 1
    }

    pub fn horizontal_flip(&self) -> (r: bool)
        ensures
            r == self.spec_horizontal_flip(),
    {
        get16(self.bits, 12, 1) == 1
    }

    pub open spec fn spec_vertical_flip(self) -> bool {
        field16(self@, 13, 1) == 1
    }

    pub fn vertical_flip(&self) -> (r: bool)
        ensures
            r == self.spec_vertical_flip(),
    {
        get16(self.bits, 13, 1) == 1
    }

    pub open spec fn spec_object_size(self) -> u8 {
        field16(self@, 14, 2) as u8
    }

    pub fn object_size(&self) -> (r: u8)
        ensures
            r == self.spec_object_size(),
            r <= 3,
    {
        proof {
            lemma_field16_bound(self.bits, 14, 2);
        }
        get16(self.bits, 14, 2) as u8
    }

}

/// OBJ attribute 1, read by the object's affine mode.
#[derive(Debug, Copy, Clone, PartialEq, Eq, Structural)]
pub enum ObjectAttribute1 {
    Affine(ObjectAttribute1Affine),
    Normal(ObjectAttribute1Normal),
}

impl ObjectAttribute1 {
    /// The bits of the attribute.
    pub open spec fn spec_bits(self) -> u16 {
        match self {
            ObjectAttribute1::Affine(a) => a@,
            ObjectAttribute1::Normal(n) => n@,
        }
    }

    pub fn from_bits(bits: u16, is_affine: bool) -> (r: Self)
        ensures
            r.spec_bits() == bits,
            r is Affine <==> is_affine,
    {
        if is_affine {
            ObjectAttribute1::Affine(ObjectAttribute1Affine::from_bits(bits))
        } else {
            ObjectAttribute1::Normal(ObjectAttribute1Normal::from_bits(bits))
        }
    }

    pub fn x(self) -> (r: u16)
        ensures
            r == field16(self.spec_bits(), 0, 9),
            r <= 511,
    {
        match self {
            ObjectAttribute1::Affine(a) => a.x(),
            ObjectAttribute1::Normal(n) => n.x(),
        }
    }

    pub fn object_size(self) -> (r: u8)
        ensures
            r == field16(self.spec_bits(), 14, 2),
            r <= 3,
    {
        proof {
            lemma_field16_bound(self.spec_bits(), 14, 2);
        }
        match self {
            ObjectAttribute1::Affine(a) => a.object_size(),
            ObjectAttribute1::Normal(n) => n.object_size(),
        }
    }

    pub open spec fn spec_h_flip(self) -> bool {
        match self {
            ObjectAttribute1::Normal(n) => n.spec_horizontal_flip(),
            ObjectAttribute1::Affine(_) => false,
        }
    }

    pub open spec fn spec_v_flip(self) -> bool {
        match self {
            ObjectAttribute1::Normal(n) => n.spec_vertical_flip(),
            ObjectAttribute1::Affine(_) => false,
        }
    }

    pub fn h_flip(self) -> (r: bool)
        ensures
            r == self.spec_h_flip(),
    {
        match self {
            ObjectAttribute1::Normal(n) => n.horizontal_flip(),
            ObjectAttribute1::Affine(_) => false,
        }
    }

    pub fn v_flip(self) -> (r: bool)
        ensures
            r == self.spec_v_flip(),
    {
        match self {
            ObjectAttribute1::Normal(n) => n.vertical_flip(),
            ObjectAttribute1::Affine(_) => false,
        }
    }

    pub fn affine_index(self) -> (r: u8)
        ensures
            r == match self {
                ObjectAttribute1::Affine(a) => field16(a@, 9, 5) as u8,
                ObjectAttribute1::Normal(_) => 0u8,
            },
            r <= 31,
    {
        match self {
            ObjectAttribute1::Affine(a) => a.affine_index(),
            ObjectAttribute1::Normal(_) => 0,
        }
    }

    /// The column of the object's tiles to sample for column `obj_pixel_x`.
    pub fn apply_h_flip(self, obj_pixel_x: u32, obj_width: u16) -> (r: u32)
        requires
            obj_pixel_x < obj_width,
        ensures
            r == if self.spec_h_flip() { obj_width - 1 - obj_pixel_x } else { obj_pixel_x as int },
    {
        if self.h_flip() {
            obj_width as u32 - 1 - obj_pixel_x
        } else {
            obj_pixel_x
        }
    }

    /// The row of the object's tiles to sample for row `obj_pixel_y`.
    pub fn apply_v_flip(self, obj_pixel_y: u32, obj_height: u16) -> (r: u32)
        requires
            self.spec_v_flip() ==> obj_pixel_y < obj_height,
        ensures
            r == if self.spec_v_flip() { obj_height - 1 - obj_pixel_y } else { obj_pixel_y as int },
    {
        if self.v_flip() {
            obj_height as u32 - 1 - obj_pixel_y
        } else {
            obj_pixel_y
        }
    }

    pub fn _into_bits(self) -> (r: u16)
        ensures
            r == self.spec_bits(),
    {
        match self {
            ObjectAttribute1::Affine(a) => a.into_bits(),
            ObjectAttribute1::Normal(n) => n.into_bits(),
        }
    }
}

/// OBJ attribute 2.
#[derive(Debug, Copy, Clone, PartialEq, Eq, Structural)]
pub struct ObjectAttribute2 {
    bits: u16,
}

impl View for ObjectAttribute2 {
    type V = u16;

    closed spec fn view(&self) -> u16 {
        self.bits
    }
}

impl ObjectAttribute2 {
    pub fn from_bits(bits: u16) -> (r: Self)
        ensures
            r@ == bits,
    {
        ObjectAttribute2 { bits: bits }
    }

    pub fn into_bits(self) -> (r: u16)
        ensures
            r == self@,
    {
        self.bits
    }

    /// The bits the register holds after `bits` are written to it: fields
    /// reserved by the hardware keep their value.
    pub open spec fn spec_merged(current: u16, bits: u16) -> u16 {
        bits
    }

    pub open spec fn spec_write_bits(self, bits: u16) -> u16 {
        Self::spec_merged(self@, bits)
    }

    pub fn write_bits(&mut self, bits: u16)
        ensures
            final(self)@ == old(self).spec_write_bits(bits),
    {
        self.bits = bits;
    }

    pub open spec fn spec_tile_index(self) -> u16 {
        field16(self@, 0, 10)
    }

    pub fn tile_index(&self) -> (r: u16)
        ensures
            r == self.spec_tile_index(),
            r <= 1023,
    {
        proof {
            lemma_field16_bound(self.bits, 0, 10);
        }
        get16(self.bits, 0, 10)
    }

    pub open spec fn spec_priority(self) -> u8 {
        field16(self@, 10, 2) as u8
    }

    pub fn priority(&self) -> (r: u8)
        ensures
            r == self.spec_priority(),
            r <= 3,
    {
        proof {
            lemma_field16_bound(self.bits, 10, 2);
        }
        get16(self.bits, 10, 2) as u8
    }

    pub open spec fn spec_palette_bank(self) -> u8 {
        field16(self@, 12, 4) as u8
    }

    pub fn palette_bank(&self) -> (r: u8)
        ensures
            r == self.spec_palette_bank(),
            r <= 15,
    {
        proof {
            lemma_field16_bound(self.bits, 12, 4);
        }
        get16(self.bits, 12, 4) as u8
    }

}

/// Width and height in pixels of an object of `shape` (0 square,
/// 1 horizontal, 2 vertical) and `size` (0..=3).
pub open spec fn spec_object_size(shape: int, size: int) -> (u16, u16) {
    if shape == 0 {
        if size == 0 {
            (8, 8)
        } else if size == 1 {
            (16, 16)
        } else if size == 2 {
            (32, 32)
        } else {
            (64, 64)
        }
    } else if shape == 1 {
        if size == 0 {
            (16, 8)
        } else if size == 1 {
            (32, 8)
        } else if size == 2 {
            (32, 16)
        } else {
            (64, 32)
        }
    } else {
        if size == 0 {
            (8, 16)
        } else if size == 1 {
            (8, 32)
        } else if size == 2 {
            (16, 32)
        } else {
            (32, 64)
        }
    }
}

fn object_size(shape: u8, size: u8) -> (r: (u16, u16))
    requires
        shape < 3,
        size < 4,
    ensures
        r == spec_object_size(shape as int, size as int),
{
    match (shape, size) {
        (0, 0) => (8, 8),
        (0, 1) => (16, 16),
        (0, 2) => (32, 32),
        (0, _) => (64, 64),
        (1, 0) => (16, 8),
        (1, 1) => (32, 8),
        (1, 2) => (32, 16),
        (1, _) => (64, 32),
        (_, 0) => (8, 16),
        (_, 1) => (8, 32),
        (_, 2) => (16, 32),
        (_, _) => (32, 64),
    }
}

/// The object's size without the double-size area, unless its shape is
/// prohibited.
pub open spec fn spec_obj_map_pixel_size(a0: u16, a1: u16) -> Option<(u16, u16)> {
    if field16(a0, 14, 2) == 3 {
        None
    } else {
        Some(spec_object_size(field16(a0, 14, 2) as int, field16(a1, 14, 2) as int))
    }
}

/// The size of the object's box on screen: twice the map size in the
/// double-size affine mode.
pub open spec fn spec_total_object_pixel_size(a0: u16, a1: u16) -> Option<(u16, u16)> {
    match spec_obj_map_pixel_size(a0, a1) {
        None => None,
        Some(size) => if field16(a0, 8, 2) == 3 {
            Some(((size.0 * 2) as u16, (size.1 * 2) as u16))
        } else {
            Some(size)
        },
    }
}

/// The row of an object's box that line `y` falls on, the box wrapping
/// around at line 256.
pub open spec fn spec_box_row(y: u8, obj_y: u16) -> int {
    (y - obj_y) % 256
}

/// An object shows on line `y`: it is not hidden, its shape is allowed and
/// its box covers the line.
pub open spec fn spec_is_visible(a0: u16, a1: u16, y: u8) -> bool {
    field16(a0, 8, 2) != 2 && match spec_total_object_pixel_size(a0, a1) {
        None => false,
        Some(size) => spec_box_row(y, field16(a0, 0, 8)) < size.1,
    }
}

/// The box row in 32-bit arithmetic, as the hardware wraps it.
fn box_row(y: u8, obj_y: u8) -> (r: u32)
    ensures
        r == spec_box_row(y, obj_y as u16),
        r < 256,
{
    let w = (y as u32).wrapping_sub(obj_y as u32);
    let r = w & 0xFF;
    proof {
        assert(r == w % 256 && r < 256) by (bit_vector)
            requires
                r == w & 0xFF,
        ;
        if (y as int) < (obj_y as int) {
            assert(w == y - obj_y + 0x1_0000_0000);
            vstd::arithmetic::div_mod::lemma_mod_multiples_vanish(0x100_0000, y - obj_y, 256);
        }
    }
    r
}

/// The three attributes of an object, as in OAM.
#[derive(Debug, Copy, Clone)]
pub struct ObjectEntry {
    attribute0: ObjectAttribute0,
    attribute1: ObjectAttribute1,
    attribute2: ObjectAttribute2,
}

impl View for ObjectEntry {
    type V = (u16, u16, u16);

    closed spec fn view(&self) -> (u16, u16, u16) {
        (self.attribute0@, self.attribute1.spec_bits(), self.attribute2@)
    }
}

/// Whether attribute 0 selects rotation/scaling (single or double size).
pub open spec fn spec_is_affine(a0: u16) -> bool {
    field16(a0, 8, 2) == 1 || field16(a0, 8, 2) == 3
}

impl ObjectEntry {
    /// Attribute 1 is read as affine exactly when attribute 0 selects
    /// rotation/scaling.
    pub closed spec fn wf(&self) -> bool {
        self.attribute1 is Affine <==> spec_is_affine(self.attribute0@)
    }

    /// The entry in the first six bytes of an OAM slot.
    pub fn from_oam(bytes: &[u8]) -> (r: Self)
        requires
            bytes.len() >= 6,
        ensures
            r.wf(),
            r@ == (
                spec_le_u16(bytes@[0], bytes@[1]),
                spec_le_u16(bytes@[2], bytes@[3]),
                spec_le_u16(bytes@[4], bytes@[5]),
            ),
    {
        let attribute0 = ObjectAttribute0::from_bits(le_u16(bytes[0], bytes[1]));
        let mode = attribute0.affine_mode();
        let is_affine = mode == AffineMode::Affine || mode == AffineMode::AffineDouble;
        proof {
            lemma_field16_bound(attribute0@, 8, 2);
        }
        Self {
            attribute0,
            attribute1: ObjectAttribute1::from_bits(le_u16(bytes[2], bytes[3]), is_affine),
            attribute2: ObjectAttribute2::from_bits(le_u16(bytes[4], bytes[5])),
        }
    }

    pub fn attribute0(&self) -> (r: ObjectAttribute0)
        ensures
            r@ == self@.0,
    {
        self.attribute0
    }

    pub fn attribute1(&self) -> (r: ObjectAttribute1)
        ensures
            r.spec_bits() == self@.1,
            self.wf() ==> (r is Affine <==> spec_is_affine(self@.0)),
    {
        self.attribute1
    }

    pub fn attribute2(&self) -> (r: ObjectAttribute2)
        ensures
            r@ == self@.2,
    {
        self.attribute2
    }

    pub fn obj_map_pixel_size(&self) -> (r: Option<(u16, u16)>)
        ensures
            r == spec_obj_map_pixel_size(self@.0, self@.1),
    {
        let shape = self.attribute0.object_shape();
        proof {
            lemma_field16_bound(self@.0, 14, 2);
        }
        if shape == ObjectShape::Prohibited {
            return None;
        }
        let size = self.attribute1.object_size();
        Some(object_size(shape.into_bits(), size))
    }

    pub fn total_object_pixel_size(&self) -> (r: Option<(u16, u16)>)
        ensures
            r == spec_total_object_pixel_size(self@.0, self@.1),
    {
        let size = self.obj_map_pixel_size();
        match size {
            None => None,
            Some((width, height)) => {
                proof {
                    lemma_field16_bound(self@.0, 8, 2);
                }
                if self.attribute0.affine_mode() == AffineMode::AffineDouble {
                    Some((width * 2, height * 2))
                } else {
                    Some((width, height))
                }
            },
        }
    }

    pub fn is_visible(&self, y: u8) -> (r: bool)
        ensures
            r == spec_is_visible(self@.0, self@.1, y),
    {
        proof {
            lemma_field16_bound(self@.0, 8, 2);
        }
        if self.attribute0.affine_mode() == AffineMode::Hidden {
            return false;
        }
        proof {
            lemma_field16_bound(self@.0, 0, 8);
        }
        let render_height = match self.total_object_pixel_size() {
            None => {
                return false;
            },
            Some((_, height)) => height,
        };
        box_row(y, self.attribute0.y()) < render_height as u32
    }
}

/// The four parameters of affine matrix `obj_index` in OAM: PA, PB, PC and
/// PD, signed 8.8 fixed point, in the last half-word of OAM slots 4i..4i+3.
pub open spec fn spec_affine_matrix(oam: Seq<u8>, obj_index: int) -> (i32, i32, i32, i32) {
    let b = obj_index * 32;
    (
        spec_le_u16(oam[b + 0x06], oam[b + 0x07]) as i16 as i32,
        spec_le_u16(oam[b + 0x0E], oam[b + 0x0F]) as i16 as i32,
        spec_le_u16(oam[b + 0x16], oam[b + 0x17]) as i16 as i32,
        spec_le_u16(oam[b + 0x1E], oam[b + 0x1F]) as i16 as i32,
    )
}

fn read_obj_affine_matrix(oam: &[u8], obj_index: u8) -> (r: (i32, i32, i32, i32))
    requires
        obj_index * 32 + 32 <= oam.len(),
    ensures
        r == spec_affine_matrix(oam@, obj_index as int),
{
    let base_address = (obj_index as usize) * 32;
    let pa = le_u16(oam[base_address + 0x06], oam[base_address + 0x07]) as i16 as i32;
    let pb = le_u16(oam[base_address + 0x0E], oam[base_address + 0x0F]) as i16 as i32;
    let pc = le_u16(oam[base_address + 0x16], oam[base_address + 0x17]) as i16 as i32;
    let pd = le_u16(oam[base_address + 0x1E], oam[base_address + 0x1F]) as i16 as i32;
    (pa, pb, pc, pd)
}

/// A 9-bit screen position read as two's complement: -256..=255.
pub proof fn lemma_sign_extend_9(x: u16)
    requires
        x <= 511,
    ensures
        sign_extended(x as u32, 9) == if x >= 256 { x - 512 } else { x as int },
{
    let v = x as u32;
    assert(sign_extended(v, 9) == if v >= 256 { v - 512 } else { v as int }) by (bit_vector)
        requires
            v <= 511,
    ;
}

/// An arithmetic shift right by 8 divides by 256, rounding down.
pub proof fn lemma_shift_right_8(v: i32)
    ensures
        (v >> 8i32) as int == (v as int) / 256,
{
    assert((v >> 8i32) as int == (v as int) / 256) by (bit_vector);
}

/// The object tile pixel that screen column `sx` of line `ctx.v_count`
/// falls on, as (column, row) in the object, if the object's box covers the
/// column. Mosaic objects take the row of the mosaic block's source line and
/// the first column of their horizontal block; affine objects sample through
/// their matrix, about the center of the box.
pub open spec fn spec_obj_tile_pixel(ctx: &ScanlineContext, e: (u16, u16, u16), sx: int) -> Option<(int, int)> {
    let a0 = e.0;
    let a1 = e.1;
    match (spec_obj_map_pixel_size(a0, a1), spec_total_object_pixel_size(a0, a1)) {
        (Some(size), Some(total)) => {
            let w = size.0 as int;
            let h = size.1 as int;
            let tw = total.0 as int;
            let th = total.1 as int;
            let obj_x = sign_extended(field16(a1, 0, 9) as u32, 9);
            let mosaic_on = field16(a0, 12, 1) == 1;
            let y = if mosaic_on {
                ctx.mosaic@.obj_source_y
            } else {
                ctx.v_count
            };
            let bx = sx - obj_x;
            let mh = field32(ctx.mosaic@.size, 8, 4) + 1;
            let bxm = if mosaic_on {
                bx - bx % (mh as int)
            } else {
                bx
            };
            let row = spec_box_row(y, field16(a0, 0, 8));
            if !(0 <= sx < 240 && 0 <= bx < tw) {
                None
            } else if field16(a0, 8, 2) == 0 {
                let px = if field16(a1, 12, 1) == 1 {
                    w - 1 - bxm
                } else {
                    bxm
                };
                let py = if field16(a1, 13, 1) == 1 {
                    h - 1 - row
                } else {
                    row
                };
                Some((px, py))
            } else {
                let m = spec_affine_matrix(ctx.oam@, field16(a1, 9, 5) as int);
                let sox = bxm - tw / 2;
                let soy = row - th / 2;
                let px = w / 2 + (m.0 * sox + m.1 * soy) / 256;
                let py = h / 2 + (m.2 * sox + m.3 * soy) / 256;
                if 0 <= px < w && 0 <= py < h {
                    Some((px, py))
                } else {
                    None
                }
            }
        },
        _ => None,
    }
}

/// The palette index that a visible object shows at screen column `sx`:
/// None where its box does not reach, where an affine sample falls outside
/// the object, where the tile lies past VRAM, and for objects whose tiles
/// sit in the bitmap area (below tile 512) in a bitmap mode.
pub open spec fn spec_obj_sample(ctx: &ScanlineContext, e: (u16, u16, u16), sx: int) -> Option<u8> {
    let a0 = e.0;
    let a1 = e.1;
    let a2 = e.2;
    let tile_index = field16(a2, 0, 10) as int;
    let mode = ctx.lcd_control.spec_bg_mode();
    let bitmap = mode == BgMode::Mode3 || mode == BgMode::Mode4 || mode == BgMode::Mode5;
    if bitmap && tile_index < 512 {
        None
    } else {
        match (spec_obj_tile_pixel(ctx, e, sx), spec_obj_map_pixel_size(a0, a1)) {
            (Some(p), Some(size)) => {
                let cm = ColorMode::spec_from_bits(field16(a0, 13, 1) as u8);
                let bpt = cm.spec_bytes_per_tile() as int;
                let row_bytes = if ctx.lcd_control.spec_obj_character_vram_mapping() {
                    (size.0 / 8) * bpt
                } else {
                    1024
                };
                let address = 0x10000 + tile_index * 32 + (p.1 / 8) * row_bytes + (p.0 / 8) * bpt;
                if address + bpt > ctx.vram@.len() {
                    None
                } else {
                    Some(
                        spec_palette_index(
                            cm,
                            ctx.vram@.subrange(address, address + bpt),
                            (p.0 % 8) as u8,
                            (p.1 % 8) as u8,
                            field16(a2, 12, 4) as u8,
                        ),
                    )
                }
            },
            _ => None,
        }
    }
}

/// The pixel a visible object draws at column `sx`, unless it is
/// transparent there or is an object-window object.
pub open spec fn spec_obj_pixel(ctx: &ScanlineContext, e: (u16, u16, u16), sx: int) -> Option<Pixel> {
    match spec_obj_sample(ctx, e, sx) {
        Some(index) => if index != 0 && field16(e.0, 10, 2) != 2 {
            Some(
                Pixel {
                    color: spec_le_u16(
                        ctx.palette_ram@[0x200 + index * 2],
                        ctx.palette_ram@[0x200 + index * 2 + 1],
                    ),
                    priority: field16(e.2, 10, 2) as u8,
                    layer: Layer::Obj { semi_transparent: field16(e.0, 10, 2) == 1 },
                },
            )
        } else {
            None
        },
        None => None,
    }
}

/// Whether an object-window object is opaque at column `sx`.
pub open spec fn spec_obj_window(ctx: &ScanlineContext, e: (u16, u16, u16), sx: int) -> bool {
    match spec_obj_sample(ctx, e, sx) {
        Some(index) => index != 0 && field16(e.0, 10, 2) == 2,
        None => false,
    }
}

/// The objects of OAM, eight bytes each.
pub open spec fn spec_oam_entries(oam: Seq<u8>) -> Seq<(u16, u16, u16)> {
    Seq::new(
        (oam.len() / 8) as nat,
        |i: int|
            (
                spec_le_u16(oam[8 * i], oam[8 * i + 1]),
                spec_le_u16(oam[8 * i + 2], oam[8 * i + 3]),
                spec_le_u16(oam[8 * i + 4], oam[8 * i + 5]),
            ),
    )
}

/// The objects that show on the line, in OAM order.
pub open spec fn spec_visible_objects(ctx: &ScanlineContext) -> Seq<(u16, u16, u16)> {
    spec_oam_entries(ctx.oam@).filter(|e: (u16, u16, u16)| spec_is_visible(e.0, e.1, ctx.v_count))
}

/// The pixel at column `sx` of the first object of `objects[i..]` that
/// draws one there: objects earlier in OAM are drawn on top.
pub open spec fn spec_first_obj_pixel(ctx: &ScanlineContext, objects: Seq<(u16, u16, u16)>, sx: int, i: int) -> Option<Pixel>
    decreases objects.len() - i,
{
    if i < 0 || i >= objects.len() {
        None
    } else {
        match spec_obj_pixel(ctx, objects[i], sx) {
            Some(p) => Some(p),
            None => spec_first_obj_pixel(ctx, objects, sx, i + 1),
        }
    }
}

/// Whether an object-window object of `objects[i..]` is opaque at `sx`.
pub open spec fn spec_any_obj_window(ctx: &ScanlineContext, objects: Seq<(u16, u16, u16)>, sx: int, i: int) -> bool
    decreases objects.len() - i,
{
    if i < 0 || i >= objects.len() {
        false
    } else {
        spec_obj_window(ctx, objects[i], sx) || spec_any_obj_window(ctx, objects, sx, i + 1)
    }
}

/// A non-affine object that takes its row from a mosaic block's source
/// line, and flips vertically, finds that row inside its height.
pub open spec fn spec_flip_rows_in_range(ctx: &ScanlineContext) -> bool {
    forall|i: int|
        0 <= i < spec_visible_objects(ctx).len() ==> {
            let e = #[trigger] spec_visible_objects(ctx)[i];
            (field16(e.0, 8, 2) == 0 && field16(e.0, 12, 1) == 1 && field16(e.1, 13, 1) == 1) ==> (
            spec_box_row(ctx.mosaic@.obj_source_y, field16(e.0, 0, 8)) < spec_obj_map_pixel_size(
                e.0,
                e.1,
            ).unwrap().1)
        }
}

/// What the object renderer needs of the line's memories: OAM in whole
/// slots holding the 32 affine matrices, the whole palette RAM, and rows
/// of mosaic flipped objects inside the objects.
pub open spec fn spec_obj_render_ready(ctx: &ScanlineContext) -> bool {
    &&& ctx.oam@.len() % 8 == 0
    &&& ctx.oam@.len() >= 0x400
    &&& ctx.palette_ram@.len() >= 0x400
    &&& spec_flip_rows_in_range(ctx)
}

/// The object layer of a line.
pub struct Object {
    obj_buffer: Vec<ObjectEntry>,
}

impl View for Object {
    /// The objects of the last line drawn.
    type V = Seq<(u16, u16, u16)>;

    closed spec fn view(&self) -> Seq<(u16, u16, u16)> {
        self.obj_buffer@.map_values(|e: ObjectEntry| e@)
    }
}

impl Object {
    pub fn new() -> (r: Self)
        ensures
            r@.len() == 0,
    {
        Self { obj_buffer: Vec::with_capacity(128) }
    }

    /// Draws the objects of line `ctx.v_count`: each column of `obj_line`
    /// takes the pixel of the first object in OAM order that draws there
    /// (or keeps its value), and each column of `win_obj_line` is set where
    /// an object-window object is opaque. The object layer keeps the
    /// objects of this line.
    pub fn render_obj_scanline(
        &mut self,
        ctx: &ScanlineContext,
        obj_line: &mut [Option<Pixel>; 240],
        win_obj_line: &mut [bool; 240],
    )
        requires
            spec_obj_render_ready(ctx),
        ensures
            forall|sx: int|
                0 <= sx < 240 ==> #[trigger] final(obj_line)@[sx] == match spec_first_obj_pixel(
                    ctx,
                    spec_visible_objects(ctx),
                    sx,
                    0,
                ) {
                    Some(p) => Some(p),
                    None => old(obj_line)@[sx],
                },
            forall|sx: int|
                0 <= sx < 240 ==> #[trigger] final(win_obj_line)@[sx] == (old(win_obj_line)@[sx]
                    || spec_any_obj_window(ctx, spec_visible_objects(ctx), sx, 0)),
            final(self)@ == spec_visible_objects(ctx),
    {
        let y = ctx.v_count;
        self.obj_buffer.clear();
        self.collect_visible(ctx);
        let ghost objects = spec_visible_objects(ctx);
        let ghost line0 = obj_line@;
        let ghost win0 = win_obj_line@;
        let mut j = self.obj_buffer.len();
        while j > 0
            invariant
                j <= self.obj_buffer@.len(),
                objects == spec_visible_objects(ctx),
                spec_obj_render_ready(ctx),
                self.obj_buffer@.len() == objects.len(),
                forall|i: int| 0 <= i < objects.len() ==> #[trigger] self.obj_buffer@[i]@ == objects[i] && self.obj_buffer@[i].wf(),
                forall|sx: int|
                    0 <= sx < 240 ==> #[trigger] obj_line@[sx] == match spec_first_obj_pixel(ctx, objects, sx, j as int) {
                        Some(p) => Some(p),
                        None => line0[sx],
                    },
                forall|sx: int|
                    0 <= sx < 240 ==> #[trigger] win_obj_line@[sx] == (win0[sx] || spec_any_obj_window(
                        ctx,
                        objects,
                        sx,
                        j as int,
                    )),
            decreases j,
        {
            j = j - 1;
            let entry = self.obj_buffer[j];
            let ghost before_line = obj_line@;
            let ghost before_win = win_obj_line@;
            proof {
                assert(objects.contains(entry@)) by {
                    assert(objects[j as int] == entry@);
                }
            }
            render_object(ctx, &entry, obj_line, win_obj_line);
            assert forall|sx: int| 0 <= sx < 240 implies #[trigger] obj_line@[sx] == match spec_first_obj_pixel(
                ctx,
                objects,
                sx,
                j as int,
            ) {
                Some(p) => Some(p),
                None => line0[sx],
            } by {
                assert(before_line[sx] == match spec_first_obj_pixel(ctx, objects, sx, j + 1) {
                    Some(p) => Some(p),
                    None => line0[sx],
                });
            }
            assert forall|sx: int| 0 <= sx < 240 implies #[trigger] win_obj_line@[sx] == (win0[sx]
                || spec_any_obj_window(ctx, objects, sx, j as int)) by {
                assert(before_win[sx] == (win0[sx] || spec_any_obj_window(ctx, objects, sx, j + 1)));
            }
        }
        assert(self@ =~= objects);
    }

    /// Fills the buffer with the objects of the line, in OAM order.
    fn collect_visible(&mut self, ctx: &ScanlineContext)
        requires
            old(self).obj_buffer@.len() == 0,
            ctx.oam@.len() % 8 == 0,
        ensures
            final(self).obj_buffer@.len() == spec_visible_objects(ctx).len(),
            forall|i: int|
                0 <= i < spec_visible_objects(ctx).len() ==> #[trigger] final(self).obj_buffer@[i]@
                    == spec_visible_objects(ctx)[i] && final(self).obj_buffer@[i].wf(),
    {
        let y = ctx.v_count;
        let ghost entries = spec_oam_entries(ctx.oam@);
        let ghost pred = |e: (u16, u16, u16)| spec_is_visible(e.0, e.1, y);
        let n = ctx.oam.len() / 8;
        let mut i: usize = 0;
        assert(entries.take(0) =~= Seq::<(u16, u16, u16)>::empty());
        while i < n
            invariant
                i <= n,
                n == ctx.oam@.len() / 8,
                entries == spec_oam_entries(ctx.oam@),
                pred == (|e: (u16, u16, u16)| spec_is_visible(e.0, e.1, y)),
                y == ctx.v_count,
                ctx.oam@.len() % 8 == 0,
                ctx.oam@.len() <= usize::MAX,
                self.obj_buffer@.map_values(|e: ObjectEntry| e@) =~= entries.take(i as int).filter(pred),
                forall|k: int| 0 <= k < self.obj_buffer@.len() ==> (#[trigger] self.obj_buffer@[k]).wf(),
            decreases n - i,
        {
            assert(8 * i + 8 <= ctx.oam@.len()) by (nonlinear_arith)
                requires
                    i < n,
                    n == ctx.oam@.len() / 8,
            ;
            let obj_entry = ObjectEntry::from_oam(&ctx.oam[8 * i..8 * i + 8]);
            let ghost before = self.obj_buffer@;
            proof {
                assert(entries[i as int] == obj_entry@);
                reveal_with_fuel(Seq::<_>::filter, 1);
                assert(entries.take(i + 1).drop_last() =~= entries.take(i as int));
                assert(entries.take(i + 1).last() == entries[i as int]);
            }
            if obj_entry.is_visible(y) {
                self.obj_buffer.push(obj_entry);
                assert(self.obj_buffer@.map_values(|e: ObjectEntry| e@) =~= before.map_values(
                    |e: ObjectEntry| e@,
                ).push(obj_entry@));
            }
            i += 1;
        }
        assert(entries.take(n as int) =~= entries);
        assert forall|k: int| 0 <= k < spec_visible_objects(ctx).len() implies #[trigger] self.obj_buffer@[k]@
            == spec_visible_objects(ctx)[k] by {
            assert(self.obj_buffer@.map_values(|e: ObjectEntry| e@)[k] == self.obj_buffer@[k]@);
        }
    }
}

/// What sampling an object at box column `bx` needs to hold.
pub open spec fn spec_sample_ready(ctx: &ScanlineContext, e: (u16, u16, u16), bx: int) -> bool {
    &&& spec_obj_render_ready(ctx)
    &&& spec_is_visible(e.0, e.1, ctx.v_count)
    &&& (field16(e.0, 8, 2) == 0 && field16(e.0, 12, 1) == 1 && field16(e.1, 13, 1) == 1) ==> (spec_box_row(
        ctx.mosaic@.obj_source_y,
        field16(e.0, 0, 8),
    ) < spec_obj_map_pixel_size(e.0, e.1).unwrap().1)
    &&& 0 <= bx < spec_total_object_pixel_size(e.0, e.1).unwrap().0
    &&& 0 <= sign_extended(field16(e.1, 0, 9) as u32, 9) + bx < 240
}

/// The row of the object's box on this line, and the box column of `bx`
/// after the mosaic.
fn box_position(ctx: &ScanlineContext, entry: &ObjectEntry, bx: i32) -> (r: (u32, i32))
    requires
        spec_sample_ready(ctx, entry@, bx as int),
    ensures
        ({
            let e = entry@;
            let mosaic_on = field16(e.0, 12, 1) == 1;
            let y = if mosaic_on { ctx.mosaic@.obj_source_y } else { ctx.v_count };
            let mh = field32(ctx.mosaic@.size, 8, 4) + 1;
            &&& r.0 == spec_box_row(y, field16(e.0, 0, 8))
            &&& r.0 < 256
            &&& r.1 == if mosaic_on { bx - (bx as int) % mh } else { bx as int }
            &&& 0 <= r.1 <= bx
        }),
{
    let ghost e = entry@;
    let attribute0 = entry.attribute0();
    proof {
        lemma_field16_bound(e.0, 0, 8);
        lemma_field32_bound(ctx.mosaic@.size, 8, 4);
    }
    let mosaic_enabled = attribute0.mosaic_enabled();
    let mosaic_h_block = ctx.mosaic.size().obj_mosaic_h() as i32 + 1;
    let y = if mosaic_enabled {
        ctx.mosaic.obj_source_y()
    } else {
        ctx.v_count
    };
    let row = box_row(y, attribute0.y());
    assert(0 <= bx && 1 <= mosaic_h_block <= 16);
    let rem = bx % mosaic_h_block;
    assert(0 <= rem < mosaic_h_block && rem <= bx) by (nonlinear_arith)
        requires
            0 <= bx,
            1 <= mosaic_h_block,
            rem == bx % mosaic_h_block,
    ;
    let bxm = if mosaic_enabled {
        bx - rem
    } else {
        bx
    };
    (row, bxm)
}

/// The tile pixel of a non-affine object at box column `bx`.
fn plain_tile_pixel(ctx: &ScanlineContext, entry: &ObjectEntry, bx: i32) -> (r: (u32, u32))
    requires
        spec_sample_ready(ctx, entry@, bx as int),
        entry.wf(),
        field16(entry@.0, 8, 2) == 0,
    ensures
        spec_obj_tile_pixel(ctx, entry@, sign_extended(field16(entry@.1, 0, 9) as u32, 9) + bx) == Some(
            (r.0 as int, r.1 as int),
        ),
        r.0 < 64,
        r.1 < 256,
{
    let ghost e = entry@;
    let attribute1 = entry.attribute1();
    let (obj_width, obj_height) = entry.obj_map_pixel_size().unwrap();
    let (row, bxm) = box_position(ctx, entry, bx);
    proof {
        lemma_field16_bound(e.0, 14, 2);
        lemma_field16_bound(e.1, 14, 2);
        lemma_field16_bound(e.1, 12, 1);
        lemma_field16_bound(e.1, 13, 1);
        lemma_field16_bound(e.0, 8, 2);
        lemma_field16_bound(e.0, 12, 1);
    }
    let obj_pixel_y = attribute1.apply_v_flip(row, obj_height);
    let obj_pixel_x = attribute1.apply_h_flip(bxm as u32, obj_width);
    (obj_pixel_x, obj_pixel_y)
}

/// The tile pixel of an affine object at box column `bx`, if the matrix
/// maps it inside the object.
fn affine_tile_pixel(ctx: &ScanlineContext, entry: &ObjectEntry, bx: i32) -> (r: Option<(u32, u32)>)
    requires
        spec_sample_ready(ctx, entry@, bx as int),
        entry.wf(),
        spec_is_affine(entry@.0),
    ensures
        spec_obj_tile_pixel(ctx, entry@, sign_extended(field16(entry@.1, 0, 9) as u32, 9) + bx) == match r {
            Some(p) => Some((p.0 as int, p.1 as int)),
            None => None::<(int, int)>,
        },
        r matches Some(p) ==> p.0 < 64 && p.1 < 64,
{
    let ghost e = entry@;
    let attribute1 = entry.attribute1();
    let (obj_width, obj_height) = entry.obj_map_pixel_size().unwrap();
    let (total_width, total_height) = entry.total_object_pixel_size().unwrap();
    let (row, bxm) = box_position(ctx, entry, bx);
    proof {
        lemma_field16_bound(e.0, 14, 2);
        lemma_field16_bound(e.1, 14, 2);
        lemma_field16_bound(e.0, 8, 2);
        lemma_field16_bound(e.1, 9, 5);
    }
    let (pa, pb, pc, pd) = read_obj_affine_matrix(ctx.oam, attribute1.affine_index());
    let screen_offset_y = row as i32 - total_height as i32 / 2;
    let screen_offset_x = bxm - total_width as i32 / 2;
    proof {
        lemma_affine_product_bounds(pa as int, pb as int, screen_offset_x as int, screen_offset_y as int);
        lemma_affine_product_bounds(pc as int, pd as int, screen_offset_x as int, screen_offset_y as int);
    }
    let sum_x = pa * screen_offset_x + pb * screen_offset_y;
    let sum_y = pc * screen_offset_x + pd * screen_offset_y;
    proof {
        lemma_shift_right_8(sum_x);
        lemma_shift_right_8(sum_y);
    }
    let obj_pixel_x = obj_width as i32 / 2 + (sum_x >> 8);
    let obj_pixel_y = obj_height as i32 / 2 + (sum_y >> 8);
    if !(0 <= obj_pixel_x && obj_pixel_x < obj_width as i32) || !(0 <= obj_pixel_y && obj_pixel_y
        < obj_height as i32) {
        return None;
    }
    Some((obj_pixel_x as u32, obj_pixel_y as u32))
}

/// The palette index of a visible object at box column `bx`.
fn obj_sample(ctx: &ScanlineContext, entry: &ObjectEntry, bx: i32) -> (r: Option<u8>)
    requires
        spec_sample_ready(ctx, entry@, bx as int),
        entry.wf(),
    ensures
        r == spec_obj_sample(ctx, entry@, sign_extended(field16(entry@.1, 0, 9) as u32, 9) + bx),
{
    let ghost e = entry@;
    let ghost sx = sign_extended(field16(entry@.1, 0, 9) as u32, 9) + bx;
    let attribute0 = entry.attribute0();
    let attribute2 = entry.attribute2();
    let tile_index = attribute2.tile_index() as u32;
    let mode = ctx.lcd_control.bg_mode();
    if (mode == BgMode::Mode3 || mode == BgMode::Mode4 || mode == BgMode::Mode5) && tile_index < 512 {
        return None;
    }
    proof {
        lemma_field16_bound(e.0, 8, 2);
        lemma_field16_bound(e.0, 13, 1);
        lemma_field16_bound(e.2, 12, 4);
        lemma_field16_bound(e.2, 0, 10);
        lemma_field16_bound(e.0, 14, 2);
        lemma_field16_bound(e.1, 14, 2);
    }
    let tile_pixel = if attribute0.affine_mode() == AffineMode::NoAffine {
        Some(plain_tile_pixel(ctx, entry, bx))
    } else {
        affine_tile_pixel(ctx, entry, bx)
    };
    let (obj_pixel_x, obj_pixel_y) = match tile_pixel {
        None => {
            return None;
        },
        Some(p) => p,
    };
    let (obj_width, _) = entry.obj_map_pixel_size().unwrap();
    let color_mode = attribute0.color_mode();
    let bytes_per_tile = color_mode.bytes_per_tile() as u32;
    let tile_row_bytes: u32 = if ctx.lcd_control.obj_character_vram_mapping() {
        (obj_width as u32 / 8) * bytes_per_tile
    } else {
        1024
    };
    let palette_bank = attribute2.palette_bank();
    let obj_tile_x = obj_pixel_x / 8;
    let obj_tile_y = obj_pixel_y / 8;
    let tile_pixel_x = (obj_pixel_x % 8) as u8;
    let tile_pixel_y = (obj_pixel_y % 8) as u8;
    proof {
        assert(obj_tile_y * tile_row_bytes <= 32 * 1024) by (nonlinear_arith)
            requires
                obj_tile_y < 32,
                tile_row_bytes <= 1024,
        ;
        assert(obj_tile_x * bytes_per_tile <= 8 * 64) by (nonlinear_arith)
            requires
                obj_tile_x < 8,
                bytes_per_tile <= 64,
        ;
    }
    let tile_row_base = OBJ_VRAM_START + (tile_index * 32 + obj_tile_y * tile_row_bytes) as usize;
    let tile_address = tile_row_base + (obj_tile_x * bytes_per_tile) as usize;
    if tile_address + bytes_per_tile as usize > ctx.vram.len() {
        return None;
    }
    let tile = &ctx.vram[tile_address..tile_address + bytes_per_tile as usize];
    Some(color_mode.palette_index(tile, tile_pixel_x, tile_pixel_y, palette_bank))
}

proof fn lemma_affine_product_bounds(a: int, b: int, x: int, y: int)
    requires
        -0x8000 <= a <= 0x7FFF,
        -0x8000 <= b <= 0x7FFF,
        -128 <= x <= 128,
        -128 <= y <= 256,
    ensures
        -0x100_0000 <= a * x + b * y <= 0x100_0000,
        -0x80_0000 <= a * x <= 0x80_0000,
        -0x80_0000 <= b * y <= 0x80_0000,
{
    assert(-0x40_0000 <= a * x <= 0x40_0000) by (nonlinear_arith)
        requires
            -0x8000 <= a <= 0x7FFF,
            -128 <= x <= 128,
    ;
    assert(-0x80_0000 <= b * y <= 0x80_0000) by (nonlinear_arith)
        requires
            -0x8000 <= b <= 0x7FFF,
            -128 <= y <= 256,
    ;
}

/// Draws one visible object into the line.
fn render_object(
    ctx: &ScanlineContext,
    entry: &ObjectEntry,
    obj_line: &mut [Option<Pixel>; 240],
    win_obj_line: &mut [bool; 240],
)
    requires
        spec_obj_render_ready(ctx),
        entry.wf(),
        spec_visible_objects(ctx).contains(entry@),
    ensures
        forall|sx: int|
            0 <= sx < 240 ==> #[trigger] final(obj_line)@[sx] == match spec_obj_pixel(ctx, entry@, sx) {
                Some(p) => Some(p),
                None => old(obj_line)@[sx],
            },
        forall|sx: int|
            0 <= sx < 240 ==> #[trigger] final(win_obj_line)@[sx] == (old(win_obj_line)@[sx] || spec_obj_window(
                ctx,
                entry@,
                sx,
            )),
{
    let ghost e = entry@;
    proof {
        broadcast use vstd::seq_lib::group_filter_ensures;

        let i = spec_visible_objects(ctx).index_of(e);
        assert(spec_visible_objects(ctx)[i] == e);
        assert(spec_is_visible(e.0, e.1, ctx.v_count));
    }
    let attribute0 = entry.attribute0();
    let attribute1 = entry.attribute1();
    let attribute2 = entry.attribute2();
    let (total_width, _) = entry.total_object_pixel_size().unwrap();
    let obj_x = attribute1.x().sign_extend(9);
    proof {
        lemma_sign_extend_9(field16(e.1, 0, 9));
    }
    let start: i32 = if -obj_x > 0 {
        -obj_x
    } else {
        0
    };
    let end: i32 = if 240 - obj_x < total_width as i32 {
        240 - obj_x
    } else {
        total_width as i32
    };
    let object_mode = attribute0.object_mode();
    let priority = attribute2.priority();
    let ghost line0 = obj_line@;
    let ghost win0 = win_obj_line@;
    let mut bx = start;
    while bx < end
        invariant
            start <= bx,
            e == entry@,
            obj_x == sign_extended(field16(e.1, 0, 9) as u32, 9),
            -256 <= obj_x <= 255,
            start == (if -obj_x > 0 { -obj_x } else { 0 }),
            end == (if 240 - obj_x < total_width { 240 - obj_x } else { total_width as int }),
            total_width == spec_total_object_pixel_size(e.0, e.1).unwrap().0,
            spec_obj_render_ready(ctx),
            entry.wf(),
            spec_visible_objects(ctx).contains(e),
            spec_is_visible(e.0, e.1, ctx.v_count),
            object_mode == attribute0.spec_object_mode(),
            attribute0@ == e.0,
            priority == field16(e.2, 10, 2) as u8,
            forall|sx: int|
                0 <= sx < 240 ==> #[trigger] obj_line@[sx] == if obj_x + start <= sx < obj_x + bx {
                    match spec_obj_pixel(ctx, e, sx) {
                        Some(p) => Some(p),
                        None => line0[sx],
                    }
                } else {
                    line0[sx]
                },
            forall|sx: int|
                0 <= sx < 240 ==> #[trigger] win_obj_line@[sx] == if obj_x + start <= sx < obj_x + bx {
                    win0[sx] || spec_obj_window(ctx, e, sx)
                } else {
                    win0[sx]
                },
        decreases end - bx,
    {
        let screen_x = (obj_x + bx) as usize;
        proof {
            assert(spec_sample_ready(ctx, e, bx as int));
        }
        let sample = obj_sample(ctx, entry, bx);
        let ghost sx = obj_x + bx;
        let ghost before_line = obj_line@;
        let ghost before_win = win_obj_line@;
        proof {
            lemma_field16_bound(e.0, 10, 2);
        }
        if let Some(palette_index) = sample {
            if palette_index != 0 {
                if object_mode == ObjectMode::ObjectWindow {
                    win_obj_line[screen_x] = true;
                } else {
                    let palette_address = OBJ_PALETTE_START + palette_index as usize * 2;
                    let color = le_u16(ctx.palette_ram[palette_address], ctx.palette_ram[palette_address + 1]);
                    obj_line[screen_x] = Some(
                        Pixel {
                            color,
                            priority,
                            layer: Layer::Obj { semi_transparent: object_mode == ObjectMode::SemiTransparent },
                        },
                    );
                }
            }
        }
        proof {
            assert(obj_line@ == before_line.update(sx, match spec_obj_pixel(ctx, e, sx) {
                Some(p) => Some(p),
                None => before_line[sx],
            }));
            assert(win_obj_line@ == before_win.update(sx, before_win[sx] || spec_obj_window(ctx, e, sx)));
        }
        bx += 1;
    }
    assert forall|sx: int| 0 <= sx < 240 && !(obj_x + start <= sx < obj_x + end) implies spec_obj_pixel(ctx, e, sx)
        is None && !spec_obj_window(ctx, e, sx) by {
        assert(spec_obj_tile_pixel(ctx, e, sx) is None);
    }
}

/// The object sizes of the OAM table, by shape (attribute 0 bits 14-15:
/// square, horizontal, vertical, prohibited) and size (attribute 1 bits
/// 14-15), as width and height in pixels.
pub proof fn lemma_object_size_table(a0: u16, a1: u16)
    ensures
        ({
            let shape = a0 >> 14u16;
            let size = a1 >> 14u16;
            &&& shape == 0 && size == 0 ==> spec_obj_map_pixel_size(a0, a1) == Some((8u16, 8u16))
            &&& shape == 0 && size == 1 ==> spec_obj_map_pixel_size(a0, a1) == Some((16u16, 16u16))
            &&& shape == 0 && size == 2 ==> spec_obj_map_pixel_size(a0, a1) == Some((32u16, 32u16))
            &&& shape == 0 && size == 3 ==> spec_obj_map_pixel_size(a0, a1) == Some((64u16, 64u16))
            &&& shape == 1 && size == 0 ==> spec_obj_map_pixel_size(a0, a1) == Some((16u16, 8u16))
            &&& shape == 1 && size == 1 ==> spec_obj_map_pixel_size(a0, a1) == Some((32u16, 8u16))
            &&& shape == 1 && size == 2 ==> spec_obj_map_pixel_size(a0, a1) == Some((32u16, 16u16))
            &&& shape == 1 && size == 3 ==> spec_obj_map_pixel_size(a0, a1) == Some((64u16, 32u16))
            &&& shape == 2 && size == 0 ==> spec_obj_map_pixel_size(a0, a1) == Some((8u16, 16u16))
            &&& shape == 2 && size == 1 ==> spec_obj_map_pixel_size(a0, a1) == Some((8u16, 32u16))
            &&& shape == 2 && size == 2 ==> spec_obj_map_pixel_size(a0, a1) == Some((16u16, 32u16))
            &&& shape == 2 && size == 3 ==> spec_obj_map_pixel_size(a0, a1) == Some((32u16, 64u16))
            &&& shape == 3 ==> spec_obj_map_pixel_size(a0, a1) is None
        }),
{
    assert(field16(a0, 14, 2) == a0 >> 14u16) by (bit_vector);
    assert(field16(a1, 14, 2) == a1 >> 14u16) by (bit_vector);
}

} // verus!
