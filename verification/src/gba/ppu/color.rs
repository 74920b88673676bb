use vstd::prelude::*;

verus! {

#[derive(Debug, Copy, Clone, PartialEq, Eq, Structural)]
pub enum ColorMode {
    /// 4 bits per pixel, in one of 16 palette banks.
    Color16,
    /// 8 bits per pixel.
    Color256,
}

/// The palette index of pixel (`x`, `y`) of a tile: in 16 colors a nibble
/// of the tile (low nibble first) offset into `palette_bank`, 0 staying
/// transparent; in 256 colors a byte.
pub open spec fn spec_palette_index(mode: ColorMode, tile: Seq<u8>, x: u8, y: u8, palette_bank: u8) -> u8 {
    match mode {
        ColorMode::Color16 => {
            let byte = tile[y * 4 + x / 2];
            let nibble = if x % 2 == 0 {
                byte % 16
            } else {
                byte / 16
            };
            if nibble == 0 {
                0
            } else {
                (palette_bank * 16 + nibble) as u8
            }
        },
        ColorMode::Color256 => tile[y * 8 + x],
    }
}

impl ColorMode {
    pub open spec fn spec_from_bits(bits: u8) -> Self {
        if bits == 0 {
            ColorMode::Color16
        } else {
            ColorMode::Color256
        }
    }

    pub open spec fn spec_into_bits(self) -> u8 {
        match self {
            ColorMode::Color16 => 0,
            ColorMode::Color256 => 1,
        }
    }

    pub fn from_bits(bits: u8) -> (r: Self)
        requires
            bits <= 1,
        ensures
            r == Self::spec_from_bits(bits),
    {
        match bits {
            0 => ColorMode::Color16,
            _ => ColorMode::Color256,
        }
    }

    pub fn into_bits(self) -> (r: u8)
        ensures
            r == self.spec_into_bits(),
    {
        match self {
            ColorMode::Color16 => 0,
            ColorMode::Color256 => 1,
        }
    }

    pub open spec fn spec_bytes_per_tile(self) -> usize {
        match self {
            ColorMode::Color16 => 32,
            ColorMode::Color256 => 64,
        }
    }

    /// The size of an 8x8 tile.
    pub fn bytes_per_tile(self) -> (r: usize)
        ensures
            r == self.spec_bytes_per_tile(),
    {
        match self {
            ColorMode::Color16 => 32,
            ColorMode::Color256 => 64,
        }
    }

    pub fn palette_index(self, tile: &[u8], tile_pixel_x: u8, tile_pixel_y: u8, palette_bank: u8) -> (r: u8)
        requires
            palette_bank < 16,
            self == ColorMode::Color16 ==> tile_pixel_y * 4 + tile_pixel_x / 2 < tile.len(),
            self == ColorMode::Color16 ==> tile_pixel_y * 4 + tile_pixel_x / 2 <= 0xFF,
            self == ColorMode::Color256 ==> tile_pixel_y * 8 + tile_pixel_x < tile.len(),
            self == ColorMode::Color256 ==> tile_pixel_y * 8 + tile_pixel_x <= 0xFF,
        ensures
            r == spec_palette_index(self, tile@, tile_pixel_x, tile_pixel_y, palette_bank),
    {
        match self {
            ColorMode::Color16 => {
                let byte = tile[(tile_pixel_y * 4 + tile_pixel_x / 2) as usize];
                let nibble = if tile_pixel_x & 1 == 0 {
                    byte & 0xF
                } else {
                    byte >> 4
                };
                proof {
                    assert((tile_pixel_x & 1 == 0) == (tile_pixel_x % 2 == 0)) by (bit_vector);
                    assert(byte & 0xF == byte % 16 && byte >> 4 == byte / 16) by (bit_vector);
                }
                if nibble == 0 {
                    0
                } else {
                    palette_bank * 16 + nibble
                }
            },
            ColorMode::Color256 => tile[(tile_pixel_y * 8 + tile_pixel_x) as usize],
        }
    }
}

/// A BGR555 color as RGB888: each 5-bit channel widened to 8 bits by
/// repeating its top bits.
pub open spec fn spec_bgr555_to_rgb888(color: u16) -> u32 {
    let r = (color & 0x1F) as u32;
    let g = ((color >> 5u16) & 0x1F) as u32;
    let b = ((color >> 10u16) & 0x1F) as u32;
    ((r << 3u32 | r >> 2u32) << 16u32) | ((g << 3u32 | g >> 2u32) << 8u32) | (b << 3u32 | b >> 2u32)
}

pub fn bgr555_to_rgb888(color: u16) -> (r: u32)
    ensures
        r == spec_bgr555_to_rgb888(color),
{
    let r = (color & 0x1F) as u32;
    let g = ((color >> 5) & 0x1F) as u32;
    let b = ((color >> 10) & 0x1F) as u32;
    ((r << 3 | r >> 2) << 16) | ((g << 3 | g >> 2) << 8) | (b << 3 | b >> 2)
}

/// Each channel of the RGB color is its 5 bits of the BGR555 color followed
/// by their top 3 bits: red (bits 0-4) in bits 16-23, green (bits 5-9) in
/// bits 8-15, blue (bits 10-14) in bits 0-7; the color fits in 24 bits.
pub proof fn lemma_bgr555_channels(color: u16)
    ensures
        (spec_bgr555_to_rgb888(color) >> 16u32) & 0xFF == (((color & 0x1F) as u32) << 3u32) | (((color
            & 0x1F) as u32) >> 2u32),
        (spec_bgr555_to_rgb888(color) >> 8u32) & 0xFF == ((((color >> 5u16) & 0x1F) as u32) << 3u32) | (((
        (color >> 5u16) & 0x1F) as u32) >> 2u32),
        spec_bgr555_to_rgb888(color) & 0xFF == ((((color >> 10u16) & 0x1F) as u32) << 3u32) | ((((color
            >> 10u16) & 0x1F) as u32) >> 2u32),
        spec_bgr555_to_rgb888(color) <= 0xFFFFFF,
{
    let r = (color & 0x1F) as u32;
    let g = ((color >> 5u16) & 0x1F) as u32;
    let b = ((color >> 10u16) & 0x1F) as u32;
    assert(r < 32 && g < 32 && b < 32) by (bit_vector)
        requires
            r == (color & 0x1F) as u32,
            g == ((color >> 5u16) & 0x1F) as u32,
            b == ((color >> 10u16) & 0x1F) as u32,
    ;
    assert(((((r << 3u32 | r >> 2u32) << 16u32) | ((g << 3u32 | g >> 2u32) << 8u32) | (b << 3u32 | b
        >> 2u32)) >> 16u32) & 0xFF == (r << 3u32) | (r >> 2u32) && (((r << 3u32 | r >> 2u32) << 16u32)
        | ((g << 3u32 | g >> 2u32) << 8u32) | (b << 3u32 | b >> 2u32)) <= 0xFFFFFF) by (bit_vector)
        requires
            r < 32,
            g < 32,
            b < 32,
    ;
    assert(((((r << 3u32 | r >> 2u32) << 16u32) | ((g << 3u32 | g >> 2u32) << 8u32) | (b << 3u32 | b
        >> 2u32)) >> 8u32) & 0xFF == (g << 3u32) | (g >> 2u32) && (((r << 3u32 | r >> 2u32) << 16u32)
        | ((g << 3u32 | g >> 2u32) << 8u32) | (b << 3u32 | b >> 2u32)) & 0xFF == (b << 3u32) | (b
        >> 2u32)) by (bit_vector)
        requires
            r < 32,
            g < 32,
            b < 32,
    ;
}

} // verus!
