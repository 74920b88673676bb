use crate::gba::bitfield::{field16, lemma_field16_bound};
use crate::gba::ppu::background::{AffineBgScreenEntry, TextBgScreenEntry};
use crate::gba::ppu::color::spec_palette_index;
use crate::gba::ppu::object::lemma_shift_right_8;
use crate::gba::ppu::registers::{
    lemma_base_block_bounds, spec_affine_map_pixel_size, spec_text_map_pixel_size,
    spec_text_screen_entry_index, BgControl, DisplayAreaOverflow,
};
use crate::gba::ppu::{le_u16, spec_le_u16, Layer, Pixel, ScanlineContext, OBJ_VRAM_START};
use vstd::prelude::*;

verus! {

/// What the background renderers need of the line's memories: all of VRAM
/// and the background palette.
pub open spec fn spec_bg_render_ready(ctx: &ScanlineContext) -> bool {
    ctx.vram@.len() >= 0x18000 && ctx.palette_ram@.len() >= 0x200
}

/// The pixel of a text background at screen column `x`: the map scrolls
/// and wraps; a screen entry picks a tile, its flips and its palette bank;
/// tiles that would reach object VRAM, and palette index 0, are
/// transparent.
pub open spec fn spec_text_pixel(
    ctx: &ScanlineContext,
    bg_index: u8,
    control: BgControl,
    scroll_x: u16,
    scroll_y: u16,
    x: int,
) -> Option<Pixel> {
    let size = control.spec_screen_size();
    let map = spec_text_map_pixel_size(size);
    let map_x = (x + scroll_x) % (map.0 as int);
    let map_y = (ctx.v_count + scroll_y) % (map.1 as int);
    let index = spec_text_screen_entry_index(size, map_x / 8, map_y / 8);
    let entry_address = control.spec_screen_base_block().0 * 0x800 + index * 2;
    let entry = spec_le_u16(ctx.vram@[entry_address], ctx.vram@[entry_address + 1]);
    let tile_x = if field16(entry, 10, 1) == 1 { 7 - map_x % 8 } else { map_x % 8 };
    let tile_y = if field16(entry, 11, 1) == 1 { 7 - map_y % 8 } else { map_y % 8 };
    let color_mode = control.spec_color_mode();
    let bytes_per_tile = color_mode.spec_bytes_per_tile() as int;
    let tile_address = control.spec_character_base_block().0 * 0x4000 + field16(entry, 0, 10) * bytes_per_tile;
    if tile_address + bytes_per_tile > 0x10000 {
        None
    } else {
        let index = spec_palette_index(
            color_mode,
            ctx.vram@.subrange(tile_address, tile_address + bytes_per_tile),
            tile_x as u8,
            tile_y as u8,
            field16(entry, 12, 4) as u8,
        );
        if index == 0 {
            None
        } else {
            Some(
                Pixel {
                    color: spec_le_u16(ctx.palette_ram@[index * 2], ctx.palette_ram@[index * 2 + 1]),
                    priority: control.spec_priority(),
                    layer: Layer::Bg(bg_index),
                },
            )
        }
    }
}

fn text_pixel(
    ctx: &ScanlineContext,
    bg_index: u8,
    control: BgControl,
    scroll_x: u16,
    scroll_y: u16,
    x: u16,
) -> (r: Option<Pixel>)
    requires
        spec_bg_render_ready(ctx),
        scroll_x <= 511,
        scroll_y <= 511,
        x < 240,
    ensures
        r == spec_text_pixel(ctx, bg_index, control, scroll_x, scroll_y, x as int),
{
    let y = ctx.v_count;
    proof {
        lemma_field16_bound(control@, 2, 2);
        lemma_field16_bound(control@, 8, 5);
        lemma_base_block_bounds(field16(control@, 2, 2) as u8);
        lemma_base_block_bounds(field16(control@, 8, 5) as u8);
    }
    let screen_size = control.screen_size();
    let (map_width, map_height) = screen_size.text_map_pixel_size();
    let screen_block_base = control.screen_base_block().vram_offset();
    let character_block_base = control.character_base_block().vram_offset();
    let color_mode = control.color_mode();
    let bytes_per_tile = color_mode.bytes_per_tile();
    let priority = control.priority();
    let map_pixel_x = (x + scroll_x) % map_width;
    let map_pixel_y = (y as u16 + scroll_y) % map_height;
    let screen_entry_index = screen_size.text_screen_entry_index(map_pixel_x / 8, map_pixel_y / 8);
    let screen_entry_address = screen_block_base + screen_entry_index as usize * 2;
    let screen_entry = TextBgScreenEntry::from_bits(
        le_u16(ctx.vram[screen_entry_address], ctx.vram[screen_entry_address + 1]),
    );
    let (tile_pixel_x, tile_pixel_y) = screen_entry.apply_flip((map_pixel_x % 8) as u8, (map_pixel_y % 8) as u8);
    proof {
        lemma_field16_bound(screen_entry@, 0, 10);
        lemma_field16_bound(screen_entry@, 12, 4);
    }
    let tile_address = character_block_base + screen_entry.tile_index() as usize * bytes_per_tile;
    if tile_address + bytes_per_tile > OBJ_VRAM_START {
        return None;
    }
    let tile = &ctx.vram[tile_address..tile_address + bytes_per_tile];
    let palette_index = color_mode.palette_index(tile, tile_pixel_x, tile_pixel_y, screen_entry.palette_bank());
    if palette_index == 0 {
        return None;
    }
    let palette_address = palette_index as usize * 2;
    let color = le_u16(ctx.palette_ram[palette_address], ctx.palette_ram[palette_address + 1]);
    Some(Pixel { color, priority, layer: Layer::Bg(bg_index) })
}

/// Draws line `ctx.v_count` of text background `bg_index`, whose control
/// register is `control` and whose scroll is (`scroll_x`, `scroll_y`):
/// transparent columns keep their value.
pub fn render_text_scanline(
    ctx: &ScanlineContext,
    bg_index: usize,
    control: BgControl,
    scroll_x: u16,
    scroll_y: u16,
    bg_line: &mut [Option<Pixel>; 240],
)
    requires
        spec_bg_render_ready(ctx),
        bg_index < 4,
        scroll_x <= 511,
        scroll_y <= 511,
    ensures
        forall|x: int|
            0 <= x < 240 ==> #[trigger] final(bg_line)@[x] == match spec_text_pixel(
                ctx,
                bg_index as u8,
                control,
                scroll_x,
                scroll_y,
                x,
            ) {
                Some(p) => Some(p),
                None => old(bg_line)@[x],
            },
{
    let ghost line0 = bg_line@;
    let mut x: u16 = 0;
    while x < 240
        invariant
            x <= 240,
            spec_bg_render_ready(ctx),
            bg_index < 4,
            scroll_x <= 511,
            scroll_y <= 511,
            forall|i: int|
                0 <= i < 240 ==> #[trigger] bg_line@[i] == if i < x {
                    match spec_text_pixel(ctx, bg_index as u8, control, scroll_x, scroll_y, i) {
                        Some(p) => Some(p),
                        None => line0[i],
                    }
                } else {
                    line0[i]
                },
        decreases 240 - x,
    {
        if let Some(pixel) = text_pixel(ctx, bg_index as u8, control, scroll_x, scroll_y, x) {
            bg_line[x as usize] = Some(pixel);
        }
        x += 1;
    }
}

/// Text maps wrap: on a map 256 pixels wide, scrolling 256 further shows the
/// same line.
pub proof fn lemma_text_scroll_wraps(
    ctx: &ScanlineContext,
    bg_index: u8,
    control: BgControl,
    scroll_x: u16,
    scroll_y: u16,
    x: int,
)
    requires
        spec_text_map_pixel_size(control.spec_screen_size()).0 == 256,
        scroll_x + 256 <= 0xFFFF,
        0 <= x,
    ensures
        spec_text_pixel(ctx, bg_index, control, (scroll_x + 256) as u16, scroll_y, x) == spec_text_pixel(
            ctx,
            bg_index,
            control,
            scroll_x,
            scroll_y,
            x,
        ),
{
    assert((x + ((scroll_x + 256) as u16)) % 256 == (x + scroll_x) % 256) by {
        vstd::arithmetic::div_mod::lemma_mod_add_multiples_vanish(x + scroll_x, 256);
    }
}

/// The map position that an affine background samples at screen column
/// `x`: the reference point plus `x` times the (PA, PC) step, in 8.8 fixed
/// point, rounded down.
pub open spec fn spec_affine_map_position(pa: i32, pc: i32, x_current: i32, y_current: i32, x: int) -> (int, int) {
    ((x_current + pa * x) / 256, (y_current + pc * x) / 256)
}

/// The map position after wrapping, when the background wraps around.
pub open spec fn spec_wrapped(v: int, size: int) -> int {
    if 0 <= v < size {
        v
    } else {
        v % size
    }
}

/// What an affine background does at screen column `x`: None leaves the
/// column as it was; Some(None) clears it (a position outside a
/// non-wrapping map); Some(Some(pixel)) draws. A map byte picks a 256-color
/// tile; tiles that would reach object VRAM, and palette index 0, are
/// transparent.
pub open spec fn spec_affine_outcome(
    ctx: &ScanlineContext,
    bg_index: u8,
    control: BgControl,
    pa: i32,
    pc: i32,
    x_current: i32,
    y_current: i32,
    x: int,
) -> Option<Option<Pixel>> {
    let size = spec_affine_map_pixel_size(control.spec_screen_size()) as int;
    let position = spec_affine_map_position(pa, pc, x_current, y_current, x);
    let inside = 0 <= position.0 < size && 0 <= position.1 < size;
    if !inside && control.spec_display_area_overflow() == DisplayAreaOverflow::Transparent {
        Some(None)
    } else {
        let map_x = spec_wrapped(position.0, size);
        let map_y = spec_wrapped(position.1, size);
        let index = (map_y / 8) * size / 8 + map_x / 8;
        let entry = ctx.vram@[control.spec_screen_base_block().0 * 0x800 + index];
        let tile_address = control.spec_character_base_block().0 * 0x4000 + entry * 64;
        if tile_address + 64 > 0x10000 {
            None
        } else {
            let palette_index = ctx.vram@[tile_address + (map_y % 8) * 8 + map_x % 8];
            if palette_index == 0 {
                None
            } else {
                Some(
                    Some(
                        Pixel {
                            color: spec_le_u16(
                                ctx.palette_ram@[palette_index * 2],
                                ctx.palette_ram@[palette_index * 2 + 1],
                            ),
                            priority: control.spec_priority(),
                            layer: Layer::Bg(bg_index),
                        },
                    ),
                )
            }
        }
    }
}

/// Where the map is sampled, the row of tiles times the map size stays in
/// 16 bits (the map's screen entry index is computed in 16 bits).
pub open spec fn spec_affine_rows_fit(control: BgControl, pa: i32, pc: i32, x_current: i32, y_current: i32) -> bool {
    forall|x: int|
        0 <= x < 240 ==> {
            let size = spec_affine_map_pixel_size(control.spec_screen_size()) as int;
            let position = #[trigger] spec_affine_map_position(pa, pc, x_current, y_current, x);
            let inside = 0 <= position.0 < size && 0 <= position.1 < size;
            (inside || control.spec_display_area_overflow() == DisplayAreaOverflow::Wraparound) ==> (
            spec_wrapped(position.1, size) / 8) * size <= 0xFFFF
        }
}

/// The inputs an affine line is drawn from: PA and PC are 16-bit, the
/// reference point 28-bit.
pub open spec fn spec_affine_inputs(pa: i32, pc: i32, x_current: i32, y_current: i32) -> bool {
    &&& -0x8000 <= pa <= 0x7FFF
    &&& -0x8000 <= pc <= 0x7FFF
    &&& -0x800_0000 <= x_current < 0x800_0000
    &&& -0x800_0000 <= y_current < 0x800_0000
}

fn wrapped(v: i32, size: i32) -> (r: i32)
    requires
        size > 0,
    ensures
        r == spec_wrapped(v as int, size as int),
        0 <= r < size,
{
    if 0 <= v && v < size {
        v
    } else {
        v.checked_rem_euclid(size).unwrap()
    }
}

fn affine_outcome(
    ctx: &ScanlineContext,
    bg_index: u8,
    control: BgControl,
    pa: i32,
    pc: i32,
    x_current: i32,
    y_current: i32,
    x: i32,
) -> (r: Option<Option<Pixel>>)
    requires
        spec_bg_render_ready(ctx),
        spec_affine_inputs(pa, pc, x_current, y_current),
        spec_affine_rows_fit(control, pa, pc, x_current, y_current),
        0 <= x < 240,
    ensures
        r == spec_affine_outcome(ctx, bg_index, control, pa, pc, x_current, y_current, x as int),
{
    proof {
        lemma_field16_bound(control@, 2, 2);
        lemma_field16_bound(control@, 8, 5);
        lemma_base_block_bounds(field16(control@, 2, 2) as u8);
        lemma_base_block_bounds(field16(control@, 8, 5) as u8);
        assert(-0x80_0000 <= pa * x <= 0x80_0000) by (nonlinear_arith)
            requires
                -0x8000 <= pa <= 0x7FFF,
                0 <= x < 240,
        ;
        assert(-0x80_0000 <= pc * x <= 0x80_0000) by (nonlinear_arith)
            requires
                -0x8000 <= pc <= 0x7FFF,
                0 <= x < 240,
        ;
        assert(spec_affine_map_position(pa, pc, x_current, y_current, x as int) == spec_affine_map_position(
            pa,
            pc,
            x_current,
            y_current,
            x as int,
        ));
    }
    let screen_size = control.screen_size();
    let map_size = screen_size.affine_map_pixel_size() as i32;
    let screen_block_base = control.screen_base_block().vram_offset();
    let character_block_base = control.character_base_block().vram_offset();
    let sum_x = x_current + pa * x;
    let sum_y = y_current + pc * x;
    proof {
        lemma_shift_right_8(sum_x);
        lemma_shift_right_8(sum_y);
    }
    let mut map_pixel_x = sum_x >> 8;
    let mut map_pixel_y = sum_y >> 8;
    if !(0 <= map_pixel_x && map_pixel_x < map_size) || !(0 <= map_pixel_y && map_pixel_y < map_size) {
        match control.display_area_overflow() {
            DisplayAreaOverflow::Transparent => {
                return Some(None);
            },
            DisplayAreaOverflow::Wraparound => {
                map_pixel_x = wrapped(map_pixel_x, map_size);
                map_pixel_y = wrapped(map_pixel_y, map_size);
            },
        }
    }
    let map_tile_x = (map_pixel_x as u16) / 8;
    let map_tile_y = (map_pixel_y as u16) / 8;
    let screen_entry_index = screen_size.affine_screen_entry_index(map_tile_x, map_tile_y);
    let screen_entry_address = screen_block_base + screen_entry_index as usize;
    let screen_entry = AffineBgScreenEntry::from_bits(ctx.vram[screen_entry_address]);
    let tile_pixel_x = (map_pixel_x % 8) as usize;
    let tile_pixel_y = (map_pixel_y % 8) as usize;
    let tile_address = character_block_base + screen_entry.tile_index() as usize * 64;
    if tile_address + 64 > OBJ_VRAM_START {
        return None;
    }
    let palette_index = ctx.vram[tile_address + tile_pixel_y * 8 + tile_pixel_x];
    if palette_index == 0 {
        return None;
    }
    let palette_address = palette_index as usize * 2;
    let color = le_u16(ctx.palette_ram[palette_address], ctx.palette_ram[palette_address + 1]);
    Some(Some(Pixel { color, priority: control.priority(), layer: Layer::Bg(bg_index) }))
}

/// Draws line `ctx.v_count` of affine background `bg_index` from its
/// current reference point and its PA and PC parameters.
pub fn render_affine_scanline(
    ctx: &ScanlineContext,
    bg_index: usize,
    control: BgControl,
    pa: i32,
    pc: i32,
    x_current: i32,
    y_current: i32,
    bg_line: &mut [Option<Pixel>; 240],
)
    requires
        spec_bg_render_ready(ctx),
        bg_index < 4,
        spec_affine_inputs(pa, pc, x_current, y_current),
        spec_affine_rows_fit(control, pa, pc, x_current, y_current),
    ensures
        forall|x: int|
            0 <= x < 240 ==> #[trigger] final(bg_line)@[x] == match spec_affine_outcome(
                ctx,
                bg_index as u8,
                control,
                pa,
                pc,
                x_current,
                y_current,
                x,
            ) {
                Some(v) => v,
                None => old(bg_line)@[x],
            },
{
    let ghost line0 = bg_line@;
    let mut x: i32 = 0;
    while x < 240
        invariant
            0 <= x <= 240,
            spec_bg_render_ready(ctx),
            bg_index < 4,
            spec_affine_inputs(pa, pc, x_current, y_current),
            spec_affine_rows_fit(control, pa, pc, x_current, y_current),
            forall|i: int|
                0 <= i < 240 ==> #[trigger] bg_line@[i] == if i < x {
                    match spec_affine_outcome(ctx, bg_index as u8, control, pa, pc, x_current, y_current, i) {
                        Some(v) => v,
                        None => line0[i],
                    }
                } else {
                    line0[i]
                },
        decreases 240 - x,
    {
        if let Some(value) = affine_outcome(ctx, bg_index as u8, control, pa, pc, x_current, y_current, x) {
            bg_line[x as usize] = value;
        }
        x += 1;
    }
}

} // verus!
