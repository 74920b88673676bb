use crate::gba::ppu::{le_u16, spec_le_u16, ScanlineContext, VIEWPORT_WIDTH};
use vstd::prelude::*;

verus! {

/// Width of the mode 5 bitmap.
pub const BG_MODE_5_WIDTH: usize = 160;

/// Height of the mode 5 bitmap.
pub const BG_MODE_5_HEIGHT: usize = 128;

/// The base address in VRAM of the frame that DISPCNT selects.
pub open spec fn spec_frame_base(ctx: &ScanlineContext) -> int {
    if ctx.lcd_control.spec_display_frame_select() == crate::gba::ppu::lcd::FrameSelection::Frame0 {
        0
    } else {
        0xA000
    }
}

/// Mode 3: a 240x160 bitmap of BGR555 colors, two bytes per pixel.
pub fn render_mode3(ctx: &ScanlineContext, bg_line: &mut [Option<u16>; 240])
    requires
        (ctx.v_count * 240 + 240) * 2 <= ctx.vram@.len(),
    ensures
        forall|x: int|
            0 <= x < 240 ==> #[trigger] final(bg_line)@[x] == Some(
                spec_le_u16(
                    ctx.vram@[(ctx.v_count * 240 + x) * 2],
                    ctx.vram@[(ctx.v_count * 240 + x) * 2 + 1],
                ),
            ),
{
    let row = (ctx.v_count as usize) * VIEWPORT_WIDTH;
    let mut x: usize = 0;
    while x < VIEWPORT_WIDTH
        invariant
            x <= 240,
            row == ctx.v_count * 240,
            (ctx.v_count * 240 + 240) * 2 <= ctx.vram@.len(),
            forall|i: int|
                0 <= i < x ==> #[trigger] bg_line@[i] == Some(
                    spec_le_u16(
                        ctx.vram@[(ctx.v_count * 240 + i) * 2],
                        ctx.vram@[(ctx.v_count * 240 + i) * 2 + 1],
                    ),
                ),
        decreases 240 - x,
    {
        let vram_address = (row + x) * 2;
        bg_line[x] = Some(le_u16(ctx.vram[vram_address], ctx.vram[vram_address + 1]));
        x += 1;
    }
}

/// Mode 4: a 240x160 bitmap of palette indices in the selected frame;
/// index 0 is transparent and leaves the line as it was.
pub fn render_mode4(ctx: &ScanlineContext, bg_line: &mut [Option<u16>; 240])
    requires
        spec_frame_base(ctx) + ctx.v_count * 240 + 240 <= ctx.vram@.len(),
        ctx.palette_ram@.len() >= 0x200,
    ensures
        forall|x: int|
            0 <= x < 240 ==> #[trigger] final(bg_line)@[x] == ({
                let index = ctx.vram@[spec_frame_base(ctx) + ctx.v_count * 240 + x];
                if index == 0 {
                    old(bg_line)@[x]
                } else {
                    Some(spec_le_u16(ctx.palette_ram@[index * 2], ctx.palette_ram@[index * 2 + 1]))
                }
            }),
{
    let frame_base_address = ctx.lcd_control.display_frame_select().base_address();
    let row = (ctx.v_count as usize) * VIEWPORT_WIDTH;
    let ghost line0 = bg_line@;
    let mut x: usize = 0;
    while x < VIEWPORT_WIDTH
        invariant
            x <= 240,
            row == ctx.v_count * 240,
            frame_base_address == spec_frame_base(ctx),
            spec_frame_base(ctx) + ctx.v_count * 240 + 240 <= ctx.vram@.len(),
            ctx.palette_ram@.len() >= 0x200,
            forall|i: int|
                0 <= i < 240 ==> #[trigger] bg_line@[i] == if i < x {
                    let index = ctx.vram@[spec_frame_base(ctx) + ctx.v_count * 240 + i];
                    if index == 0 {
                        line0[i]
                    } else {
                        Some(spec_le_u16(ctx.palette_ram@[index * 2], ctx.palette_ram@[index * 2 + 1]))
                    }
                } else {
                    line0[i]
                },
        decreases 240 - x,
    {
        let palette_index = ctx.vram[frame_base_address + row + x];
        if palette_index != 0 {
            let palette_address = palette_index as usize * 2;
            bg_line[x] = Some(le_u16(ctx.palette_ram[palette_address], ctx.palette_ram[palette_address + 1]));
        }
        x += 1;
    }
}

/// Mode 5: a 160x128 bitmap of BGR555 colors in the selected frame; lines
/// and columns past it are left as they were.
pub fn render_mode5(ctx: &ScanlineContext, bg_line: &mut [Option<u16>; 240])
    requires
        ctx.v_count < 128 ==> spec_frame_base(ctx) + (ctx.v_count * 160 + 160) * 2 <= ctx.vram@.len(),
    ensures
        forall|x: int|
            0 <= x < 240 ==> #[trigger] final(bg_line)@[x] == if ctx.v_count < 128 && x < 160 {
                let address = spec_frame_base(ctx) + (ctx.v_count * 160 + x) * 2;
                Some(spec_le_u16(ctx.vram@[address], ctx.vram@[address + 1]))
            } else {
                old(bg_line)@[x]
            },
{
    let y = ctx.v_count as usize;
    if y >= BG_MODE_5_HEIGHT {
        return;
    }
    let frame_base_address = ctx.lcd_control.display_frame_select().base_address();
    let ghost line0 = bg_line@;
    let mut x: usize = 0;
    while x < BG_MODE_5_WIDTH
        invariant
            x <= 160,
            y == ctx.v_count,
            y < 128,
            frame_base_address == spec_frame_base(ctx),
            spec_frame_base(ctx) + (ctx.v_count * 160 + 160) * 2 <= ctx.vram@.len(),
            forall|i: int|
                0 <= i < 240 ==> #[trigger] bg_line@[i] == if i < x {
                    let address = spec_frame_base(ctx) + (ctx.v_count * 160 + i) * 2;
                    Some(spec_le_u16(ctx.vram@[address], ctx.vram@[address + 1]))
                } else {
                    line0[i]
                },
        decreases 160 - x,
    {
        let vram_address = frame_base_address + (y * BG_MODE_5_WIDTH + x) * 2;
        bg_line[x] = Some(le_u16(ctx.vram[vram_address], ctx.vram[vram_address + 1]));
        x += 1;
    }
}

} // verus!
