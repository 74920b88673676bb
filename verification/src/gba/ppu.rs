pub mod background;
pub mod bitmap;
pub mod color;
pub mod compose;
pub mod effects;
pub mod lcd;
pub mod mosaic;
pub mod object;
pub mod registers;
pub mod tiles;
pub mod window;

use crate::gba::bitfield::{field16, with_field16};
use crate::gba::events::InterruptEvent;
use crate::gba::ppu::bitmap::{render_mode3, render_mode4, render_mode5, spec_frame_base};
use crate::gba::ppu::color::spec_bgr555_to_rgb888;
use crate::gba::ppu::compose::{composite_layers, spec_layer_or_backdrop, spec_layer_stack};
use crate::gba::ppu::lcd::{spec_mode_has_bg, BgMode, LcdControl, LcdStatus};
use crate::gba::ppu::mosaic::Mosaic;
use crate::gba::ppu::object::{
    spec_any_obj_window, spec_first_obj_pixel, spec_obj_render_ready, spec_visible_objects, Object,
};
use crate::gba::ppu::registers::BgControl;
use crate::gba::ppu::tiles::{
    render_affine_scanline, render_text_scanline, spec_affine_inputs, spec_affine_outcome,
    spec_affine_rows_fit, spec_bg_render_ready, spec_text_pixel,
};
use vstd::prelude::*;

verus! {

/// Cycles per dot.
pub const CYCLES_PER_PIXEL: usize = 4;

/// Visible dots per line.
pub const HDRAW_PIXELS: usize = 240;

/// Dots of the horizontal blank.
pub const HBLANK_PIXELS: usize = 68;

/// Cycles after the last visible dot until the H-Blank flag is set.
pub const HBLANK_FLAG_LAG: usize = 46;

/// Cycles from the start of a line until H-Blank begins.
pub const HDRAW_CYCLES: usize = 1006;

/// Cycles of H-Blank.
pub const HBLANK_CYCLES: usize = 226;

/// Cycles per line.
pub const CYCLES_PER_SCANLINE: usize = 1232;

/// Visible lines.
pub const VDRAW_SCANLINES: usize = 160;

/// Lines of the vertical blank.
pub const VBLANK_SCANLINES: usize = 68;

/// The last line of a frame.
pub const MAX_V_COUNT: usize = 227;

/// Cycles per frame.
pub const CYCLES_PER_FRAME: usize = 280896;

pub const VIEWPORT_WIDTH: usize = 240;

pub const VIEWPORT_HEIGHT: usize = 160;

/// Dots per frame.
pub const PIXEL_PER_FRAME: usize = 38400;

/// Where object tiles start in VRAM.
pub const OBJ_VRAM_START: usize = 0x10000;

/// Where the object palette starts in palette RAM.
pub const OBJ_PALETTE_START: usize = 0x200;

/// The timing constants agree with each other.
pub proof fn lemma_timing_constants()
    ensures
        HDRAW_CYCLES == HDRAW_PIXELS * CYCLES_PER_PIXEL + HBLANK_FLAG_LAG,
        HBLANK_CYCLES == HBLANK_PIXELS * CYCLES_PER_PIXEL - HBLANK_FLAG_LAG,
        CYCLES_PER_SCANLINE == HDRAW_CYCLES + HBLANK_CYCLES,
        MAX_V_COUNT == VDRAW_SCANLINES + VBLANK_SCANLINES - 1,
        CYCLES_PER_FRAME == (VDRAW_SCANLINES + VBLANK_SCANLINES) * CYCLES_PER_SCANLINE,
        PIXEL_PER_FRAME == HDRAW_PIXELS * VDRAW_SCANLINES,
        VIEWPORT_WIDTH == HDRAW_PIXELS,
        VIEWPORT_HEIGHT == VDRAW_SCANLINES,
{
}

/// The layer a pixel comes from.
#[derive(Debug, Copy, Clone, PartialEq, Eq, Structural)]
pub enum Layer {
    Bg(u8),
    Obj { semi_transparent: bool },
    Backdrop,
}

/// A pixel of a layer: its BGR555 color and its priority (0 is drawn on top).
#[derive(Debug, Copy, Clone, PartialEq, Eq, Structural)]
pub struct Pixel {
    pub color: u16,
    pub priority: u8,
    pub layer: Layer,
}

impl Pixel {
    /// The backdrop: below every layer.
    pub fn backdrop(color: u16) -> (r: Self)
        ensures
            r == (Pixel { color, priority: 4, layer: Layer::Backdrop }),
    {
        Self { color, priority: 4, layer: Layer::Backdrop }
    }
}

/// What the renderers of a line read.
pub struct ScanlineContext<'a> {
    pub vram: &'a [u8],
    pub palette_ram: &'a [u8],
    pub oam: &'a [u8],
    pub lcd_control: &'a LcdControl,
    pub mosaic: &'a Mosaic,
    pub v_count: u8,
}

/// The little-endian half-word of two bytes.
pub open spec fn spec_le_u16(lo: u8, hi: u8) -> u16 {
    ((hi as u16) << 8u16) | (lo as u16)
}

pub fn le_u16(lo: u8, hi: u8) -> (r: u16)
    ensures
        r == spec_le_u16(lo, hi),
{
    ((hi as u16) << 8u16) | (lo as u16)
}

/// The color at `index` of a palette (two bytes per color).
pub open spec fn spec_palette_color(palette_ram: Seq<u8>, address: int) -> u16 {
    spec_le_u16(palette_ram[address], palette_ram[address + 1])
}

/// Moves the line counter to `value`. The V-Count flag of DISPSTAT is set
/// exactly when the counter equals the V-Count setting, and the V-Count match
/// interrupt is raised where the flag is set and its interrupt enabled.
pub fn set_v_count(lcd_status: &mut LcdStatus, v_count: &mut u8, value: u8) -> (r: Option<
    InterruptEvent,
>)
    ensures
        *final(v_count) == value,
        final(lcd_status)@ == with_field16(
            old(lcd_status)@,
            2,
            1,
            if old(lcd_status).spec_v_count_setting() == value {
                1
            } else {
                0
            },
        ),
        final(lcd_status).spec_v_counter_flag() == (old(lcd_status).spec_v_count_setting() == value),
        r == (if old(lcd_status).spec_v_counter_irq_enabled() && old(lcd_status).spec_v_count_setting()
            == value {
            Some(InterruptEvent::LcdVCounterMatch)
        } else {
            None
        }),
{
    *v_count = value;
    let is_match = lcd_status.v_count_setting() == *v_count;
    let ghost before = lcd_status@;
    lcd_status.set_v_counter_flag(is_match);
    proof {
        let after = lcd_status@;
        let v: u16 = if is_match {
            1
        } else {
            0
        };
        assert(after == with_field16(before, 2, 1, v));
        assert(v <= 1 ==> field16(with_field16(before, 2, 1, v), 2, 1) == v
            && field16(with_field16(before, 2, 1, v), 5, 1) == field16(before, 5, 1))
            by (bit_vector);
    }
    match lcd_status.v_counter_irq_enabled() && lcd_status.v_counter_flag() {
        true => Some(InterruptEvent::LcdVCounterMatch),
        false => None,
    }
}

/// Whether background `bg` takes part in the line: the video mode has it
/// and DISPCNT switches it on.
pub open spec fn spec_bg_drawn(lcd: LcdControl, bg: int) -> bool {
    spec_mode_has_bg(lcd.spec_bg_mode(), bg) && field16(lcd@, (8 + bg) as u16, 1) == 1
}

/// Where background `bg` goes among the backgrounds `s`, which are in
/// drawing order: after every one whose priority is not above its own.
pub open spec fn spec_priority_slot(s: Seq<usize>, bg: usize, priorities: Seq<u8>) -> int
    decreases s.len(),
{
    if s.len() == 0 {
        0
    } else if priorities[s.last() as int] <= priorities[bg as int] {
        s.len() as int
    } else {
        spec_priority_slot(s.drop_last(), bg, priorities)
    }
}

/// The drawn backgrounds among `0..n`, in drawing order: by priority, and
/// among equal priorities by index (each one goes after those of the same
/// priority that come before it).
pub open spec fn spec_bg_order_upto(lcd: LcdControl, priorities: Seq<u8>, n: int) -> Seq<usize>
    decreases n,
{
    if n <= 0 {
        Seq::empty()
    } else {
        let s = spec_bg_order_upto(lcd, priorities, n - 1);
        if spec_bg_drawn(lcd, n - 1) {
            s.insert(spec_priority_slot(s, (n - 1) as usize, priorities), (n - 1) as usize)
        } else {
            s
        }
    }
}

/// The backgrounds of a line in drawing order: those the video mode has and
/// DISPCNT switches on, stably sorted by priority (ties by index).
pub open spec fn spec_bg_order(lcd: LcdControl, priorities: Seq<u8>) -> Seq<usize> {
    spec_bg_order_upto(lcd, priorities, 4)
}

proof fn lemma_priority_slot_bounds(s: Seq<usize>, bg: usize, priorities: Seq<u8>)
    ensures
        0 <= spec_priority_slot(s, bg, priorities) <= s.len(),
    decreases s.len(),
{
    if s.len() > 0 && !(priorities[s.last() as int] <= priorities[bg as int]) {
        lemma_priority_slot_bounds(s.drop_last(), bg, priorities);
    }
}

/// Background `a` comes before background `b` in drawing order: a higher
/// priority (smaller number), or the same priority and a smaller index.
pub open spec fn spec_draws_before(priorities: Seq<u8>, a: usize, b: usize) -> bool {
    priorities[a as int] < priorities[b as int] || (priorities[a as int] == priorities[b as int] && a < b)
}

proof fn lemma_priority_slot_split(s: Seq<usize>, bg: usize, priorities: Seq<u8>)
    ensures
        ({
            let k = spec_priority_slot(s, bg, priorities);
            &&& 0 <= k <= s.len()
            &&& forall|j: int| k <= j < s.len() ==> priorities[bg as int] < priorities[#[trigger] s[j] as int]
            &&& k > 0 ==> priorities[s[k - 1] as int] <= priorities[bg as int]
        }),
    decreases s.len(),
{
    if s.len() > 0 && !(priorities[s.last() as int] <= priorities[bg as int]) {
        lemma_priority_slot_split(s.drop_last(), bg, priorities);
        let k = spec_priority_slot(s, bg, priorities);
        assert forall|j: int| k <= j < s.len() implies priorities[bg as int] < priorities[#[trigger] s[j] as int] by {
            if j < s.len() - 1 {
                assert(s[j] == s.drop_last()[j]);
            }
        }
    }
}

/// The drawing order of the backgrounds among `0..n`: each drawn one once,
/// nothing else, every one before the next in drawing order.
proof fn lemma_bg_order_upto_sorted(lcd: LcdControl, priorities: Seq<u8>, n: int)
    requires
        0 <= n <= 4,
    ensures
        ({
            let s = spec_bg_order_upto(lcd, priorities, n);
            &&& forall|i: int, j: int|
                0 <= i < j < s.len() ==> spec_draws_before(priorities, #[trigger] s[i], #[trigger] s[j])
            &&& forall|j: int| 0 <= j < s.len() ==> #[trigger] s[j] < n
            &&& forall|b: usize| b < n ==> (s.contains(b) <==> spec_bg_drawn(lcd, b as int))
        }),
    decreases n,
{
    if n > 0 {
        lemma_bg_order_upto_sorted(lcd, priorities, n - 1);
        let s = spec_bg_order_upto(lcd, priorities, n - 1);
        let bg = (n - 1) as usize;
        if spec_bg_drawn(lcd, n - 1) {
            lemma_priority_slot_split(s, bg, priorities);
            let k = spec_priority_slot(s, bg, priorities);
            let t = s.insert(k, bg);
            assert forall|j: int| 0 <= j < t.len() implies #[trigger] t[j] < n by {
                if j > k {
                    assert(t[j] == s[j - 1]);
                }
            }
            assert forall|i: int, j: int| 0 <= i < j < t.len() implies spec_draws_before(
                priorities,
                #[trigger] t[i],
                #[trigger] t[j],
            ) by {
                if i < k && j < k {
                    assert(t[i] == s[i] && t[j] == s[j]);
                } else if i < k && j == k {
                    assert(t[i] == s[i]);
                    if i < k - 1 {
                        assert(spec_draws_before(priorities, s[i], s[k - 1]));
                    }
                } else if i < k {
                    assert(t[i] == s[i] && t[j] == s[j - 1]);
                } else if i == k {
                    assert(t[j] == s[j - 1]);
                } else {
                    assert(t[i] == s[i - 1] && t[j] == s[j - 1]);
                }
            }
            assert forall|b: usize| b < n implies (t.contains(b) <==> spec_bg_drawn(lcd, b as int)) by {
                if b == bg {
                    assert(t[k] == bg);
                } else {
                    if s.contains(b) {
                        let j = choose|j: int| 0 <= j < s.len() && s[j] == b;
                        if j < k {
                            assert(t[j] == b);
                        } else {
                            assert(t[j + 1] == b);
                        }
                    }
                    if t.contains(b) {
                        let j = choose|j: int| 0 <= j < t.len() && t[j] == b;
                        if j < k {
                            assert(s[j] == b);
                        } else {
                            assert(s[j - 1] == b);
                        }
                    }
                }
            }
        } else {
            assert forall|b: usize| b < n implies (s.contains(b) <==> spec_bg_drawn(lcd, b as int)) by {
                if b == bg && s.contains(b) {
                    let j = choose|j: int| 0 <= j < s.len() && s[j] == b;
                    assert(s[j] < n - 1);
                }
            }
        }
    }
}

/// The drawing order holds each background that the video mode has and
/// DISPCNT switches on, once, and no other; a background comes before
/// another when its priority is higher, or equal and its index smaller.
pub proof fn lemma_bg_order_sorted(lcd: LcdControl, priorities: Seq<u8>)
    ensures
        ({
            let s = spec_bg_order(lcd, priorities);
            &&& forall|i: int, j: int|
                0 <= i < j < s.len() ==> spec_draws_before(priorities, #[trigger] s[i], #[trigger] s[j])
            &&& forall|b: usize| b < 4 ==> (s.contains(b) <==> spec_bg_drawn(lcd, b as int))
            &&& forall|j: int| 0 <= j < s.len() ==> #[trigger] s[j] < 4
        }),
{
    lemma_bg_order_upto_sorted(lcd, priorities, 4);
}

/// Inserts background `bg` into `order` after every background whose
/// priority is not above its own.
fn insert_by_priority(order: &mut Vec<usize>, bg: usize, priorities: &[u8; 4])
    requires
        old(order)@.len() < 4,
        bg < 4,
        forall|j: int| 0 <= j < old(order)@.len() ==> old(order)@[j] < 4,
    ensures
        final(order)@ == old(order)@.insert(
            spec_priority_slot(old(order)@, bg, priorities@),
            bg,
        ),
{
    let ghost s = order@;
    let mut i = order.len();
    assert(s.take(i as int) =~= s);
    while i > 0 && priorities[order[i - 1]] > priorities[bg]
        invariant
            order@ == s,
            i <= s.len(),
            s.len() < 4,
            bg < 4,
            forall|j: int| 0 <= j < s.len() ==> s[j] < 4,
            spec_priority_slot(s, bg, priorities@) == spec_priority_slot(s.take(i as int), bg, priorities@),
        decreases i,
    {
        proof {
            let t = s.take(i as int);
            assert(t.drop_last() =~= s.take(i - 1));
            assert(t.last() == s[i - 1]);
        }
        i = i - 1;
    }
    proof {
        let t = s.take(i as int);
        if i == 0 {
            assert(t.len() == 0);
        } else {
            assert(t.last() == s[i - 1]);
        }
    }
    order.insert(i, bg);
}

/// The backgrounds the line draws, in drawing order.
pub fn scanline_bg_order(lcd_control: &LcdControl, bg_priorities: &[u8; 4]) -> (r: Vec<usize>)
    ensures
        r@ == spec_bg_order(*lcd_control, bg_priorities@),
        forall|j: int| 0 <= j < r@.len() ==> r@[j] < 4,
{
    let mut order: Vec<usize> = Vec::new();
    let mut bg: usize = 0;
    while bg < 4
        invariant
            bg <= 4,
            order@ == spec_bg_order_upto(*lcd_control, bg_priorities@, bg as int),
            order@.len() <= bg,
            forall|j: int| 0 <= j < order@.len() ==> order@[j] < bg,
        decreases 4 - bg,
    {
        let ghost before = order@;
        if lcd_control.bg_mode_supported(bg) && lcd_control.bg_enabled(bg) {
            proof {
                lemma_priority_slot_bounds(before, bg, bg_priorities@);
            }
            insert_by_priority(&mut order, bg, bg_priorities);
            proof {
                let k = spec_priority_slot(before, bg, bg_priorities@);
                assert forall|j: int| 0 <= j < order@.len() implies order@[j] < bg + 1 by {
                    if j < k {
                        assert(order@[j] == before[j]);
                    } else if j > k {
                        assert(order@[j] == before[j - 1]);
                    }
                }
            }
        }
        bg += 1;
    }
    order
}

/// Whether the video mode draws background `bg` as an affine background.
pub open spec fn spec_bg_is_affine(mode: BgMode, bg: int) -> bool {
    (mode == BgMode::Mode1 && bg == 2) || (mode == BgMode::Mode2 && (bg == 2 || bg == 3))
}

/// The color a bitmap mode puts at column `x` of the line, or None where
/// it leaves the column empty.
pub open spec fn spec_bitmap_color(ctx: &ScanlineContext, x: int) -> Option<u16> {
    match ctx.lcd_control.spec_bg_mode() {
        BgMode::Mode3 => Some(
            spec_le_u16(ctx.vram@[(ctx.v_count * 240 + x) * 2], ctx.vram@[(ctx.v_count * 240 + x) * 2 + 1]),
        ),
        BgMode::Mode4 => {
            let index = ctx.vram@[spec_frame_base(ctx) + ctx.v_count * 240 + x];
            if index == 0 {
                None
            } else {
                Some(spec_le_u16(ctx.palette_ram@[index * 2], ctx.palette_ram@[index * 2 + 1]))
            }
        },
        BgMode::Mode5 => if ctx.v_count < 128 && x < 160 {
            let address = spec_frame_base(ctx) + (ctx.v_count * 160 + x) * 2;
            Some(spec_le_u16(ctx.vram@[address], ctx.vram@[address + 1]))
        } else {
            None
        },
        _ => None,
    }
}

/// The pixel background `bg` has at column `x` of the line: drawn as a
/// text, affine or bitmap background as the video mode has it; None where
/// it is transparent or not drawn.
pub open spec fn spec_bg_pixel(
    ctx: &ScanlineContext,
    bg: int,
    control: BgControl,
    scroll: (u16, u16),
    affine: (i32, i32, i32, i32),
    x: int,
) -> Option<Pixel> {
    let mode = ctx.lcd_control.spec_bg_mode();
    if !spec_bg_drawn(*ctx.lcd_control, bg) {
        None
    } else if spec_bg_is_affine(mode, bg) {
        match spec_affine_outcome(ctx, bg as u8, control, affine.0, affine.1, affine.2, affine.3, x) {
            Some(v) => v,
            None => None,
        }
    } else if mode == BgMode::Mode0 || mode == BgMode::Mode1 {
        spec_text_pixel(ctx, bg as u8, control, scroll.0, scroll.1, x)
    } else {
        match spec_bitmap_color(ctx, x) {
            Some(c) => Some(Pixel { color: c, priority: control.spec_priority(), layer: Layer::Bg(bg as u8) }),
            None => None,
        }
    }
}

/// What drawing a line asks of its inputs: the memories at their sizes, a
/// visible line, 9-bit scrolls, and affine parameters as the affine
/// renderer takes them.
pub open spec fn spec_scanline_ready(
    ctx: &ScanlineContext,
    bg_controls: Seq<BgControl>,
    scrolls: Seq<(u16, u16)>,
    affine: Seq<(i32, i32, i32, i32)>,
) -> bool {
    &&& spec_bg_render_ready(ctx)
    &&& spec_obj_render_ready(ctx)
    &&& ctx.v_count < 160
    &&& bg_controls.len() == 4
    &&& scrolls.len() == 4
    &&& affine.len() == 4
    &&& forall|b: int| 0 <= b < 4 ==> #[trigger] scrolls[b].0 <= 511 && scrolls[b].1 <= 511
    &&& forall|b: int|
        0 <= b < 4 && spec_bg_drawn(*ctx.lcd_control, b) && spec_bg_is_affine(ctx.lcd_control.spec_bg_mode(), b)
            ==> spec_affine_inputs(affine[b].0, affine[b].1, affine[b].2, affine[b].3) && spec_affine_rows_fit(
            #[trigger] bg_controls[b],
            affine[b].0,
            affine[b].1,
            affine[b].2,
            affine[b].3,
        )
}

/// Turns the colors of a bitmap line into pixels of background 2.
fn bitmap_pixels(colors: &[Option<u16>; 240], priority: u8, line: &mut [Option<Pixel>; 240])
    ensures
        forall|x: int|
            0 <= x < 240 ==> #[trigger] final(line)@[x] == match colors@[x] {
                Some(c) => Some(Pixel { color: c, priority, layer: Layer::Bg(2) }),
                None => None::<Pixel>,
            },
{
    let mut x: usize = 0;
    while x < 240
        invariant
            x <= 240,
            line@.len() == 240,
            forall|i: int|
                0 <= i < x ==> #[trigger] line@[i] == match colors@[i] {
                    Some(c) => Some(Pixel { color: c, priority, layer: Layer::Bg(2) }),
                    None => None::<Pixel>,
                },
        decreases 240 - x,
    {
        line[x] = match colors[x] {
            Some(c) => Some(Pixel { color: c, priority, layer: Layer::Bg(2) }),
            None => None,
        };
        x += 1;
    }
}

/// Draws line `ctx.v_count` of a drawn background into an empty line.
fn render_bg_line(
    ctx: &ScanlineContext,
    bg: usize,
    control: BgControl,
    scroll: (u16, u16),
    affine: (i32, i32, i32, i32),
) -> (line: [Option<Pixel>; 240])
    requires
        spec_bg_render_ready(ctx),
        ctx.v_count < 160,
        bg < 4,
        spec_bg_drawn(*ctx.lcd_control, bg as int),
        scroll.0 <= 511,
        scroll.1 <= 511,
        spec_bg_is_affine(ctx.lcd_control.spec_bg_mode(), bg as int) ==> spec_affine_inputs(
            affine.0,
            affine.1,
            affine.2,
            affine.3,
        ) && spec_affine_rows_fit(control, affine.0, affine.1, affine.2, affine.3),
    ensures
        forall|x: int|
            0 <= x < 240 ==> #[trigger] line@[x] == spec_bg_pixel(ctx, bg as int, control, scroll, affine, x),
{
    let mut line: [Option<Pixel>; 240] = [None; 240];
    let mode = ctx.lcd_control.bg_mode();
    let is_affine = match mode {
        BgMode::Mode1 => bg == 2,
        BgMode::Mode2 => bg == 2 || bg == 3,
        _ => false,
    };
    if is_affine {
        render_affine_scanline(ctx, bg, control, affine.0, affine.1, affine.2, affine.3, &mut line);
    } else {
        match mode {
            BgMode::Mode0 | BgMode::Mode1 => {
                render_text_scanline(ctx, bg, control, scroll.0, scroll.1, &mut line);
            },
            BgMode::Mode3 => {
                let mut colors: [Option<u16>; 240] = [None; 240];
                render_mode3(ctx, &mut colors);
                bitmap_pixels(&colors, control.priority(), &mut line);
            },
            BgMode::Mode4 => {
                let mut colors: [Option<u16>; 240] = [None; 240];
                render_mode4(ctx, &mut colors);
                bitmap_pixels(&colors, control.priority(), &mut line);
            },
            BgMode::Mode5 => {
                let mut colors: [Option<u16>; 240] = [None; 240];
                render_mode5(ctx, &mut colors);
                bitmap_pixels(&colors, control.priority(), &mut line);
            },
            _ => {},
        }
    }
    line
}

/// The backdrop of a line: color 0 of the background palette.
pub open spec fn spec_backdrop(ctx: &ScanlineContext) -> Pixel {
    Pixel { color: spec_le_u16(ctx.palette_ram@[0], ctx.palette_ram@[1]), priority: 4, layer: Layer::Backdrop }
}

/// The priorities of the four backgrounds.
pub open spec fn spec_bg_priorities(bg_controls: Seq<BgControl>) -> Seq<u8> {
    Seq::new(4, |b: int| bg_controls[b].spec_priority())
}

/// The pixels of the four backgrounds at column `x`.
pub open spec fn spec_bg_pixels(
    ctx: &ScanlineContext,
    bg_controls: Seq<BgControl>,
    scrolls: Seq<(u16, u16)>,
    affine: Seq<(i32, i32, i32, i32)>,
    x: int,
) -> Seq<Option<Pixel>> {
    Seq::new(4, |b: int| spec_bg_pixel(ctx, b, bg_controls[b], scrolls[b], affine[b], x))
}

/// The object pixel at column `x`, where DISPCNT shows objects.
pub open spec fn spec_obj_pixel_at(ctx: &ScanlineContext, x: int) -> Option<Pixel> {
    if ctx.lcd_control.spec_screen_display_obj() {
        spec_first_obj_pixel(ctx, spec_visible_objects(ctx), x, 0)
    } else {
        None
    }
}

/// The two topmost pixels at column `x` of the line: the layer stack of the
/// drawn backgrounds in drawing order and of the object layer, under the
/// windows' choices for that dot, with the backdrop below.
pub open spec fn spec_scanline_pair(
    ctx: &ScanlineContext,
    bg_controls: Seq<BgControl>,
    scrolls: Seq<(u16, u16)>,
    affine: Seq<(i32, i32, i32, i32)>,
    win_bg: Seq<bool>,
    win_obj: bool,
    x: int,
) -> (Pixel, Pixel) {
    let priorities = spec_bg_priorities(bg_controls);
    let stack = spec_layer_stack(
        spec_bg_pixels(ctx, bg_controls, scrolls, affine, x),
        spec_obj_pixel_at(ctx, x),
        spec_bg_order(*ctx.lcd_control, priorities),
        priorities,
        win_bg,
        win_obj,
    );
    (
        spec_layer_or_backdrop(stack, 0, spec_backdrop(ctx)),
        spec_layer_or_backdrop(stack, 1, spec_backdrop(ctx)),
    )
}

/// The white of a blanked line.
pub open spec fn spec_white() -> Pixel {
    Pixel { color: 0x7FFF, priority: 4, layer: Layer::Backdrop }
}

/// Draws line `ctx.v_count`. With forced blank the line is white: every
/// column of `row` holds white (BGR555 0x7FFF, 0xFFFFFF as RGB) for both
/// layers, nothing else is drawn, and `true` comes back, telling the caller
/// that no color effect applies to the line. Otherwise the drawn backgrounds are
/// rendered (text, affine or bitmap as the video mode has it), the object
/// layer where DISPCNT shows objects (setting `win_obj_line` where an
/// object-window object is opaque), and each column of `row` gets the two
/// topmost pixels of the layer stack under the window choices `win_bg` and
/// `win_obj` of that column. The mosaic of `ctx` holds this line's source
/// lines (`Mosaic::update_sources` has run for it).
pub fn render_scanline(
    ctx: &ScanlineContext,
    bg_controls: &[BgControl; 4],
    scrolls: &[(u16, u16); 4],
    affine: &[(i32, i32, i32, i32); 4],
    win_bg: &[[bool; 4]; 240],
    win_obj: &[bool; 240],
    object: &mut Object,
    win_obj_line: &mut [bool; 240],
    row: &mut [(Pixel, Pixel); 240],
) -> (forced_blank: bool)
    requires
        spec_scanline_ready(ctx, bg_controls@, scrolls@, affine@),
    ensures
        forced_blank == ctx.lcd_control.spec_forced_blank(),
        forced_blank ==> final(win_obj_line)@ == old(win_obj_line)@,
        forced_blank ==> forall|x: int|
            0 <= x < 240 ==> #[trigger] final(row)@[x] == (spec_white(), spec_white()),
        forced_blank ==> forall|x: int|
            0 <= x < 240 ==> spec_bgr555_to_rgb888((#[trigger] final(row)@[x]).0.color) == 0x00FF_FFFF,
        !forced_blank ==> forall|x: int|
            0 <= x < 240 ==> #[trigger] final(row)@[x] == spec_scanline_pair(
                ctx,
                bg_controls@,
                scrolls@,
                affine@,
                win_bg@[x]@,
                win_obj@[x],
                x,
            ),
        !forced_blank ==> forall|x: int|
            0 <= x < 240 ==> #[trigger] final(win_obj_line)@[x] == (ctx.lcd_control.spec_screen_display_obj()
                && spec_any_obj_window(ctx, spec_visible_objects(ctx), x, 0)),
{
    if ctx.lcd_control.forced_blank() {
        let white = Pixel::backdrop(0x7FFF);
        proof {
            assert(spec_bgr555_to_rgb888(0x7FFF) == 0x00FF_FFFF) by (bit_vector);
        }
        let mut x: usize = 0;
        while x < 240
            invariant
                x <= 240,
                white == spec_white(),
                spec_bgr555_to_rgb888(0x7FFF) == 0x00FF_FFFF,
                forall|i: int| 0 <= i < x ==> #[trigger] row@[i] == (spec_white(), spec_white()),
            decreases 240 - x,
        {
            row[x] = (white, white);
            x += 1;
        }
        return true;
    }
    let priorities: [u8; 4] = [
        bg_controls[0].priority(),
        bg_controls[1].priority(),
        bg_controls[2].priority(),
        bg_controls[3].priority(),
    ];
    assert(priorities@ =~= spec_bg_priorities(bg_controls@));
    let order = scanline_bg_order(ctx.lcd_control, &priorities);
    let empty: [Option<Pixel>; 240] = [None; 240];
    let mut lines: [[Option<Pixel>; 240]; 4] = [empty, empty, empty, empty];
    let mut bg: usize = 0;
    while bg < 4
        invariant
            bg <= 4,
            spec_scanline_ready(ctx, bg_controls@, scrolls@, affine@),
            forall|b: int, x: int|
                0 <= b < 4 && 0 <= x < 240 ==> #[trigger] lines@[b]@[x] == if b < bg {
                    spec_bg_pixel(ctx, b, bg_controls@[b], scrolls@[b], affine@[b], x)
                } else {
                    None
                },
        decreases 4 - bg,
    {
        if ctx.lcd_control.bg_mode_supported(bg) && ctx.lcd_control.bg_enabled(bg) {
            assert(scrolls@[bg as int].0 <= 511);
            let line = render_bg_line(ctx, bg, bg_controls[bg], scrolls[bg], affine[bg]);
            lines[bg] = line;
        }
        bg += 1;
    }
    let mut obj_line: [Option<Pixel>; 240] = [None; 240];
    let mut win_line: [bool; 240] = [false; 240];
    if ctx.lcd_control.screen_display_obj() {
        object.render_obj_scanline(ctx, &mut obj_line, &mut win_line);
    }
    let backdrop = Pixel::backdrop(le_u16(ctx.palette_ram[0], ctx.palette_ram[1]));
    let mut x: usize = 0;
    while x < 240
        invariant
            x <= 240,
            !ctx.lcd_control.spec_forced_blank(),
            spec_scanline_ready(ctx, bg_controls@, scrolls@, affine@),
            priorities@ == spec_bg_priorities(bg_controls@),
            order@ == spec_bg_order(*ctx.lcd_control, priorities@),
            forall|j: int| 0 <= j < order@.len() ==> order@[j] < 4,
            backdrop == spec_backdrop(ctx),
            forall|b: int, i: int|
                0 <= b < 4 && 0 <= i < 240 ==> #[trigger] lines@[b]@[i] == spec_bg_pixel(
                    ctx,
                    b,
                    bg_controls@[b],
                    scrolls@[b],
                    affine@[b],
                    i,
                ),
            forall|i: int| 0 <= i < 240 ==> #[trigger] obj_line@[i] == spec_obj_pixel_at(ctx, i),
            forall|i: int|
                0 <= i < 240 ==> #[trigger] win_line@[i] == (ctx.lcd_control.spec_screen_display_obj()
                    && spec_any_obj_window(ctx, spec_visible_objects(ctx), i, 0)),
            forall|i: int|
                0 <= i < x ==> #[trigger] row@[i] == spec_scanline_pair(
                    ctx,
                    bg_controls@,
                    scrolls@,
                    affine@,
                    win_bg@[i]@,
                    win_obj@[i],
                    i,
                ),
        decreases 240 - x,
    {
        let pixels: [Option<Pixel>; 4] = [lines[0][x], lines[1][x], lines[2][x], lines[3][x]];
        assert(pixels@ =~= spec_bg_pixels(ctx, bg_controls@, scrolls@, affine@, x as int));
        let windows: [bool; 4] = win_bg[x];
        row[x] = composite_layers(
            &pixels,
            obj_line[x],
            order.as_slice(),
            &priorities,
            &windows,
            win_obj[x],
            backdrop,
        );
        x += 1;
    }
    *win_obj_line = win_line;
    false
}

} // verus!
