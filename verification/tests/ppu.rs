use ironboyadvance::gba::events::InterruptEvent;
use ironboyadvance::gba::ppu::{render_scanline, scanline_bg_order, set_v_count};
use ironboyadvance::common::memory::SystemMemoryAccess;
use ironboyadvance::common::register_ops::RegisterOps;
use ironboyadvance::gba::ppu::background::TextBgScreenEntry;
use ironboyadvance::gba::ppu::bitmap::{render_mode3, render_mode4, render_mode5};
use ironboyadvance::gba::ppu::color::{bgr555_to_rgb888, ColorMode};
use ironboyadvance::gba::ppu::lcd::{BgMode, FrameSelection, LcdControl, LcdStatus};
use ironboyadvance::gba::ppu::mosaic::Mosaic;
use ironboyadvance::gba::ppu::object::{Object, ObjectEntry};
use ironboyadvance::gba::ppu::registers::{BgControl, CharacterBaseBlock, ScreenBaseBlock, ScreenSize};
use ironboyadvance::gba::ppu::tiles::{render_affine_scanline, render_text_scanline};
use ironboyadvance::gba::ppu::{Layer, Pixel, ScanlineContext};

#[test]
fn bgr555_widens_each_channel() {
    assert_eq!(bgr555_to_rgb888(0x7FFF), 0xFFFFFF);
    assert_eq!(bgr555_to_rgb888(0x0000), 0x000000);
    assert_eq!(bgr555_to_rgb888(0x001F), 0xFF0000);
    assert_eq!(bgr555_to_rgb888(0x03E0), 0x00FF00);
    assert_eq!(bgr555_to_rgb888(0x7C00), 0x0000FF);
    assert_eq!(bgr555_to_rgb888(0x0010), 0x840000);
}

#[test]
fn palette_indices_of_tiles() {
    let mut tile = [0u8; 64];
    tile[0] = 0x21;
    tile[13] = 0x40;
    assert_eq!(ColorMode::Color16.palette_index(&tile, 0, 0, 2), 33);
    assert_eq!(ColorMode::Color16.palette_index(&tile, 1, 0, 2), 34);
    assert_eq!(ColorMode::Color16.palette_index(&tile, 2, 0, 2), 0);
    assert_eq!(ColorMode::Color16.palette_index(&tile, 3, 3, 0), 4);
    assert_eq!(ColorMode::Color256.palette_index(&tile, 0, 0, 0), 0x21);
    assert_eq!(ColorMode::Color256.palette_index(&tile, 5, 1, 0), 0x40);
    assert_eq!(ColorMode::Color16.bytes_per_tile(), 32);
    assert_eq!(ColorMode::Color256.bytes_per_tile(), 64);
}

#[test]
fn screen_sizes_and_entry_indices() {
    assert_eq!(ScreenSize::Size1.text_map_pixel_size(), (512, 256));
    assert_eq!(ScreenSize::Size2.text_map_pixel_size(), (256, 512));
    assert_eq!(ScreenSize::Size3.affine_map_pixel_size(), 1024);
    assert_eq!(ScreenSize::Size1.text_screen_entry_index(33, 5), 1024 + 5 * 32 + 1);
    assert_eq!(ScreenSize::Size3.text_screen_entry_index(33, 40), 3 * 1024 + 8 * 32 + 1);
    assert_eq!(ScreenSize::Size2.text_screen_entry_index(33, 40), 2 * 1024 + 8 * 32 + 1);
    assert_eq!(ScreenSize::Size0.affine_screen_entry_index(3, 2), 35);
    assert_eq!(CharacterBaseBlock::from_bits(0b111).vram_offset(), 0xC000);
    assert_eq!(ScreenBaseBlock::from_bits(0xFF).vram_offset(), 0xF800);
}

#[test]
fn prohibited_video_modes_read_as_seven() {
    let control = LcdControl::from_bits(0x0006);
    assert_eq!(control.bg_mode(), BgMode::Prohibited);
    assert_eq!(control.into_bits(), 0x0007);
    assert_eq!(LcdControl::from_bits(0x0103).into_bits(), 0x0103);
}

#[test]
fn each_mode_has_its_backgrounds() {
    let mode1 = LcdControl::from_bits(0x0501);
    assert!(mode1.bg_mode_supported(2));
    assert!(!mode1.bg_mode_supported(3));
    assert!(mode1.bg_enabled(0));
    assert!(!mode1.bg_enabled(1));
    assert!(mode1.bg_enabled(2));
    let mode2 = LcdControl::from_bits(0x0002);
    assert!(!mode2.bg_mode_supported(0));
    assert!(mode2.bg_mode_supported(3));
    assert!(LcdControl::from_bits(0x0004).bg_mode_supported(2));
    assert!(!LcdControl::from_bits(0x0007).bg_mode_supported(2));
    assert!(!LcdControl::from_bits(0x0000).bg_mode_supported(4));
    assert!(!LcdControl::from_bits(0x0000).any_window_enabled());
    assert!(LcdControl::from_bits(0x8000).any_window_enabled());
    assert_eq!(FrameSelection::Frame1.base_address(), 0xA000);
}

#[test]
fn dispstat_writes_clear_the_status_flags() {
    let mut status = LcdStatus::from_bits(0x0007);
    status.write_register(0xFFFF);
    assert_eq!(status.into_bits(), 0xFF38);
    assert!(!status.v_blank_flag());
    assert_eq!(status.v_count_setting(), 0xFF);
}

#[test]
fn mosaic_blocks_keep_their_source_line() {
    let mut mosaic = Mosaic::new();
    mosaic.write_8(0x0400004C, 0x20);
    mosaic.write_8(0x0400004D, 0x10);
    assert_eq!(mosaic.read_8(0x0400004C), 0);
    assert_eq!(mosaic.size().bg_mosaic_v(), 2);
    assert_eq!(mosaic.size().obj_mosaic_v(), 1);
    mosaic.update_sources(3);
    assert_eq!(mosaic.bg_source_y(), 3);
    mosaic.update_sources(4);
    assert_eq!(mosaic.bg_source_y(), 3);
    assert_eq!(mosaic.obj_source_y(), 4);
    mosaic.update_sources(5);
    assert_eq!(mosaic.obj_source_y(), 4);
    mosaic.update_sources(6);
    assert_eq!(mosaic.bg_source_y(), 6);
    mosaic.update_sources(0);
    assert_eq!(mosaic.bg_source_y(), 0);
    assert_eq!(mosaic.obj_source_y(), 0);
}

#[test]
fn screen_entry_flips() {
    assert_eq!(TextBgScreenEntry::from_bits(0x0C00).apply_flip(1, 2), (6, 5));
    assert_eq!(TextBgScreenEntry::from_bits(0x0400).apply_flip(1, 2), (6, 2));
    assert_eq!(TextBgScreenEntry::from_bits(0x0000).apply_flip(1, 2), (1, 2));
}

struct Memories {
    vram: Vec<u8>,
    palette_ram: Vec<u8>,
    oam: Vec<u8>,
}

fn memories() -> Memories {
    Memories { vram: vec![0; 0x18000], palette_ram: vec![0; 0x400], oam: vec![0; 0x400] }
}

fn context<'a>(m: &'a Memories, lcd_control: &'a LcdControl, mosaic: &'a Mosaic, v_count: u8) -> ScanlineContext<'a> {
    ScanlineContext {
        vram: &m.vram,
        palette_ram: &m.palette_ram,
        oam: &m.oam,
        lcd_control,
        mosaic,
        v_count,
    }
}

#[test]
fn an_object_draws_its_opaque_pixels() {
    let mut m = memories();
    // Object 0: y 10, square 8x8, 16 colors; x 20; tile 0, palette bank 1, priority 2.
    m.oam[0] = 10;
    m.oam[2] = 20;
    m.oam[5] = 0x18;
    m.vram[0x10000] = 0x03;
    m.palette_ram[0x200 + 19 * 2] = 0x34;
    m.palette_ram[0x200 + 19 * 2 + 1] = 0x12;
    // Every other slot holds an 8x8 object at line 0, which misses line 10.
    let lcd = LcdControl::from_bits(0x1000);
    let mosaic = Mosaic::new();
    let ctx = context(&m, &lcd, &mosaic, 10);
    let mut object = Object::new();
    let mut obj_line = [None; 240];
    let mut win_obj_line = [false; 240];
    object.render_obj_scanline(&ctx, &mut obj_line, &mut win_obj_line);
    assert_eq!(
        obj_line[20],
        Some(Pixel { color: 0x1234, priority: 2, layer: Layer::Obj { semi_transparent: false } })
    );
    assert_eq!(obj_line[21], None);
    assert_eq!(obj_line[19], None);
    assert!(win_obj_line.iter().all(|w| !w));
    let ctx = context(&m, &lcd, &mosaic, 18);
    let mut obj_line = [None; 240];
    object.render_obj_scanline(&ctx, &mut obj_line, &mut win_obj_line);
    assert!(obj_line.iter().all(|p| p.is_none()));
}

#[test]
fn earlier_objects_are_drawn_on_top() {
    let mut m = memories();
    for slot in 0..2 {
        let base = slot * 8;
        m.oam[base] = 10;
        m.oam[base + 2] = 20;
        m.oam[base + 4] = slot as u8;
    }
    for slot in 2..128 {
        m.oam[slot * 8 + 1] = 0x02;
    }
    m.vram[0x10000] = 0x01;
    m.vram[0x10020] = 0x22;
    m.palette_ram[0x202] = 0x11;
    m.palette_ram[0x204] = 0x22;
    let lcd = LcdControl::from_bits(0x1000);
    let mosaic = Mosaic::new();
    let ctx = context(&m, &lcd, &mosaic, 10);
    let mut object = Object::new();
    let mut obj_line = [None; 240];
    let mut win_obj_line = [false; 240];
    object.render_obj_scanline(&ctx, &mut obj_line, &mut win_obj_line);
    assert_eq!(obj_line[20].map(|p| p.color), Some(0x0011));
    assert_eq!(obj_line[21].map(|p| p.color), Some(0x0022));
    let entry = ObjectEntry::from_oam(&m.oam[0..8]);
    assert!(entry.is_visible(12));
    assert_eq!(entry.obj_map_pixel_size(), Some((8, 8)));
    assert_eq!(entry.total_object_pixel_size(), Some((8, 8)));
    assert!(!ObjectEntry::from_oam(&m.oam[16..24]).is_visible(12));
}

#[test]
fn object_window_pixels_mark_the_window_line() {
    let mut m = memories();
    m.oam[0] = 0;
    m.oam[1] = 0x08;
    m.oam[2] = 5;
    m.vram[0x10000] = 0x0F;
    for slot in 1..128 {
        m.oam[slot * 8 + 1] = 0x02;
    }
    let lcd = LcdControl::from_bits(0x1000);
    let mosaic = Mosaic::new();
    let ctx = context(&m, &lcd, &mosaic, 0);
    let mut object = Object::new();
    let mut obj_line = [None; 240];
    let mut win_obj_line = [false; 240];
    object.render_obj_scanline(&ctx, &mut obj_line, &mut win_obj_line);
    assert!(win_obj_line[5]);
    assert!(!win_obj_line[6]);
    assert_eq!(obj_line[5], None);
}

#[test]
fn a_text_background_draws_from_its_map() {
    let mut m = memories();
    // Screen entry 0: tile 1, palette bank 0.
    m.vram[0] = 0x01;
    // Tile 1 (16 colors) at 0x20: pixel (0, 0) has index 5.
    m.vram[0x20] = 0x05;
    m.palette_ram[10] = 0x00;
    m.palette_ram[11] = 0x7C;
    let lcd = LcdControl::from_bits(0x0100);
    let mosaic = Mosaic::new();
    let ctx = context(&m, &lcd, &mosaic, 0);
    let mut line = [None; 240];
    render_text_scanline(&ctx, 0, BgControl::from_bits(0x0001), 0, 0, &mut line);
    assert_eq!(line[0], Some(Pixel { color: 0x7C00, priority: 1, layer: Layer::Bg(0) }));
    assert_eq!(line[1], None);
    let mut line = [None; 240];
    render_text_scanline(&ctx, 0, BgControl::from_bits(0x0001), 255, 0, &mut line);
    assert_eq!(line[1].map(|p| p.color), Some(0x7C00));
    let mut wrapped = [None; 240];
    render_text_scanline(&ctx, 0, BgControl::from_bits(0x0001), 255 + 256, 0, &mut wrapped);
    assert_eq!(line, wrapped);
}

#[test]
fn an_affine_background_clears_outside_a_transparent_map() {
    let m = memories();
    let lcd = LcdControl::from_bits(0x0402);
    let mosaic = Mosaic::new();
    let ctx = context(&m, &lcd, &mosaic, 0);
    let backdrop = Some(Pixel::backdrop(0x1234));
    let mut line = [backdrop; 240];
    render_affine_scanline(&ctx, 2, BgControl::from_bits(0x0000), 0x100, 0, -0x100, 0, &mut line);
    assert_eq!(line[0], None);
    assert_eq!(line[1], backdrop);
    assert_eq!(line[128], backdrop);
    assert_eq!(line[129], None);
}

#[test]
fn bitmap_modes_read_vram() {
    let mut m = memories();
    m.vram[(2 * 240 + 3) * 2] = 0x21;
    m.vram[(2 * 240 + 3) * 2 + 1] = 0x43;
    m.vram[0xA000 + 2 * 240 + 4] = 7;
    m.palette_ram[14] = 0x99;
    m.vram[0xA000 + (2 * 160 + 1) * 2] = 0x55;
    let mosaic = Mosaic::new();
    let lcd = LcdControl::from_bits(0x0413);
    let ctx = context(&m, &lcd, &mosaic, 2);
    let mut line = [None; 240];
    render_mode3(&ctx, &mut line);
    assert_eq!(line[3], Some(0x4321));
    assert_eq!(line[4], Some(0));
    let mut line = [None; 240];
    render_mode4(&ctx, &mut line);
    assert_eq!(line[4], Some(0x0099));
    assert_eq!(line[5], None);
    let mut line = [None; 240];
    render_mode5(&ctx, &mut line);
    assert_eq!(line[1], Some(0x0055));
    assert_eq!(line[200], None);
}

#[test]
fn v_count_match_sets_flag_and_raises_interrupt() {
    let mut status = LcdStatus::from_bits(0x0520);
    let mut v_count: u8 = 0;
    assert_eq!(set_v_count(&mut status, &mut v_count, 5), Some(InterruptEvent::LcdVCounterMatch));
    assert_eq!(v_count, 5);
    assert!(status.v_counter_flag());
    assert_eq!(set_v_count(&mut status, &mut v_count, 6), None);
    assert!(!status.v_counter_flag());
    // Without the interrupt enabled the flag still follows the match.
    let mut quiet = LcdStatus::from_bits(0x0500);
    assert_eq!(set_v_count(&mut quiet, &mut v_count, 5), None);
    assert!(quiet.v_counter_flag());
}

#[test]
fn backgrounds_are_ordered_by_priority_then_index() {
    let all_on = LcdControl::from_bits(0x0F00);
    assert_eq!(scanline_bg_order(&all_on, &[2, 1, 2, 0]), vec![3, 1, 0, 2]);
    assert_eq!(scanline_bg_order(&all_on, &[1, 1, 1, 1]), vec![0, 1, 2, 3]);
    // Mode 1 has no background 3; mode 2 only 2 and 3; mode 3 only 2.
    assert_eq!(scanline_bg_order(&LcdControl::from_bits(0x0F01), &[2, 1, 2, 0]), vec![1, 0, 2]);
    assert_eq!(scanline_bg_order(&LcdControl::from_bits(0x0F02), &[0, 0, 3, 1]), vec![3, 2]);
    assert_eq!(scanline_bg_order(&LcdControl::from_bits(0x0F03), &[0, 0, 3, 1]), vec![2]);
    // Switched-off backgrounds are left out.
    assert_eq!(scanline_bg_order(&LcdControl::from_bits(0x0500), &[3, 0, 1, 0]), vec![2, 0]);
}

fn text_line_setup() -> Memories {
    let mut m = memories();
    // Backdrop color, and color 1 of the background palette.
    m.palette_ram[0] = 0x34;
    m.palette_ram[1] = 0x12;
    m.palette_ram[2] = 0x00;
    m.palette_ram[3] = 0x7C;
    // Tile 0 of character block 1: its top-left pixel uses color 1.
    m.vram[0x4000] = 0x01;
    m
}

#[test]
fn render_scanline_draws_a_text_background_over_the_backdrop() {
    let m = text_line_setup();
    let lcd = LcdControl::from_bits(0x0100);
    let mosaic = Mosaic::new();
    let ctx = context(&m, &lcd, &mosaic, 0);
    let controls = [BgControl::from_bits(0x0004); 4];
    let backdrop = Pixel::backdrop(0x1234);
    let mut object = Object::new();
    let mut win_line = [true; 240];
    let mut row = [(backdrop, backdrop); 240];
    let forced = render_scanline(
        &ctx,
        &controls,
        &[(0, 0); 4],
        &[(0, 0, 0, 0); 4],
        &[[true; 4]; 240],
        &[true; 240],
        &mut object,
        &mut win_line,
        &mut row,
    );
    assert!(!forced);
    let drawn = Pixel { color: 0x7C00, priority: 0, layer: Layer::Bg(0) };
    assert_eq!(row[0], (drawn, backdrop));
    assert_eq!(row[1], (backdrop, backdrop));
    // The tile repeats every 8 columns.
    assert_eq!(row[8], (drawn, backdrop));
    // Objects are off: no object window.
    assert!(win_line.iter().all(|w| !w));
}

#[test]
fn render_scanline_honours_the_background_window() {
    let m = text_line_setup();
    let lcd = LcdControl::from_bits(0x0100);
    let mosaic = Mosaic::new();
    let ctx = context(&m, &lcd, &mosaic, 0);
    let controls = [BgControl::from_bits(0x0004); 4];
    let backdrop = Pixel::backdrop(0x1234);
    let mut object = Object::new();
    let mut win_line = [false; 240];
    let mut row = [(backdrop, backdrop); 240];
    render_scanline(
        &ctx,
        &controls,
        &[(0, 0); 4],
        &[(0, 0, 0, 0); 4],
        &[[false; 4]; 240],
        &[true; 240],
        &mut object,
        &mut win_line,
        &mut row,
    );
    assert_eq!(row[0], (backdrop, backdrop));
}

#[test]
fn render_scanline_in_forced_blank_draws_white() {
    let m = text_line_setup();
    let lcd = LcdControl::from_bits(0x0180);
    let mosaic = Mosaic::new();
    let ctx = context(&m, &lcd, &mosaic, 0);
    let marker = Pixel::backdrop(0x0001);
    let mut object = Object::new();
    let mut win_line = [true; 240];
    let mut row = [(marker, marker); 240];
    let forced = render_scanline(
        &ctx,
        &[BgControl::from_bits(0x0004); 4],
        &[(0, 0); 4],
        &[(0, 0, 0, 0); 4],
        &[[true; 4]; 240],
        &[true; 240],
        &mut object,
        &mut win_line,
        &mut row,
    );
    assert!(forced);
    let white = Pixel::backdrop(0x7FFF);
    assert!(row.iter().all(|pair| *pair == (white, white)));
    assert_eq!(bgr555_to_rgb888(row[0].0.color), 0x00FF_FFFF);
    assert!(win_line[0]);
}

#[test]
fn render_scanline_mode3_pixels_belong_to_background_2() {
    let mut m = memories();
    m.vram[0] = 0x1F;
    m.vram[1] = 0x00;
    let lcd = LcdControl::from_bits(0x0403);
    let mosaic = Mosaic::new();
    let ctx = context(&m, &lcd, &mosaic, 0);
    let controls = [BgControl::from_bits(0x0001); 4];
    let backdrop = Pixel::backdrop(0);
    let mut object = Object::new();
    let mut win_line = [false; 240];
    let mut row = [(backdrop, backdrop); 240];
    render_scanline(
        &ctx,
        &controls,
        &[(0, 0); 4],
        &[(0, 0, 0, 0); 4],
        &[[true; 4]; 240],
        &[true; 240],
        &mut object,
        &mut win_line,
        &mut row,
    );
    assert_eq!(row[0], (Pixel { color: 0x001F, priority: 1, layer: Layer::Bg(2) }, backdrop));
    assert_eq!(row[1], (Pixel { color: 0x0000, priority: 1, layer: Layer::Bg(2) }, backdrop));
}
