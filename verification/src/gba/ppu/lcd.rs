use crate::common::register_ops::{RegisterOps, RegisterWord};
use crate::gba::bitfield::{field16, get16, lemma_field16_bound, set16, with_field16};
use vstd::prelude::*;

verus! {

/// The video mode of DISPCNT; 6 and 7 are prohibited.
#[derive(Debug, Copy, Clone, PartialEq, Eq, Structural)]
pub enum BgMode {
    Mode0,
    Mode1,
    Mode2,
    Mode3,
    Mode4,
    Mode5,
    Prohibited,
}

impl BgMode {
    pub open spec fn spec_from_bits(bits: u8) -> Self {
        if bits == 0 {
            BgMode::Mode0
        } else if bits == 1 {
            BgMode::Mode1
        } else if bits == 2 {
            BgMode::Mode2
        } else if bits == 3 {
            BgMode::Mode3
        } else if bits == 4 {
            BgMode::Mode4
        } else if bits == 5 {
            BgMode::Mode5
        } else {
            BgMode::Prohibited
        }
    }

    pub open spec fn spec_into_bits(self) -> u8 {
        match self {
            BgMode::Mode0 => 0,
            BgMode::Mode1 => 1,
            BgMode::Mode2 => 2,
            BgMode::Mode3 => 3,
            BgMode::Mode4 => 4,
            BgMode::Mode5 => 5,
            BgMode::Prohibited => 255,
        }
    }

    pub fn from_bits(bits: u8) -> (r: Self)
        ensures
            r == Self::spec_from_bits(bits),
    {
        match bits {
            0 => BgMode::Mode0,
            1 => BgMode::Mode1,
            2 => BgMode::Mode2,
            3 => BgMode::Mode3,
            4 => BgMode::Mode4,
            5 => BgMode::Mode5,
            _ => BgMode::Prohibited,
        }
    }

    pub fn into_bits(self) -> (r: u8)
        ensures
            r == self.spec_into_bits(),
    {
        match self {
            BgMode::Mode0 => 0,
            BgMode::Mode1 => 1,
            BgMode::Mode2 => 2,
            BgMode::Mode3 => 3,
            BgMode::Mode4 => 4,
            BgMode::Mode5 => 5,
            BgMode::Prohibited => 255,
        }
    }
}

/// The frame that the bitmap modes 4 and 5 show.
#[derive(Debug, Copy, Clone, PartialEq, Eq, Structural)]
pub enum FrameSelection {
    Frame0,
    Frame1,
}

impl FrameSelection {
    pub open spec fn spec_from_bits(bits: u8) -> Self {
        if bits == 1 {
            FrameSelection::Frame1
        } else {
            FrameSelection::Frame0
        }
    }

    pub open spec fn spec_into_bits(self) -> u8 {
        match self {
            FrameSelection::Frame0 => 0,
            FrameSelection::Frame1 => 1,
        }
    }

    pub fn from_bits(bits: u8) -> (r: Self)
        ensures
            r == Self::spec_from_bits(bits),
    {
        match bits {
            1 => FrameSelection::Frame1,
            _ => FrameSelection::Frame0,
        }
    }

    pub fn into_bits(self) -> (r: u8)
        ensures
            r == self.spec_into_bits(),
    {
        match self {
            FrameSelection::Frame0 => 0,
            FrameSelection::Frame1 => 1,
        }
    }

    /// Where the frame's bitmap starts in VRAM.
    pub fn base_address(self) -> (r: usize)
        ensures
            r == (if self == FrameSelection::Frame0 { 0usize } else { 0xA000usize }),
    {
        match self {
            FrameSelection::Frame0 => 0,
            FrameSelection::Frame1 => 0xA000,
        }
    }

}

/// Whether the video mode draws background `bg`.
pub open spec fn spec_mode_has_bg(mode: BgMode, bg: int) -> bool {
    match mode {
        BgMode::Mode0 => 0 <= bg < 4,
        BgMode::Mode1 => 0 <= bg < 3,
        BgMode::Mode2 => bg == 2 || bg == 3,
        BgMode::Prohibited => false,
        _ => bg == 2,
    }
}

/// DISPCNT. A prohibited video mode is held as 7.
#[derive(Debug, Copy, Clone, PartialEq, Eq, Structural)]
pub struct LcdControl {
    bits: u16,
}

impl View for LcdControl {
    type V = u16;

    closed spec fn view(&self) -> u16 {
        self.bits
    }
}

impl LcdControl {
    /// The bits the register holds when `bits` are loaded into it.
    pub open spec fn spec_normalized(bits: u16) -> u16 {
        if bits & 7 >= 6 { bits | 7 } else { bits }
    }

    fn normalized(bits: u16) -> (r: u16)
        ensures
            r == Self::spec_normalized(bits),
    {
        if bits & 7 >= 6 { bits | 7 } else { bits }
    }

    pub fn from_bits(bits: u16) -> (r: Self)
        ensures
            r@ == Self::spec_normalized(bits),
    {
        LcdControl { bits: Self::normalized(bits) }
    }

    pub fn into_bits(self) -> (r: u16)
        ensures
            r == self@,
    {
        self.bits
    }

    /// The bits the register holds after `bits` are written to it: fields
    /// reserved by the hardware keep their value.
    pub open spec fn spec_merged(current: u16, bits: u16) -> u16 {
        Self::spec_normalized(bits)
    }

    pub open spec fn spec_write_bits(self, bits: u16) -> u16 {
        Self::spec_merged(self@, bits)
    }

    pub fn write_bits(&mut self, bits: u16)
        ensures
            final(self)@ == old(self).spec_write_bits(bits),
    {
        self.bits = Self::normalized(bits);
    }

    pub open spec fn spec_bg_mode(self) -> BgMode {
        BgMode::spec_from_bits(field16(self@, 0, 3) as u8)
    }

    pub fn bg_mode(&self) -> (r: BgMode)
        ensures
            r == self.spec_bg_mode(),
    {
        proof {
            lemma_field16_bound(self.bits, 0, 3);
        }
        BgMode::from_bits(get16(self.bits, 0, 3) as u8)
    }

    pub open spec fn spec_cgb_mode(self) -> bool {
        field16(self@, 3, 1) == 1
    }

    pub fn cgb_mode(&self) -> (r: bool)
        ensures
            r == self.spec_cgb_mode(),
    {
        get16(self.bits, 3, 1) == 1
    }

    pub open spec fn spec_display_frame_select(self) -> FrameSelection {
        FrameSelection::spec_from_bits(field16(self@, 4, 1) as u8)
    }

    pub fn display_frame_select(&self) -> (r: FrameSelection)
        ensures
            r == self.spec_display_frame_select(),
    {
        proof {
            lemma_field16_bound(self.bits, 4, 1);
        }
        FrameSelection::from_bits(get16(self.bits, 4, 1) as u8)
    }

    pub open spec fn spec_h_blank_interval_free(self) -> bool {
        field16(self@, 5, 1) == 1
    }

    pub fn h_blank_interval_free(&self) -> (r: bool)
        ensures
            r == self.spec_h_blank_interval_free(),
    {
        get16(self.bits, 5, 1) == 1
    }

    pub open spec fn spec_obj_character_vram_mapping(self) -> bool {
        field16(self@, 6, 1) == 1
    }

    pub fn obj_character_vram_mapping(&self) -> (r: bool)
        ensures
            r == self.spec_obj_character_vram_mapping(),
    {
        get16(self.bits, 6, 1) == 1
    }

    pub open spec fn spec_forced_blank(self) -> bool {
        field16(self@, 7, 1) == 1
    }

    pub fn forced_blank(&self) -> (r: bool)
        ensures
            r == self.spec_forced_blank(),
    {
        get16(self.bits, 7, 1) == 1
    }

    pub open spec fn spec_screen_display_bg0(self) -> bool {
        field16(self@, 8, 1) == 1
    }

    pub fn screen_display_bg0(&self) -> (r: bool)
        ensures
            r == self.spec_screen_display_bg0(),
    {
        get16(self.bits, 8, 1) == 1
    }

    pub open spec fn spec_screen_display_bg1(self) -> bool {
        field16(self@, 9, 1) == 1
    }

    pub fn screen_display_bg1(&self) -> (r: bool)
        ensures
            r == self.spec_screen_display_bg1(),
    {
        get16(self.bits, 9, 1) == 1
    }

    pub open spec fn spec_screen_display_bg2(self) -> bool {
        field16(self@, 10, 1) == 1
    }

    pub fn screen_display_bg2(&self) -> (r: bool)
        ensures
            r == self.spec_screen_display_bg2(),
    {
        get16(self.bits, 10, 1) == 1
    }

    pub open spec fn spec_screen_display_bg3(self) -> bool {
        field16(self@, 11, 1) == 1
    }

    pub fn screen_display_bg3(&self) -> (r: bool)
        ensures
            r == self.spec_screen_display_bg3(),
    {
        get16(self.bits, 11, 1) == 1
    }

    pub open spec fn spec_screen_display_obj(self) -> bool {
        field16(self@, 12, 1) == 1
    }

    pub fn screen_display_obj(&self) -> (r: bool)
        ensures
            r == self.spec_screen_display_obj(),
    {
        get16(self.bits, 12, 1) == 1
    }

    pub open spec fn spec_window_0_display(self) -> bool {
        field16(self@, 13, 1) == 1
    }

    pub fn window_0_display(&self) -> (r: bool)
        ensures
            r == self.spec_window_0_display(),
    {
        get16(self.bits, 13, 1) == 1
    }

    pub open spec fn spec_window_1_display(self) -> bool {
        field16(self@, 14, 1) == 1
    }

    pub fn window_1_display(&self) -> (r: bool)
        ensures
            r == self.spec_window_1_display(),
    {
        get16(self.bits, 14, 1) == 1
    }

    pub open spec fn spec_obj_window_display(self) -> bool {
        field16(self@, 15, 1) == 1
    }

    pub fn obj_window_display(&self) -> (r: bool)
        ensures
            r == self.spec_obj_window_display(),
    {
        get16(self.bits, 15, 1) == 1
    }


    /// Whether background `bg` is switched on.
    pub fn bg_enabled(&self, bg: usize) -> (r: bool)
        requires
            bg < 4,
        ensures
            r == (field16(self@, (8 + bg) as u16, 1) == 1),
    {
        match bg {
            0 => self.screen_display_bg0(),
            1 => self.screen_display_bg1(),
            2 => self.screen_display_bg2(),
            _ => self.screen_display_bg3(),
        }
    }

    /// Whether the video mode has background `bg`: all four in mode 0, 0..=2
    /// in mode 1, 2 and 3 in mode 2, only 2 in the bitmap modes, none in the
    /// prohibited modes.
    pub fn bg_mode_supported(&self, bg: usize) -> (r: bool)
        requires
            bg < 32,
        ensures
            r == (bg < 4 && spec_mode_has_bg(self.spec_bg_mode(), bg as int)),
    {
        let allowed_bg_mask: u32 = match self.bg_mode() {
            BgMode::Mode0 => 0b1111,
            BgMode::Mode1 => 0b0111,
            BgMode::Mode2 => 0b1100,
            BgMode::Mode3 | BgMode::Mode4 | BgMode::Mode5 => 0b0100,
            BgMode::Prohibited => 0,
        };
        let r = (allowed_bg_mask >> bg) & 1 == 1;
        proof {
            let b = bg as u32;
            assert(((0b1111u32 >> b) & 1 == 1) == (b < 4)) by (bit_vector) requires b < 32;
            assert(((0b0111u32 >> b) & 1 == 1) == (b < 3)) by (bit_vector) requires b < 32;
            assert(((0b1100u32 >> b) & 1 == 1) == (b == 2 || b == 3)) by (bit_vector) requires b < 32;
            assert(((0b0100u32 >> b) & 1 == 1) == (b == 2)) by (bit_vector) requires b < 32;
            assert(((0u32 >> b) & 1 == 1) == false) by (bit_vector) requires b < 32;
        }
        r
    }

    pub fn any_window_enabled(&self) -> (r: bool)
        ensures
            r == (self.spec_window_0_display() || self.spec_window_1_display() || self.spec_obj_window_display()),
    {
        self.window_0_display() || self.window_1_display() || self.obj_window_display()
    }

}

impl RegisterOps<u16> for LcdControl {
    open spec fn spec_register(&self) -> u16 {
        self@
    }

    open spec fn spec_written(&self, bits: u16) -> u16 {
        self.spec_write_bits(bits)
    }

    open spec fn spec_read_mask(&self) -> u16 {
        0xFFFF
    }

    open spec fn spec_write_mask(&self) -> u16 {
        0xFFFF
    }

    fn register(&self) -> (r: u16) {
        self.bits
    }

    fn write_register(&mut self, bits: u16) {
        self.write_bits(bits);
    }

    fn read_mask(&self) -> (r: u16) {
        0xFFFF
    }

    fn write_mask(&self) -> (r: u16) {
        0xFFFF
    }
}

/// DISPSTAT. A CPU write leaves the reserved bits and takes the others from the
/// written value masked by 0xFF38, so it clears the three status flags.
#[derive(Debug, Copy, Clone, PartialEq, Eq, Structural)]
pub struct LcdStatus {
    bits: u16,
}

impl View for LcdStatus {
    type V = u16;

    closed spec fn view(&self) -> u16 {
        self.bits
    }
}

impl LcdStatus {
    pub fn from_bits(bits: u16) -> (r: Self)
        ensures
            r@ == bits,
    {
        LcdStatus { bits: bits }
    }

    pub fn into_bits(self) -> (r: u16)
        ensures
            r == self@,
    {
        self.bits
    }

    /// The bits the register holds after `bits` are written to it: fields
    /// reserved by the hardware keep their value.
    pub open spec fn spec_merged(current: u16, bits: u16) -> u16 {
        (current & 0x00C0) | (bits & !0x00C0)
    }

    pub open spec fn spec_write_bits(self, bits: u16) -> u16 {
        Self::spec_merged(self@, bits)
    }

    pub fn write_bits(&mut self, bits: u16)
        ensures
            final(self)@ == old(self).spec_write_bits(bits),
    {
        self.bits = (self.bits & 0x00C0) | (bits & !0x00C0);
    }

    pub open spec fn spec_v_blank_flag(self) -> bool {
        field16(self@, 0, 1) == 1
    }

    pub fn v_blank_flag(&self) -> (r: bool)
        ensures
            r == self.spec_v_blank_flag(),
    {
        get16(self.bits, 0, 1) == 1
    }

    pub open spec fn spec_h_blank_flag(self) -> bool {
        field16(self@, 1, 1) == 1
    }

    pub fn h_blank_flag(&self) -> (r: bool)
        ensures
            r == self.spec_h_blank_flag(),
    {
        get16(self.bits, 1, 1) == 1
    }

    pub open spec fn spec_v_counter_flag(self) -> bool {
        field16(self@, 2, 1) == 1
    }

    pub fn v_counter_flag(&self) -> (r: bool)
        ensures
            r == self.spec_v_counter_flag(),
    {
        get16(self.bits, 2, 1) == 1
    }

    pub open spec fn spec_v_blank_irq_enabled(self) -> bool {
        field16(self@, 3, 1) == 1
    }

    pub fn v_blank_irq_enabled(&self) -> (r: bool)
        ensures
            r == self.spec_v_blank_irq_enabled(),
    {
        get16(self.bits, 3, 1) == 1
    }

    pub open spec fn spec_h_blank_irq_enabled(self) -> bool {
        field16(self@, 4, 1) == 1
    }

    pub fn h_blank_irq_enabled(&self) -> (r: bool)
        ensures
            r == self.spec_h_blank_irq_enabled(),
    {
        get16(self.bits, 4, 1) == 1
    }

    pub open spec fn spec_v_counter_irq_enabled(self) -> bool {
        field16(self@, 5, 1) == 1
    }

    pub fn v_counter_irq_enabled(&self) -> (r: bool)
        ensures
            r == self.spec_v_counter_irq_enabled(),
    {
        get16(self.bits, 5, 1) == 1
    }

    pub open spec fn spec_v_count_setting(self) -> u8 {
        field16(self@, 8, 8) as u8
    }

    pub fn v_count_setting(&self) -> (r: u8)
        ensures
            r == self.spec_v_count_setting(),
            r <= 255,
    {
        proof {
            lemma_field16_bound(self.bits, 8, 8);
        }
        get16(self.bits, 8, 8) as u8
    }

    pub fn set_v_blank_flag(&mut self, value: bool)
        ensures
            final(self)@ == with_field16(old(self)@, 0, 1, if value { 1 } else { 0 }),
    {
        self.bits = set16(self.bits, 0, 1, if value { 1 } else { 0 });
    }

    pub fn set_h_blank_flag(&mut self, value: bool)
        ensures
            final(self)@ == with_field16(old(self)@, 1, 1, if value { 1 } else { 0 }),
    {
        self.bits = set16(self.bits, 1, 1, if value { 1 } else { 0 });
    }

    pub fn set_v_counter_flag(&mut self, value: bool)
        ensures
            final(self)@ == with_field16(old(self)@, 2, 1, if value { 1 } else { 0 }),
    {
        self.bits = set16(self.bits, 2, 1, if value { 1 } else { 0 });
    }

}

impl RegisterOps<u16> for LcdStatus {
    open spec fn spec_register(&self) -> u16 {
        self@
    }

    open spec fn spec_written(&self, bits: u16) -> u16 {
        self.spec_write_bits(bits & 0xFF38)
    }

    open spec fn spec_read_mask(&self) -> u16 {
        0xFFFF
    }

    open spec fn spec_write_mask(&self) -> u16 {
        0xFFFF
    }

    fn register(&self) -> (r: u16) {
        self.bits
    }

    fn write_register(&mut self, bits: u16) {
        self.write_bits(bits & 0xFF38);
    }

    fn read_mask(&self) -> (r: u16) {
        0xFFFF
    }

    fn write_mask(&self) -> (r: u16) {
        0xFFFF
    }
}

} // verus!
