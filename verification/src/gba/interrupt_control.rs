use crate::common::memory::SystemMemoryAccess;
use crate::common::register_ops::{RegisterOps, RegisterWord};
use crate::gba::bitfield::{field16, field32, get16, get32, set16, set32, with_field16, with_field32};
use crate::gba::events::InterruptEvent;
use vstd::prelude::*;

verus! {

/// IE and IF: one bit per interrupt source.
#[derive(Debug, Copy, Clone, PartialEq, Eq, Structural)]
pub struct Interrupt {
    bits: u16,
}

impl View for Interrupt {
    type V = u16;

    closed spec fn view(&self) -> u16 {
        self.bits
    }
}

impl Interrupt {
    pub fn from_bits(bits: u16) -> (r: Self)
        ensures
            r@ == bits,
    {
        Interrupt { bits: bits }
    }

    pub fn into_bits(self) -> (r: u16)
        ensures
            r == self@,
    {
        self.bits
    }

    /// The bits the register holds after `bits` are written to it: fields
    /// reserved by the hardware keep their value.
    pub open spec fn spec_merged(current: u16, bits: u16) -> u16 {
        bits
    }

    pub open spec fn spec_write_bits(self, bits: u16) -> u16 {
        Self::spec_merged(self@, bits)
    }

    pub fn write_bits(&mut self, bits: u16)
        ensures
            final(self)@ == old(self).spec_write_bits(bits),
    {
        self.bits = bits;
    }

    pub open spec fn spec_lcd_v_blank(self) -> bool {
        field16(self@, 0, 1) == 1
    }

    pub fn lcd_v_blank(&self) -> (r: bool)
        ensures
            r == self.spec_lcd_v_blank(),
    {
        get16(self.bits, 0, 1) == 1
    }

    pub open spec fn spec_lcd_h_blank(self) -> bool {
        field16(self@, 1, 1) == 1
    }

    pub fn lcd_h_blank(&self) -> (r: bool)
        ensures
            r == self.spec_lcd_h_blank(),
    {
        get16(self.bits, 1, 1) == 1
    }

    pub open spec fn spec_lcd_v_counter_match(self) -> bool {
        field16(self@, 2, 1) == 1
    }

    pub fn lcd_v_counter_match(&self) -> (r: bool)
        ensures
            r == self.spec_lcd_v_counter_match(),
    {
        get16(self.bits, 2, 1) == 1
    }

    pub open spec fn spec_timer_0_overflow(self) -> bool {
        field16(self@, 3, 1) == 1
    }

    pub fn timer_0_overflow(&self) -> (r: bool)
        ensures
            r == self.spec_timer_0_overflow(),
    {
        get16(self.bits, 3, 1) == 1
    }

    pub open spec fn spec_timer_1_overflow(self) -> bool {
        field16(self@, 4, 1) == 1
    }

    pub fn timer_1_overflow(&self) -> (r: bool)
        ensures
            r == self.spec_timer_1_overflow(),
    {
        get16(self.bits, 4, 1) == 1
    }

    pub open spec fn spec_timer_2_overflow(self) -> bool {
        field16(self@, 5, 1) == 1
    }

    pub fn timer_2_overflow(&self) -> (r: bool)
        ensures
            r == self.spec_timer_2_overflow(),
    {
        get16(self.bits, 5, 1) == 1
    }

    pub open spec fn spec_timer_3_overflow(self) -> bool {
        field16(self@, 6, 1) == 1
    }

    pub fn timer_3_overflow(&self) -> (r: bool)
        ensures
            r == self.spec_timer_3_overflow(),
    {
        get16(self.bits, 6, 1) == 1
    }

    pub open spec fn spec_serial_communication(self) -> bool {
        field16(self@, 7, 1) == 1
    }

    pub fn serial_communication(&self) -> (r: bool)
        ensures
            r == self.spec_serial_communication(),
    {
        get16(self.bits, 7, 1) == 1
    }

    pub open spec fn spec_dma_0_overflow(self) -> bool {
        field16(self@, 8, 1) == 1
    }

    pub fn dma_0_overflow(&self) -> (r: bool)
        ensures
            r == self.spec_dma_0_overflow(),
    {
        get16(self.bits, 8, 1) == 1
    }

    pub open spec fn spec_dma_1_overflow(self) -> bool {
        field16(self@, 9, 1) == 1
    }

    pub fn dma_1_overflow(&self) -> (r: bool)
        ensures
            r == self.spec_dma_1_overflow(),
    {
        get16(self.bits, 9, 1) == 1
    }

    pub open spec fn spec_dma_2_overflow(self) -> bool {
        field16(self@, 10, 1) == 1
    }

    pub fn dma_2_overflow(&self) -> (r: bool)
        ensures
            r == self.spec_dma_2_overflow(),
    {
        get16(self.bits, 10, 1) == 1
    }

    pub open spec fn spec_dma_3_overflow(self) -> bool {
        field16(self@, 11, 1) == 1
    }

    pub fn dma_3_overflow(&self) -> (r: bool)
        ensures
            r == self.spec_dma_3_overflow(),
    {
        get16(self.bits, 11, 1) == 1
    }

    pub open spec fn spec_keypad(self) -> bool {
        field16(self@, 12, 1) == 1
    }

    pub fn keypad(&self) -> (r: bool)
        ensures
            r == self.spec_keypad(),
    {
        get16(self.bits, 12, 1) == 1
    }

    pub open spec fn spec_game_pak(self) -> bool {
        field16(self@, 13, 1) == 1
    }

    pub fn game_pak(&self) -> (r: bool)
        ensures
            r == self.spec_game_pak(),
    {
        get16(self.bits, 13, 1) == 1
    }

    pub fn set_lcd_v_blank(&mut self, value: bool)
        ensures
            final(self)@ == with_field16(old(self)@, 0, 1, if value { 1 } else { 0 }),
    {
        self.bits = set16(self.bits, 0, 1, if value { 1 } else { 0 });
    }

    pub fn set_lcd_h_blank(&mut self, value: bool)
        ensures
            final(self)@ == with_field16(old(self)@, 1, 1, if value { 1 } else { 0 }),
    {
        self.bits = set16(self.bits, 1, 1, if value { 1 } else { 0 });
    }

    pub fn set_lcd_v_counter_match(&mut self, value: bool)
        ensures
            final(self)@ == with_field16(old(self)@, 2, 1, if value { 1 } else { 0 }),
    {
        self.bits = set16(self.bits, 2, 1, if value { 1 } else { 0 });
    }

    pub fn set_timer_0_overflow(&mut self, value: bool)
        ensures
            final(self)@ == with_field16(old(self)@, 3, 1, if value { 1 } else { 0 }),
    {
        self.bits = set16(self.bits, 3, 1, if value { 1 } else { 0 });
    }

    pub fn set_timer_1_overflow(&mut self, value: bool)
        ensures
            final(self)@ == with_field16(old(self)@, 4, 1, if value { 1 } else { 0 }),
    {
        self.bits = set16(self.bits, 4, 1, if value { 1 } else { 0 });
    }

    pub fn set_timer_2_overflow(&mut self, value: bool)
        ensures
            final(self)@ == with_field16(old(self)@, 5, 1, if value { 1 } else { 0 }),
    {
        self.bits = set16(self.bits, 5, 1, if value { 1 } else { 0 });
    }

    pub fn set_timer_3_overflow(&mut self, value: bool)
        ensures
            final(self)@ == with_field16(old(self)@, 6, 1, if value { 1 } else { 0 }),
    {
        self.bits = set16(self.bits, 6, 1, if value { 1 } else { 0 });
    }

    pub fn set_serial_communication(&mut self, value: bool)
        ensures
            final(self)@ == with_field16(old(self)@, 7, 1, if value { 1 } else { 0 }),
    {
        self.bits = set16(self.bits, 7, 1, if value { 1 } else { 0 });
    }

    pub fn set_dma_0_overflow(&mut self, value: bool)
        ensures
            final(self)@ == with_field16(old(self)@, 8, 1, if value { 1 } else { 0 }),
    {
        self.bits = set16(self.bits, 8, 1, if value { 1 } else { 0 });
    }

    pub fn set_dma_1_overflow(&mut self, value: bool)
        ensures
            final(self)@ == with_field16(old(self)@, 9, 1, if value { 1 } else { 0 }),
    {
        self.bits = set16(self.bits, 9, 1, if value { 1 } else { 0 });
    }

    pub fn set_dma_2_overflow(&mut self, value: bool)
        ensures
            final(self)@ == with_field16(old(self)@, 10, 1, if value { 1 } else { 0 }),
    {
        self.bits = set16(self.bits, 10, 1, if value { 1 } else { 0 });
    }

    pub fn set_dma_3_overflow(&mut self, value: bool)
        ensures
            final(self)@ == with_field16(old(self)@, 11, 1, if value { 1 } else { 0 }),
    {
        self.bits = set16(self.bits, 11, 1, if value { 1 } else { 0 });
    }

    pub fn set_keypad(&mut self, value: bool)
        ensures
            final(self)@ == with_field16(old(self)@, 12, 1, if value { 1 } else { 0 }),
    {
        self.bits = set16(self.bits, 12, 1, if value { 1 } else { 0 });
    }

    pub fn set_game_pak(&mut self, value: bool)
        ensures
            final(self)@ == with_field16(old(self)@, 13, 1, if value { 1 } else { 0 }),
    {
        self.bits = set16(self.bits, 13, 1, if value { 1 } else { 0 });
    }

}

impl RegisterOps<u16> for Interrupt {
    open spec fn spec_register(&self) -> u16 {
        self@
    }

    open spec fn spec_written(&self, bits: u16) -> u16 {
        self.spec_write_bits(bits)
    }

    open spec fn spec_read_mask(&self) -> u16 {
        0xFFFF
    }

    open spec fn spec_write_mask(&self) -> u16 {
        0xFFFF
    }

    fn register(&self) -> (r: u16) {
        self.bits
    }

    fn write_register(&mut self, bits: u16) {
        self.write_bits(bits);
    }

    fn read_mask(&self) -> (r: u16) {
        0xFFFF
    }

    fn write_mask(&self) -> (r: u16) {
        0xFFFF
    }
}

/// IME: the master switch of all interrupts.
#[derive(Debug, Copy, Clone, PartialEq, Eq, Structural)]
pub struct InterruptMasterEnable {
    bits: u32,
}

impl View for InterruptMasterEnable {
    type V = u32;

    closed spec fn view(&self) -> u32 {
        self.bits
    }
}

impl InterruptMasterEnable {
    pub fn from_bits(bits: u32) -> (r: Self)
        ensures
            r@ == bits,
    {
        InterruptMasterEnable { bits: bits }
    }

    pub fn into_bits(self) -> (r: u32)
        ensures
            r == self@,
    {
        self.bits
    }

    /// The bits the register holds after `bits` are written to it: fields
    /// reserved by the hardware keep their value.
    pub open spec fn spec_merged(current: u32, bits: u32) -> u32 {
        bits
    }

    pub open spec fn spec_write_bits(self, bits: u32) -> u32 {
        Self::spec_merged(self@, bits)
    }

    pub fn write_bits(&mut self, bits: u32)
        ensures
            final(self)@ == old(self).spec_write_bits(bits),
    {
        self.bits = bits;
    }

    pub open spec fn spec_interrupts_enabled(self) -> bool {
        field32(self@, 0, 1) == 1
    }

    pub fn interrupts_enabled(&self) -> (r: bool)
        ensures
            r == self.spec_interrupts_enabled(),
    {
        get32(self.bits, 0, 1) == 1
    }

    pub fn set_interrupts_enabled(&mut self, value: bool)
        ensures
            final(self)@ == with_field32(old(self)@, 0, 1, if value { 1 } else { 0 }),
    {
        self.bits = set32(self.bits, 0, 1, if value { 1 } else { 0 });
    }

}

impl RegisterOps<u32> for InterruptMasterEnable {
    open spec fn spec_register(&self) -> u32 {
        self@
    }

    open spec fn spec_written(&self, bits: u32) -> u32 {
        self.spec_write_bits(bits)
    }

    open spec fn spec_read_mask(&self) -> u32 {
        0xFFFF_FFFF
    }

    open spec fn spec_write_mask(&self) -> u32 {
        0xFFFF_FFFF
    }

    fn register(&self) -> (r: u32) {
        self.bits
    }

    fn write_register(&mut self, bits: u32) {
        self.write_bits(bits);
    }

    fn read_mask(&self) -> (r: u32) {
        0xFFFF_FFFF
    }

    fn write_mask(&self) -> (r: u32) {
        0xFFFF_FFFF
    }
}

/// The interrupt registers: IE, IF and IME.
pub struct InterruptController {
    pub interrupt_master_enable: InterruptMasterEnable,
    pub interrupt_enable: Interrupt,
    pub interrupt_flags: Interrupt,
}

/// What the interrupt registers hold: IME, IE and IF.
pub struct InterruptState {
    pub master_enable: u32,
    pub enable: u16,
    pub flags: u16,
}

/// An interrupt is pending when IME is on and some source is both enabled
/// and flagged.
pub open spec fn spec_interrupt_pending(s: InterruptState) -> bool {
    field32(s.master_enable, 0, 1) == 1 && (s.flags & s.enable) != 0
}

impl View for InterruptController {
    type V = InterruptState;

    open spec fn view(&self) -> InterruptState {
        InterruptState {
            master_enable: self.interrupt_master_enable@,
            enable: self.interrupt_enable@,
            flags: self.interrupt_flags@,
        }
    }
}

impl InterruptController {
    pub fn new() -> (r: Self)
        ensures
            r@.master_enable == 0,
            r@.enable == 0,
            r@.flags == 0,
    {
        InterruptController {
            interrupt_master_enable: InterruptMasterEnable::from_bits(0),
            interrupt_enable: Interrupt::from_bits(0),
            interrupt_flags: Interrupt::from_bits(0),
        }
    }

    pub fn interrupt_pending(&self) -> (r: bool)
        ensures
            r == spec_interrupt_pending(self@),
    {
        self.interrupt_master_enable.interrupts_enabled() && ((self.interrupt_flags.into_bits()
            & self.interrupt_enable.into_bits()) != 0)
    }

    /// Sets the interrupt's bit in IF.
    pub fn raise_interrupt(&mut self, interrupt_event: InterruptEvent)
        ensures
            final(self)@.flags == old(self)@.flags | (1u16 << interrupt_event.spec_bit_index()),
            final(self)@.enable == old(self)@.enable,
            final(self)@.master_enable == old(self)@.master_enable,
    {
        let interrupt_flag: u16 = 1u16 << interrupt_event.bit_index();
        self.interrupt_flags = Interrupt::from_bits(self.interrupt_flags.into_bits() | interrupt_flag)
    }
}

/// Once an interrupt has been raised, it is pending whenever IME is on and
/// its source is enabled in IE.
pub proof fn lemma_raised_interrupt_is_pending(s: InterruptState, e: InterruptEvent)
    requires
        field32(s.master_enable, 0, 1) == 1,
        s.enable & (1u16 << e.spec_bit_index()) != 0,
    ensures
        spec_interrupt_pending(
            InterruptState { flags: s.flags | (1u16 << e.spec_bit_index()), ..s },
        ),
{
    let b = e.spec_bit_index();
    let f = s.flags;
    let en = s.enable;
    assert(((f | (1u16 << b)) & en) != 0) by (bit_vector)
        requires
            en & (1u16 << b) != 0,
            b < 16,
    ;
}

/// The controller's byte at `address` in IE (0x04000200..=0x04000201), IF
/// (0x04000202..=0x04000203) or IME (0x04000208..=0x0400020B).
pub open spec fn interrupt_register_at(address: u32) -> bool {
    0x04000200 <= address <= 0x04000203 || 0x04000208 <= address <= 0x0400020B
}

impl SystemMemoryAccess for InterruptController {
    open spec fn spec_readable(m: InterruptState, address: u32) -> bool {
        interrupt_register_at(address)
    }

    open spec fn spec_writable(m: InterruptState, address: u32, value: u8) -> bool {
        interrupt_register_at(address)
    }

    open spec fn spec_read_8(m: InterruptState, address: u32) -> u8 {
        if address <= 0x04000201 {
            u16::spec_byte(m.enable & 0xFFFF, address)
        } else if address <= 0x04000203 {
            u16::spec_byte(m.flags & 0xFFFF, address)
        } else {
            u32::spec_byte(m.master_enable & 0xFFFF_FFFF, address)
        }
    }

    open spec fn spec_write_8(m: InterruptState, address: u32, value: u8) -> InterruptState {
        if address <= 0x04000201 {
            InterruptState { enable: u16::spec_merge_byte(m.enable, 0xFFFF, address, value), ..m }
        } else if address <= 0x04000203 {
            InterruptState { flags: u16::spec_merge_byte(m.flags, 0xFFFF, address, value), ..m }
        } else {
            InterruptState {
                master_enable: u32::spec_merge_byte(m.master_enable, 0xFFFF_FFFF, address, value),
                ..m
            }
        }
    }

    fn read_8(&self, address: u32) -> (r: u8) {
        if address <= 0x04000201 {
            self.interrupt_enable.read_byte(address)
        } else if address <= 0x04000203 {
            self.interrupt_flags.read_byte(address)
        } else {
            self.interrupt_master_enable.read_byte(address)
        }
    }

    fn write_8(&mut self, address: u32, value: u8) {
        if address <= 0x04000201 {
            self.interrupt_enable.write_byte(address, value)
        } else if address <= 0x04000203 {
            self.interrupt_flags.write_byte(address, value)
        } else {
            self.interrupt_master_enable.write_byte(address, value)
        }
    }
}

} // verus!
