use crate::common::memory::SystemMemoryAccess;
use crate::common::register_ops::{RegisterOps, RegisterWord};
use crate::gba::bitfield::{field16, get16, lemma_field16_bound};
use vstd::prelude::*;

verus! {

/// KEYINPUT: a bit per button, clear while the button is held.
#[derive(Debug, Copy, Clone, PartialEq, Eq, Structural)]
pub struct KeyInput {
    bits: u16,
}

impl View for KeyInput {
    type V = u16;

    closed spec fn view(&self) -> u16 {
        self.bits
    }
}

impl KeyInput {
    pub fn from_bits(bits: u16) -> (r: Self)
        ensures
            r@ == bits,
    {
        KeyInput { bits: bits }
    }

    pub fn into_bits(self) -> (r: u16)
        ensures
            r == self@,
    {
        self.bits
    }

    /// The bits the register holds after `bits` are written to it: fields
    /// reserved by the hardware keep their value.
    pub open spec fn spec_merged(current: u16, bits: u16) -> u16 {
        bits
    }

    pub open spec fn spec_write_bits(self, bits: u16) -> u16 {
        Self::spec_merged(self@, bits)
    }

    pub fn write_bits(&mut self, bits: u16)
        ensures
            final(self)@ == old(self).spec_write_bits(bits),
    {
        self.bits = bits;
    }

    pub open spec fn spec_a(self) -> bool {
        field16(self@, 0, 1) == 1
    }

    pub fn a(&self) -> (r: bool)
        ensures
            r == self.spec_a(),
    {
        get16(self.bits, 0, 1) == 1
    }

    pub open spec fn spec_b(self) -> bool {
        field16(self@, 1, 1) == 1
    }

    pub fn b(&self) -> (r: bool)
        ensures
            r == self.spec_b(),
    {
        get16(self.bits, 1, 1) == 1
    }

    pub open spec fn spec_select(self) -> bool {
        field16(self@, 2, 1) == 1
    }

    pub fn select(&self) -> (r: bool)
        ensures
            r == self.spec_select(),
    {
        get16(self.bits, 2, 1) == 1
    }

    pub open spec fn spec_start(self) -> bool {
        field16(self@, 3, 1) == 1
    }

    pub fn start(&self) -> (r: bool)
        ensures
            r == self.spec_start(),
    {
        get16(self.bits, 3, 1) == 1
    }

    pub open spec fn spec_right(self) -> bool {
        field16(self@, 4, 1) == 1
    }

    pub fn right(&self) -> (r: bool)
        ensures
            r == self.spec_right(),
    {
        get16(self.bits, 4, 1) == 1
    }

    pub open spec fn spec_left(self) -> bool {
        field16(self@, 5, 1) == 1
    }

    pub fn left(&self) -> (r: bool)
        ensures
            r == self.spec_left(),
    {
        get16(self.bits, 5, 1) == 1
    }

    pub open spec fn spec_up(self) -> bool {
        field16(self@, 6, 1) == 1
    }

    pub fn up(&self) -> (r: bool)
        ensures
            r == self.spec_up(),
    {
        get16(self.bits, 6, 1) == 1
    }

    pub open spec fn spec_down(self) -> bool {
        field16(self@, 7, 1) == 1
    }

    pub fn down(&self) -> (r: bool)
        ensures
            r == self.spec_down(),
    {
        get16(self.bits, 7, 1) == 1
    }

    pub open spec fn spec_r(self) -> bool {
        field16(self@, 8, 1) == 1
    }

    pub fn r(&self) -> (r: bool)
        ensures
            r == self.spec_r(),
    {
        get16(self.bits, 8, 1) == 1
    }

    pub open spec fn spec_l(self) -> bool {
        field16(self@, 9, 1) == 1
    }

    pub fn l(&self) -> (r: bool)
        ensures
            r == self.spec_l(),
    {
        get16(self.bits, 9, 1) == 1
    }

}

impl RegisterOps<u16> for KeyInput {
    open spec fn spec_register(&self) -> u16 {
        self@
    }

    open spec fn spec_written(&self, bits: u16) -> u16 {
        self.spec_write_bits(bits)
    }

    open spec fn spec_read_mask(&self) -> u16 {
        0xFFFF
    }

    open spec fn spec_write_mask(&self) -> u16 {
        0xFFFF
    }

    fn register(&self) -> (r: u16) {
        self.bits
    }

    fn write_register(&mut self, bits: u16) {
        self.write_bits(bits);
    }

    fn read_mask(&self) -> (r: u16) {
        0xFFFF
    }

    fn write_mask(&self) -> (r: u16) {
        0xFFFF
    }
}

/// KEYCNT: the buttons that raise the keypad interrupt, and how.
#[derive(Debug, Copy, Clone, PartialEq, Eq, Structural)]
pub struct KeyControl {
    bits: u16,
}

impl View for KeyControl {
    type V = u16;

    closed spec fn view(&self) -> u16 {
        self.bits
    }
}

impl KeyControl {
    pub fn from_bits(bits: u16) -> (r: Self)
        ensures
            r@ == bits,
    {
        KeyControl { bits: bits }
    }

    pub fn into_bits(self) -> (r: u16)
        ensures
            r == self@,
    {
        self.bits
    }

    /// The bits the register holds after `bits` are written to it: fields
    /// reserved by the hardware keep their value.
    pub open spec fn spec_merged(current: u16, bits: u16) -> u16 {
        bits
    }

    pub open spec fn spec_write_bits(self, bits: u16) -> u16 {
        Self::spec_merged(self@, bits)
    }

    pub fn write_bits(&mut self, bits: u16)
        ensures
            final(self)@ == old(self).spec_write_bits(bits),
    {
        self.bits = bits;
    }

    pub open spec fn spec_buttons(self) -> u16 {
        field16(self@, 0, 10)
    }

    pub fn buttons(&self) -> (r: u16)
        ensures
            r == self.spec_buttons(),
            r <= 1023,
    {
        proof {
            lemma_field16_bound(self.bits, 0, 10);
        }
        get16(self.bits, 0, 10)
    }

    pub open spec fn spec_irq_enable_flag(self) -> bool {
        field16(self@, 14, 1) == 1
    }

    pub fn irq_enable_flag(&self) -> (r: bool)
        ensures
            r == self.spec_irq_enable_flag(),
    {
        get16(self.bits, 14, 1) == 1
    }

    pub open spec fn spec_irq_condition(self) -> bool {
        field16(self@, 15, 1) == 1
    }

    pub fn irq_condition(&self) -> (r: bool)
        ensures
            r == self.spec_irq_condition(),
    {
        get16(self.bits, 15, 1) == 1
    }

}

impl RegisterOps<u16> for KeyControl {
    open spec fn spec_register(&self) -> u16 {
        self@
    }

    open spec fn spec_written(&self, bits: u16) -> u16 {
        self.spec_write_bits(bits)
    }

    open spec fn spec_read_mask(&self) -> u16 {
        0xFFFF
    }

    open spec fn spec_write_mask(&self) -> u16 {
        0xFFFF
    }

    fn register(&self) -> (r: u16) {
        self.bits
    }

    fn write_register(&mut self, bits: u16) {
        self.write_bits(bits);
    }

    fn read_mask(&self) -> (r: u16) {
        0xFFFF
    }

    fn write_mask(&self) -> (r: u16) {
        0xFFFF
    }
}

/// The keypad registers: KEYINPUT (a bit per button, 0 while pressed) and
/// KEYCNT.
pub struct Keypad {
    pub key_input: KeyInput,
    pub key_control: KeyControl,
}

/// What the keypad registers hold: KEYINPUT and KEYCNT.
pub struct KeypadState {
    pub key_input: u16,
    pub key_control: u16,
}

impl View for Keypad {
    type V = KeypadState;

    open spec fn view(&self) -> KeypadState {
        KeypadState { key_input: self.key_input@, key_control: self.key_control@ }
    }
}

/// The buttons held down, one bit per button as in KEYINPUT.
pub open spec fn spec_pressed(key_input: u16) -> u16 {
    !key_input & 0x03FF
}

/// Whether KEYCNT asks for an interrupt with the buttons of KEYINPUT: when
/// its IRQ flag is set, all the buttons it selects must be held (condition
/// bit set) or any one of them (condition bit clear).
pub open spec fn spec_keypad_interrupt(key_input: u16, key_control: u16) -> bool {
    let pressed = spec_pressed(key_input);
    let selected = key_control & 0x03FF;
    if field16(key_control, 14, 1) == 1 {
        if field16(key_control, 15, 1) == 1 {
            (pressed & selected) == selected
        } else {
            (pressed & selected) != 0
        }
    } else {
        false
    }
}

impl Keypad {
    /// No button is held and no keypad interrupt is asked for.
    pub fn new() -> (r: Self)
        ensures
            r@.key_input == 0x03FF,
            r@.key_control == 0,
    {
        Self { key_input: KeyInput::from_bits(0x03FF), key_control: KeyControl::from_bits(0x0000) }
    }

    pub fn set_key_input(&mut self, input: u16)
        ensures
            final(self)@.key_input == input,
            final(self)@.key_control == old(self)@.key_control,
    {
        self.key_input = KeyInput::from_bits(input);
    }

    pub fn keypad_interrupt_raised(&self) -> (r: bool)
        ensures
            r == spec_keypad_interrupt(self@.key_input, self@.key_control),
    {
        if self.key_control.irq_enable_flag() {
            let pressed = !self.key_input.into_bits() & 0x03FF;
            let selected = self.key_control.into_bits() & 0x03FF;
            return if self.key_control.irq_condition() {
                (pressed & selected) == selected
            } else {
                (pressed & selected) != 0
            };
        }
        false
    }
}

/// With the IRQ flag set, a button that KEYCNT selects and that is held
/// raises the keypad interrupt in OR mode; in AND mode it does once every
/// selected button is held.
pub proof fn lemma_selected_press_interrupts(key_input: u16, key_control: u16, button: u16)
    requires
        button < 10,
        field16(key_control, 14, 1) == 1,
        key_control & (1u16 << button) != 0,
        key_input & (1u16 << button) == 0,
    ensures
        field16(key_control, 15, 1) == 0 ==> spec_keypad_interrupt(key_input, key_control),
        field16(key_control, 15, 1) == 1 ==> (spec_keypad_interrupt(key_input, key_control) <==> (
        key_input & key_control & 0x03FF) == 0),
{
    assert((((!key_input & 0x03FF) & (key_control & 0x03FF)) != 0) && ((((!key_input & 0x03FF) & (
    key_control & 0x03FF)) == (key_control & 0x03FF)) <==> (key_input & key_control & 0x03FF) == 0))
        by (bit_vector)
        requires
            button < 10,
            key_control & (1u16 << button) != 0,
            key_input & (1u16 << button) == 0,
    ;
}

/// The keypad interrupt, for every KEYINPUT (a 0 bit is a held button) and
/// KEYCNT: without the IRQ flag (bit 14) it is never raised; in AND mode (bit
/// 15 set) it is raised exactly when no selected button is released, and in
/// OR mode exactly when some selected button is held. So with no button held
/// and some button selected it is never raised.
pub proof fn lemma_keypad_interrupt_condition(key_input: u16, key_control: u16)
    ensures
        key_control & 0x4000 == 0 ==> !spec_keypad_interrupt(key_input, key_control),
        key_control & 0xC000 == 0xC000 ==> (spec_keypad_interrupt(key_input, key_control) <==> (key_input
            & key_control & 0x03FF) == 0),
        key_control & 0xC000 == 0x4000 ==> (spec_keypad_interrupt(key_input, key_control) <==> (!key_input
            & key_control & 0x03FF) != 0),
        key_input & 0x03FF == 0x03FF && key_control & 0x03FF != 0 ==> !spec_keypad_interrupt(
            key_input,
            key_control,
        ),
{
    let pressed = spec_pressed(key_input);
    assert(pressed == !key_input & 0x03FF);
    assert(((field16(key_control, 14, 1) == 1) == (key_control & 0x4000 != 0)) && ((key_control
        & 0xC000 == 0xC000 || key_control & 0xC000 == 0x4000) ==> key_control & 0x4000 != 0) && (
    key_control & 0x4000 != 0 ==> ((field16(key_control, 15, 1) == 1) == (key_control & 0xC000
        == 0xC000))) && (key_control & 0x4000 != 0 ==> ((field16(key_control, 15, 1) == 0) == (
    key_control & 0xC000 == 0x4000))) && ((((!key_input & 0x03FF) & (key_control & 0x03FF)) == (
    key_control & 0x03FF)) == ((key_input & key_control & 0x03FF) == 0)) && ((((!key_input & 0x03FF) & (
    key_control & 0x03FF)) != 0) == ((!key_input & key_control & 0x03FF) != 0)) && (key_input & 0x03FF
        == 0x03FF && key_control & 0x03FF != 0 ==> (key_input & key_control & 0x03FF) != 0 && (!key_input
        & key_control & 0x03FF) == 0)) by (bit_vector);
}

impl SystemMemoryAccess for Keypad {
    open spec fn spec_readable(m: KeypadState, address: u32) -> bool {
        0x04000130 <= address <= 0x04000133
    }

    open spec fn spec_writable(m: KeypadState, address: u32, value: u8) -> bool {
        0x04000130 <= address <= 0x04000133
    }

    open spec fn spec_read_8(m: KeypadState, address: u32) -> u8 {
        if address <= 0x04000131 {
            u16::spec_byte(m.key_input & 0xFFFF, address)
        } else {
            u16::spec_byte(m.key_control & 0xFFFF, address)
        }
    }

    /// KEYINPUT is read-only.
    open spec fn spec_write_8(m: KeypadState, address: u32, value: u8) -> KeypadState {
        if address <= 0x04000131 {
            m
        } else {
            KeypadState { key_control: u16::spec_merge_byte(m.key_control, 0xFFFF, address, value), ..m }
        }
    }

    fn read_8(&self, address: u32) -> (r: u8) {
        if address <= 0x04000131 {
            self.key_input.read_byte(address)
        } else {
            self.key_control.read_byte(address)
        }
    }

    fn write_8(&mut self, address: u32, value: u8) {
        if address <= 0x04000131 {
        } else {
            self.key_control.write_byte(address, value)
        }
    }
}

} // verus!
