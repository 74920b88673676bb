use ironboyadvance::common::memory::SystemMemoryAccess;
use ironboyadvance::gba::keypad::Keypad;

#[test]
fn no_key_is_held_at_start() {
    let keypad = Keypad::new();
    assert_eq!(keypad.read_16(0x04000130), 0x03FF);
    assert_eq!(keypad.read_16(0x04000132), 0x0000);
    assert!(!keypad.keypad_interrupt_raised());
}

#[test]
fn any_selected_key_raises_in_or_mode() {
    let mut keypad = Keypad::new();
    keypad.write_16(0x04000132, 0x4003);
    assert!(!keypad.keypad_interrupt_raised());
    keypad.set_key_input(0x03FE);
    assert!(keypad.keypad_interrupt_raised());
    keypad.set_key_input(0x03FB);
    assert!(!keypad.keypad_interrupt_raised());
}

#[test]
fn all_selected_keys_raise_in_and_mode() {
    let mut keypad = Keypad::new();
    keypad.write_16(0x04000132, 0xC003);
    keypad.set_key_input(0x03FE);
    assert!(!keypad.keypad_interrupt_raised());
    keypad.set_key_input(0x03FC);
    assert!(keypad.keypad_interrupt_raised());
}

#[test]
fn no_interrupt_without_the_irq_flag() {
    let mut keypad = Keypad::new();
    keypad.write_16(0x04000132, 0x0003);
    keypad.set_key_input(0x0000);
    assert!(!keypad.keypad_interrupt_raised());
}

#[test]
fn key_input_is_read_only() {
    let mut keypad = Keypad::new();
    keypad.set_key_input(0x03FC);
    keypad.write_16(0x04000130, 0x0000);
    assert_eq!(keypad.read_16(0x04000130), 0x03FC);
}
