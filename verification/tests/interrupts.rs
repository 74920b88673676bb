use ironboyadvance::common::memory::SystemMemoryAccess;
use ironboyadvance::gba::events::InterruptEvent;
use ironboyadvance::gba::interrupt_control::InterruptController;

#[test]
fn raised_interrupt_is_pending_once_enabled() {
    let mut controller = InterruptController::new();
    assert!(!controller.interrupt_pending());
    controller.raise_interrupt(InterruptEvent::Timer0Overflow);
    assert!(!controller.interrupt_pending());
    assert_eq!(controller.read_16(0x04000202), 0x0008);
    controller.write_8(0x04000200, 0x08);
    assert!(!controller.interrupt_pending());
    controller.write_8(0x04000208, 0x01);
    assert!(controller.interrupt_pending());
    controller.write_16(0x04000202, 0x0000);
    assert!(!controller.interrupt_pending());
}

#[test]
fn interrupt_of_another_source_is_not_pending() {
    let mut controller = InterruptController::new();
    controller.write_16(0x04000200, 0x0001);
    controller.write_32(0x04000208, 1);
    controller.raise_interrupt(InterruptEvent::GamePak);
    assert_eq!(controller.read_16(0x04000202), 0x2000);
    assert!(!controller.interrupt_pending());
    controller.raise_interrupt(InterruptEvent::LcdVBlank);
    assert!(controller.interrupt_pending());
    assert_eq!(controller.read_32(0x04000208), 1);
}
