use ironboyadvance::common::memory::{MemoryAccess, MemoryAccessWidth, SystemMemoryAccess};
use ironboyadvance::gba::system_control::{ClockCycleLuts, HaltMode, SystemController, WaitStateControl};

#[test]
fn clock_cycles() {
    let mut clock_cycle_luts = ClockCycleLuts::new();
    assert_eq!(
        clock_cycle_luts.n_cycles_16_lut,
        [1, 1, 3, 1, 1, 1, 1, 1, 5, 5, 5, 5, 5, 5, 5, 5]
    );
    assert_eq!(
        clock_cycle_luts.s_cycles_16_lut,
        [1, 1, 3, 1, 1, 1, 1, 1, 3, 3, 5, 5, 9, 9, 5, 5]
    );
    assert_eq!(
        clock_cycle_luts.n_cycles_32_lut,
        [1, 1, 6, 1, 1, 2, 2, 1, 8, 8, 10, 10, 14, 14, 5, 5]
    );
    assert_eq!(
        clock_cycle_luts.s_cycles_32_lut,
        [1, 1, 6, 1, 1, 2, 2, 1, 6, 6, 10, 10, 18, 18, 5, 5]
    );

    clock_cycle_luts.update_wait_states(&WaitStateControl::from_bits(0b100001100010111));
    assert_eq!(
        clock_cycle_luts.n_cycles_16_lut,
        [1, 1, 3, 1, 1, 1, 1, 1, 4, 4, 5, 5, 9, 9, 9, 9]
    );
    assert_eq!(
        clock_cycle_luts.s_cycles_16_lut,
        [1, 1, 3, 1, 1, 1, 1, 1, 2, 2, 5, 5, 9, 9, 9, 9]
    );
    assert_eq!(
        clock_cycle_luts.n_cycles_32_lut,
        [1, 1, 6, 1, 1, 2, 2, 1, 6, 6, 10, 10, 18, 18, 9, 9]
    );
    assert_eq!(
        clock_cycle_luts.s_cycles_32_lut,
        [1, 1, 6, 1, 1, 2, 2, 1, 4, 4, 10, 10, 18, 18, 9, 9]
    );
}

#[test]
fn controller_cycles_follow_waitcnt_writes() {
    let mut controller = SystemController::new();
    assert_eq!(controller.cycles(8, MemoryAccessWidth::Word, MemoryAccess::NonSequential), 8);
    assert_eq!(controller.cycles(2, MemoryAccessWidth::HalfWord, MemoryAccess::Sequential), 3);
    // WS0 first access 2 cycles, second access 1 cycle.
    controller.write_8(0x04000204, 0b0001_1000);
    assert_eq!(controller.cycles(8, MemoryAccessWidth::HalfWord, MemoryAccess::NonSequential), 3);
    assert_eq!(controller.cycles(9, MemoryAccessWidth::HalfWord, MemoryAccess::Sequential), 2);
    assert_eq!(controller.cycles(8, MemoryAccessWidth::Word, MemoryAccess::NonSequential), 5);
    assert_eq!(controller.cycles(8, MemoryAccessWidth::Word, MemoryAccess::Sequential), 4);
    assert_eq!(controller.read_8(0x04000204), 0b0001_1000);
}

#[test]
fn waitcnt_reserved_bit_keeps_its_value() {
    let mut controller = SystemController::new();
    controller.set_waitstate_control(0xFFFF);
    assert_eq!(controller.read_16(0x04000204), 0xDFFF);
}

#[test]
fn post_flag_and_halt_registers() {
    let mut controller = SystemController::new();
    assert_eq!(controller.read_8(0x04000300), 0);
    controller.write_8(0x04000300, 0x03);
    assert_eq!(controller.read_8(0x04000300), 1);
    controller.set_halt_mode(HaltMode::Stopped);
    assert!(controller.halt_mode() == HaltMode::Stopped);
    controller.write_8(0x04000301, 0x00);
    assert!(controller.halt_mode() == HaltMode::Halted);
}

#[test]
fn internal_memory_control_keeps_reserved_bits() {
    let mut controller = SystemController::new();
    assert_eq!(controller.read_32(0x04000800), 0x0D000020);
    controller.write_8(0x04000800, 0xFF);
    // Bit 4 and bits 6..=23 are reserved and keep their 0.
    assert_eq!(controller.read_8(0x04000800), 0x2F);
    controller.write_8(0x04000801, 0xFF);
    assert_eq!(controller.read_8(0x04000801), 0x00);
    controller.write_8(0x04000803, 0x0E);
    assert_eq!(controller.read_32(0x04000800), 0x0E00_002F);
}
