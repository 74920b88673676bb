use ironboyadvance::gba::system_bus::{open_bus_read_32, CpuState};

const PIPELINE: [u32; 2] = [0x1111_2222, 0x3333_4444];

#[test]
fn arm_open_bus_is_prefetched_word() {
    assert_eq!(open_bus_read_32(CpuState::Arm, PIPELINE, 0x0800_0000), 0x3333_4444);
}

#[test]
fn thumb_open_bus_in_bios_and_oam() {
    assert_eq!(open_bus_read_32(CpuState::Thumb, PIPELINE, 0x0000_0100), 0x4444_2222);
    assert_eq!(open_bus_read_32(CpuState::Thumb, PIPELINE, 0x0000_0102), 0x4444_4444);
    assert_eq!(open_bus_read_32(CpuState::Thumb, PIPELINE, 0x0700_0004), 0x4444_2222);
    assert_eq!(open_bus_read_32(CpuState::Thumb, PIPELINE, 0x0700_0006), 0x4444_4444);
}

#[test]
fn thumb_open_bus_in_chip_wram() {
    assert_eq!(open_bus_read_32(CpuState::Thumb, PIPELINE, 0x0300_0000), 0x2222_4444);
    assert_eq!(open_bus_read_32(CpuState::Thumb, PIPELINE, 0x0300_0002), 0x4444_2222);
}

#[test]
fn thumb_open_bus_elsewhere_repeats_prefetch() {
    assert_eq!(open_bus_read_32(CpuState::Thumb, PIPELINE, 0x0800_0000), 0x4444_4444);
    assert_eq!(open_bus_read_32(CpuState::Thumb, PIPELINE, 0x0200_0002), 0x4444_4444);
}
