use ironboyadvance::common::memory::{MemoryAccess, SystemMemoryAccess};
use ironboyadvance::gba::memory::Memory;

#[test]
fn work_ram_is_little_endian_and_mirrored() {
    let mut memory = Memory::new();
    memory.write_32(0x02000004, 0xDEADBEEF);
    assert_eq!(memory.read_32(0x02000004), 0xDEADBEEF);
    assert_eq!(memory.read_8(0x02000004), 0xEF);
    assert_eq!(memory.read_16(0x02000006), 0xDEAD);
    assert_eq!(memory.read_8(0x02040004), 0xEF);
    memory.write_16(0x03007FFE, 0xABCD);
    assert_eq!(memory.read_8(0x03FFFFFE), 0xCD);
    assert_eq!(memory.read_8(0x03FFFFFF), 0xAB);
    assert_eq!(memory.read_8(0x02007FFE), 0x00);
}

#[test]
fn access_kinds_are_bits_of_a_pattern() {
    assert!(MemoryAccess::Sequential.is_set(0b0001));
    assert!(!MemoryAccess::Sequential.is_set(0b0010));
    assert!(MemoryAccess::Lock.is_set(0b1000));
    assert!(!MemoryAccess::NonSequential.is_set(0xFF));
    assert_eq!(MemoryAccess::Dma.bits(), 0b100);
}
