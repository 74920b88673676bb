use ironboyadvance::common::memory::SystemMemoryAccess;
use ironboyadvance::gba::dma_control::{ChunkSize, DmaControl, DmaController, TimingMode};

#[test]
fn addresses_and_counts_are_write_only() {
    let mut dma = DmaController::new();
    dma.write_32(0x040000B0, 0x0800_0000);
    dma.write_32(0x040000D4, 0x0200_0000);
    dma.write_16(0x040000DC, 0x0010);
    assert_eq!(dma.read_32(0x040000B0), 0);
    assert_eq!(dma.read_16(0x040000DC), 0);
    assert!(!dma.is_active());
}

#[test]
fn control_reads_back_and_writes_are_not_acted_on() {
    let mut dma = DmaController::new();
    dma.write_16(0x040000BA, 0x8000);
    assert_eq!(dma.read_16(0x040000BA), 0);
    assert_eq!(dma.read_16(0x040000DE), 0);
}

#[test]
fn control_fields() {
    let control = DmaControl::from_bits(0xB640);
    assert!(control.enabled());
    assert!(!control.irq_enabled());
    assert_eq!(control.timing_mode(), TimingMode::Special);
    assert_eq!(control.chunk_size(), ChunkSize::Size32);
    assert!(control.repeat());
    assert_eq!(ChunkSize::Size16.bit_per_chunk(), 16);
}
