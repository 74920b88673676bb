use vstd::prelude::*;

verus! {

pub const BIOS_BASE: u32 = 0x0000_0000;

pub const WRAM_BOARD_BASE: u32 = 0x0200_0000;

pub const WRAM_CHIP_BASE: u32 = 0x0300_0000;

pub const IO_REGISTERS_BASE: u32 = 0x0400_0000;

pub const PALETTE_RAM_BASE: u32 = 0x0500_0000;

pub const VRAM_BASE: u32 = 0x0600_0000;

pub const OAM_BASE: u32 = 0x0700_0000;

pub const ROM_WS0_LO: u32 = 0x0800_0000;

pub const ROM_WS0_HI: u32 = 0x0900_0000;

pub const ROM_WS1_LO: u32 = 0x0A00_0000;

pub const ROM_WS1_HI: u32 = 0x0B00_0000;

pub const ROM_WS2_LO: u32 = 0x0C00_0000;

pub const ROM_WS2_HI: u32 = 0x0D00_0000;

pub const SRAM_LO: u32 = 0x0E00_0000;

pub const SRAM_HI: u32 = 0x0F00_0000;

/// The instruction set the CPU runs, as the bus is told of it.
#[derive(Debug, Copy, Clone, PartialEq, Eq, Structural)]
pub enum CpuState {
    Arm,
    Thumb,
}

/// The region of the memory map that an address falls in (its top byte).
pub open spec fn spec_region(address: u32) -> int {
    address as int / 0x0100_0000 * 0x0100_0000
}

/// What is left on the bus of a THUMB pipeline: the low half-word of a read
/// from unused memory.
pub open spec fn spec_open_bus_low(pipeline: Seq<u32>, pc: u32) -> int {
    let decoded = pipeline[0] as int % 0x10000;
    let fetched = pipeline[1] as int % 0x10000;
    let region = spec_region(pc);
    if (region == BIOS_BASE || region == OAM_BASE) && pc as int % 4 < 2 {
        decoded
    } else if region == WRAM_CHIP_BASE && pc as int % 4 >= 2 {
        decoded
    } else {
        fetched
    }
}

/// The high half-word of the same read.
pub open spec fn spec_open_bus_high(pipeline: Seq<u32>, pc: u32) -> int {
    let decoded = pipeline[0] as int % 0x10000;
    let fetched = pipeline[1] as int % 0x10000;
    if spec_region(pc) == WRAM_CHIP_BASE && pc as int % 4 < 2 {
        decoded
    } else {
        fetched
    }
}

/// The word a read from unused memory gives: in ARM state the prefetched
/// instruction; in THUMB state two half-words of the pipeline, the decoded
/// and the prefetched one, chosen by where the program runs and by the
/// alignment of the program counter.
pub fn open_bus_read_32(cpu_state: CpuState, pipeline: [u32; 2], pc: u32) -> (r: u32)
    ensures
        cpu_state == CpuState::Arm ==> r == pipeline@[1],
        cpu_state == CpuState::Thumb ==> r as int % 0x10000 == spec_open_bus_low(pipeline@, pc)
            && r as int / 0x10000 == spec_open_bus_high(pipeline@, pc),
{
    match cpu_state {
        CpuState::Arm => pipeline[1],
        CpuState::Thumb => {
            let decoded = pipeline[0] & 0xFFFF;
            let fetched = pipeline[1] & 0xFFFF;
            let region = pc & 0xFF00_0000;
            proof {
                let p0 = pipeline[0];
                let p1 = pipeline[1];
                assert(p0 & 0xFFFF == p0 % 0x10000) by (bit_vector);
                assert(p1 & 0xFFFF == p1 % 0x10000) by (bit_vector);
                assert(pc & 0xFF00_0000 == pc / 0x0100_0000 * 0x0100_0000) by (bit_vector);
                assert((pc & 2 == 0) == (pc % 4 < 2)) by (bit_vector);
            }
            let (high, low) = if region == BIOS_BASE || region == OAM_BASE {
                if pc & 2 == 0 {
                    (fetched, decoded)
                } else {
                    (fetched, fetched)
                }
            } else if region == WRAM_CHIP_BASE {
                if pc & 2 == 0 {
                    (decoded, fetched)
                } else {
                    (fetched, decoded)
                }
            } else {
                (fetched, fetched)
            };
            proof {
                assert(high < 0x10000 && low < 0x10000 ==> ((high << 16) | low) % 0x10000 == low
                    && ((high << 16) | low) / 0x10000 == high) by (bit_vector);
            }
            (high << 16) | low
        },
    }
}

} // verus!
