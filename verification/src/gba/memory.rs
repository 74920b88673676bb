use crate::common::memory::SystemMemoryAccess;
use vstd::prelude::*;

verus! {

/// Size of the on-board work RAM (mirrored over 0x02000000..=0x02FFFFFF).
pub const WRAM_BOARD_SIZE: usize = 0x40000;

/// Size of the on-chip work RAM (mirrored over 0x03000000..=0x03FFFFFF).
pub const WRAM_CHIP_SIZE: usize = 0x8000;

/// The two work RAMs.
pub struct Memory {
    wram_board: Vec<u8>,
    wram_chip: Vec<u8>,
}

impl Memory {
    /// Both RAMs, cleared.
    pub fn new() -> (r: Self)
        ensures
            r@.0 == Seq::new(WRAM_BOARD_SIZE as nat, |i: int| 0u8),
            r@.1 == Seq::new(WRAM_CHIP_SIZE as nat, |i: int| 0u8),
    {
        Self { wram_board: vec![0; WRAM_BOARD_SIZE], wram_chip: vec![0; WRAM_CHIP_SIZE] }
    }
}

impl View for Memory {
    /// The bytes of the on-board RAM, then of the on-chip RAM.
    type V = (Seq<u8>, Seq<u8>);

    closed spec fn view(&self) -> (Seq<u8>, Seq<u8>) {
        (self.wram_board@, self.wram_chip@)
    }
}

/// Whether `address` falls in the on-board or the on-chip RAM's region.
pub open spec fn is_wram_address(address: u32) -> bool {
    0x02000000 <= address <= 0x03FFFFFF
}

/// Both RAMs have their sizes.
pub open spec fn wram_sized(m: (Seq<u8>, Seq<u8>)) -> bool {
    m.0.len() == WRAM_BOARD_SIZE && m.1.len() == WRAM_CHIP_SIZE
}

impl SystemMemoryAccess for Memory {
    open spec fn spec_readable(m: (Seq<u8>, Seq<u8>), address: u32) -> bool {
        wram_sized(m) && is_wram_address(address)
    }

    open spec fn spec_writable(m: (Seq<u8>, Seq<u8>), address: u32, value: u8) -> bool {
        wram_sized(m) && is_wram_address(address)
    }

    open spec fn spec_read_8(m: (Seq<u8>, Seq<u8>), address: u32) -> u8 {
        if address <= 0x02FFFFFF {
            m.0[(address % 0x40000) as int]
        } else {
            m.1[(address % 0x8000) as int]
        }
    }

    open spec fn spec_write_8(m: (Seq<u8>, Seq<u8>), address: u32, value: u8) -> (Seq<u8>, Seq<u8>) {
        if address <= 0x02FFFFFF {
            (m.0.update((address % 0x40000) as int, value), m.1)
        } else {
            (m.0, m.1.update((address % 0x8000) as int, value))
        }
    }

    fn read_8(&self, address: u32) -> (r: u8) {
        if address <= 0x02FFFFFF {
            self.wram_board[(address % 0x40000) as usize]
        } else {
            self.wram_chip[(address % 0x8000) as usize]
        }
    }

    fn write_8(&mut self, address: u32, value: u8) {
        if address <= 0x02FFFFFF {
            self.wram_board.set((address % 0x40000) as usize, value);
        } else {
            self.wram_chip.set((address % 0x8000) as usize, value);
        }
    }
}

/// A byte written to work RAM reads back at its address and at every mirror
/// of it, and no other byte changes.
pub proof fn lemma_wram_write_then_read(m: (Seq<u8>, Seq<u8>), address: u32, other: u32, value: u8)
    requires
        wram_sized(m),
        is_wram_address(address),
        is_wram_address(other),
    ensures
        wram_sized(Memory::spec_write_8(m, address, value)),
        Memory::spec_read_8(Memory::spec_write_8(m, address, value), other) == if (address
            <= 0x02FFFFFF) == (other <= 0x02FFFFFF) && (if address <= 0x02FFFFFF {
            address % 0x40000 == other % 0x40000
        } else {
            address % 0x8000 == other % 0x8000
        }) {
            value
        } else {
            Memory::spec_read_8(m, other)
        },
{
}

} // verus!
