use crate::common::memory::SystemMemoryAccess;
use vstd::prelude::*;

verus! {

pub const EEPROM_512B_SIZE: usize = 0x200;

pub const EEPROM_8KB_SIZE: usize = 0x2000;

/// The byte of the cartridge bus at `address`: the ROM's byte where the ROM
/// reaches, else the open-bus value (the low half-word of the address halved).
pub open spec fn spec_rom_read(rom: Seq<u8>, address: u32) -> u8 {
    let offset = address & 0x01FFFFFF;
    if (offset as int) < rom.len() {
        rom[offset as int]
    } else {
        (((address >> 1u32) & 0xFFFF) >> ((address & 1) * 8)) as u8
    }
}

/// A cartridge whose ROM the bus reads.
pub trait CartridgeBackup {
    spec fn spec_rom(&self) -> Seq<u8>;

    fn rom(&self) -> (r: &[u8])
        ensures
            r@ == self.spec_rom(),
    ;

    fn rom_read(&self, address: u32) -> (r: u8)
        ensures
            r == spec_rom_read(self.spec_rom(), address),
    {
        let offset = (address & 0x01FFFFFF) as usize;
        let rom = self.rom();
        if offset < rom.len() {
            rom[offset]
        } else {
            assert((address & 1) <= 1) by (bit_vector);
            let shift = (address & 1) * 8;
            (((address >> 1) & 0xFFFF) >> shift) as u8
        }
    }
}

/// A cartridge with EEPROM backup.
pub struct Eeprom {
    rom: Vec<u8>,
}

impl Eeprom {
    pub fn new(rom: Vec<u8>) -> (r: Self)
        ensures
            r@ == rom@,
    {
        Self { rom }
    }
}

impl View for Eeprom {
    type V = Seq<u8>;

    closed spec fn view(&self) -> Seq<u8> {
        self.rom@
    }
}

impl CartridgeBackup for Eeprom {
    open spec fn spec_rom(&self) -> Seq<u8> {
        self@
    }

    fn rom(&self) -> (r: &[u8]) {
        self.rom.as_slice()
    }
}

/// The addresses of the EEPROM's region: its top 256 bytes when the ROM is
/// over 16 MiB, else all of 0x0D000000..=0x0DFFFFFF.
pub open spec fn eeprom_region(rom: Seq<u8>, address: u32) -> bool {
    if rom.len() > 0x1000000 {
        0x0DFFFF00 <= address <= 0x0DFFFFFF
    } else {
        0x0D000000 <= address <= 0x0DFFFFFF
    }
}

impl SystemMemoryAccess for Eeprom {
    open spec fn spec_readable(m: Seq<u8>, address: u32) -> bool {
        eeprom_region(m, address)
    }

    open spec fn spec_writable(m: Seq<u8>, address: u32, value: u8) -> bool {
        eeprom_region(m, address)
    }

    open spec fn spec_read_8(m: Seq<u8>, address: u32) -> u8 {
        spec_rom_read(m, address)
    }

    /// Writes are ignored.
    open spec fn spec_write_8(m: Seq<u8>, address: u32, value: u8) -> Seq<u8> {
        m
    }

    fn read_8(&self, address: u32) -> (r: u8) {
        self.rom_read(address)
    }

    fn write_8(&mut self, address: u32, value: u8) {
    }
}

} // verus!
