use vstd::prelude::*;

verus! {

/// Kinds of bus access; each is one bit of an access pattern byte.
#[derive(Debug, Copy, Clone, PartialEq, Eq, Structural)]
pub enum MemoryAccess {
    NonSequential,
    Sequential,
    Instruction,
    Dma,
    Lock,
}

impl MemoryAccess {
    /// The bit that stands for the access kind in an access pattern
    /// (`NonSequential` has none).
    pub open spec fn spec_bits(self) -> u8 {
        match self {
            MemoryAccess::NonSequential => 0b0,
            MemoryAccess::Sequential => 0b1,
            MemoryAccess::Instruction => 0b10,
            MemoryAccess::Dma => 0b100,
            MemoryAccess::Lock => 0b1000,
        }
    }

    pub fn bits(self) -> (r: u8)
        ensures
            r == self.spec_bits(),
    {
        match self {
            MemoryAccess::NonSequential => 0b0,
            MemoryAccess::Sequential => 0b1,
            MemoryAccess::Instruction => 0b10,
            MemoryAccess::Dma => 0b100,
            MemoryAccess::Lock => 0b1000,
        }
    }

    pub fn is_set(self, access_pattern: u8) -> (r: bool)
        ensures
            r == (access_pattern & self.spec_bits() != 0),
    {
        access_pattern & self.bits() != 0
    }
}

#[derive(Debug, Copy, Clone, PartialEq, Eq, Structural)]
pub enum MemoryAccessWidth {
    Byte,
    HalfWord,
    Word,
}

/// A byte-addressed memory of the system bus, modelled by its view. Wider
/// accesses are little-endian compositions of byte accesses.
pub trait SystemMemoryAccess: View + Sized {
    /// Whether a byte read at `address` is defined for the device.
    spec fn spec_readable(m: Self::V, address: u32) -> bool;

    /// Whether writing `value` at `address` is defined for the device.
    spec fn spec_writable(m: Self::V, address: u32, value: u8) -> bool;

    /// The byte read at `address`.
    spec fn spec_read_8(m: Self::V, address: u32) -> u8;

    /// The device after `value` has been written at `address`.
    spec fn spec_write_8(m: Self::V, address: u32, value: u8) -> Self::V;

    fn read_8(&self, address: u32) -> (r: u8)
        requires
            Self::spec_readable(self@, address),
        ensures
            r == Self::spec_read_8(self@, address),
    ;

    fn read_16(&self, address: u32) -> (r: u16)
        requires
            address < u32::MAX,
            Self::spec_readable(self@, address),
            Self::spec_readable(self@, (address + 1) as u32),
        ensures
            r == ((Self::spec_read_8(self@, (address + 1) as u32) as u16) << 8u16) | (Self::spec_read_8(
                self@,
                address,
            ) as u16),
    {
        let byte1 = self.read_8(address) as u16;
        let byte2 = self.read_8(address + 1) as u16;
        byte2 << 8 | byte1
    }

    fn read_32(&self, address: u32) -> (r: u32)
        requires
            address <= u32::MAX - 3,
            Self::spec_readable(self@, address),
            Self::spec_readable(self@, (address + 1) as u32),
            Self::spec_readable(self@, (address + 2) as u32),
            Self::spec_readable(self@, (address + 3) as u32),
        ensures
            r == ((((Self::spec_read_8(self@, (address + 3) as u32) as u16) << 8u16) | (Self::spec_read_8(
                self@,
                (address + 2) as u32,
            ) as u16)) as u32) << 16u32 | ((((Self::spec_read_8(self@, (address + 1) as u32) as u16)
                << 8u16) | (Self::spec_read_8(self@, address) as u16)) as u32),
    {
        let half_word1 = self.read_16(address) as u32;
        let half_word2 = self.read_16(address + 2) as u32;
        half_word2 << 16 | half_word1
    }

    fn write_8(&mut self, address: u32, value: u8)
        requires
            Self::spec_writable(old(self)@, address, value),
        ensures
            final(self)@ == Self::spec_write_8(old(self)@, address, value),
    ;

    fn write_16(&mut self, address: u32, value: u16)
        requires
            address < u32::MAX,
            Self::spec_writable(old(self)@, address, (value & 0xFF) as u8),
            Self::spec_writable(
                Self::spec_write_8(old(self)@, address, (value & 0xFF) as u8),
                (address + 1) as u32,
                (value >> 8u16) as u8,
            ),
        ensures
            final(self)@ == Self::spec_write_8(
                Self::spec_write_8(old(self)@, address, (value & 0xFF) as u8),
                (address + 1) as u32,
                (value >> 8u16) as u8,
            ),
    {
        let byte1 = (value & 0xFF) as u8;
        let byte2 = (value >> 8) as u8;
        self.write_8(address, byte1);
        self.write_8(address + 1, byte2);
    }

    fn write_32(&mut self, address: u32, value: u32)
        requires
            address <= u32::MAX - 3,
            ({
                let s1 = Self::spec_write_8(old(self)@, address, (value & 0xFF) as u8);
                let s2 = Self::spec_write_8(s1, (address + 1) as u32, ((value & 0xFFFF) as u16 >> 8u16) as u8);
                let s3 = Self::spec_write_8(s2, (address + 2) as u32, ((value >> 16u32) as u16 & 0xFF) as u8);
                &&& Self::spec_writable(old(self)@, address, (value & 0xFF) as u8)
                &&& Self::spec_writable(s1, (address + 1) as u32, ((value & 0xFFFF) as u16 >> 8u16) as u8)
                &&& Self::spec_writable(s2, (address + 2) as u32, ((value >> 16u32) as u16 & 0xFF) as u8)
                &&& Self::spec_writable(s3, (address + 3) as u32, ((value >> 16u32) as u16 >> 8u16) as u8)
            }),
        ensures
            final(self)@ == Self::spec_write_8(
                Self::spec_write_8(
                    Self::spec_write_8(
                        Self::spec_write_8(old(self)@, address, (value & 0xFF) as u8),
                        (address + 1) as u32,
                        ((value & 0xFFFF) as u16 >> 8u16) as u8,
                    ),
                    (address + 2) as u32,
                    ((value >> 16u32) as u16 & 0xFF) as u8,
                ),
                (address + 3) as u32,
                ((value >> 16u32) as u16 >> 8u16) as u8,
            ),
    {
        let half_word1 = (value & 0xFFFF) as u16;
        let half_word2 = (value >> 16) as u16;
        proof {
            assert((half_word1 & 0xFF) as u8 == (value & 0xFF) as u8) by (bit_vector)
                requires
                    half_word1 == (value & 0xFFFF) as u16,
            ;
        }
        self.write_16(address, half_word1);
        self.write_16(address + 2, half_word2);
    }
}

} // verus!
