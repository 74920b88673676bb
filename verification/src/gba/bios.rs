use vstd::prelude::*;

verus! {

/// The last address of the BIOS.
pub const BIOS_END: u32 = 0x3FFF;

/// The size of a BIOS image.
pub const BIOS_SIZE: usize = 0x4000;

/// The word the BIOS is taken to have fetched last, at start-up.
pub const BIOS_STARTUP_FETCH: u32 = 0xE129F000;

#[derive(Debug, PartialEq, Eq, Structural)]
pub enum BiosError {
    InvalidBiosLength(usize),
}

/// The BIOS ROM. While the CPU runs outside it, reads of it give the word it
/// fetched last.
#[derive(Debug)]
pub struct Bios {
    data: Vec<u8>,
    loaded: bool,
    last_fetched: u32,
    pc_in_bios: bool,
}

/// What the BIOS holds.
pub struct BiosState {
    pub data: Seq<u8>,
    pub loaded: bool,
    pub last_fetched: u32,
    pub pc_in_bios: bool,
}

impl View for Bios {
    type V = BiosState;

    closed spec fn view(&self) -> BiosState {
        BiosState {
            data: self.data@,
            loaded: self.loaded,
            last_fetched: self.last_fetched,
            pc_in_bios: self.pc_in_bios,
        }
    }
}

/// The little-endian word of four bytes.
pub open spec fn spec_le_word(b0: u8, b1: u8, b2: u8, b3: u8) -> u32 {
    (b0 as u32) | ((b1 as u32) << 8u32) | ((b2 as u32) << 16u32) | ((b3 as u32) << 24u32)
}

fn le_word(b0: u8, b1: u8, b2: u8, b3: u8) -> (r: u32)
    ensures
        r == spec_le_word(b0, b1, b2, b3),
{
    (b0 as u32) | ((b1 as u32) << 8u32) | ((b2 as u32) << 16u32) | ((b3 as u32) << 24u32)
}

/// The word-aligned address of `address`.
pub open spec fn spec_word_aligned(address: u32) -> u32 {
    (address - address % 4) as u32
}

/// The word a BIOS read at `address` gives: from the ROM while the CPU runs
/// inside the BIOS, else the word fetched last.
pub open spec fn spec_read_word(s: BiosState, address: u32) -> u32 {
    let a = spec_word_aligned(address) as int;
    if s.pc_in_bios && a <= BIOS_END {
        spec_le_word(s.data[a], s.data[a + 1], s.data[a + 2], s.data[a + 3])
    } else {
        s.last_fetched
    }
}

/// The BIOS after a read at `address`: it remembers the word read.
pub open spec fn spec_after_read(s: BiosState, address: u32) -> BiosState {
    BiosState { last_fetched: spec_read_word(s, address), ..s }
}

impl Bios {
    #[verifier::type_invariant]
    spec fn image_size(self) -> bool {
        self.data.len() == BIOS_SIZE
    }

    /// A BIOS from an image, which must be 16 KiB long.
    pub fn load(buffer: Vec<u8>) -> (r: Result<Bios, BiosError>)
        ensures
            buffer.len() != BIOS_SIZE ==> r == Err::<Bios, BiosError>(BiosError::InvalidBiosLength(buffer.len())),
            buffer.len() == BIOS_SIZE ==> (r matches Ok(bios) && bios@ == (BiosState {
                data: buffer@,
                loaded: true,
                last_fetched: BIOS_STARTUP_FETCH,
                pc_in_bios: true,
            })),
    {
        let length = buffer.len();
        if length != BIOS_SIZE {
            return Err(BiosError::InvalidBiosLength(length));
        }
        let loaded = buffer.len() != 0;
        Ok(Self { data: buffer, loaded, last_fetched: BIOS_STARTUP_FETCH, pc_in_bios: true })
    }

    pub fn loaded(&self) -> (r: bool)
        ensures
            r == self@.loaded,
    {
        self.loaded
    }

    /// Records whether the CPU now runs inside the BIOS.
    pub fn set_pc_ref(&mut self, pc: u32)
        ensures
            final(self)@ == (BiosState { pc_in_bios: pc <= BIOS_END, ..old(self)@ }),
    {
        proof {
            use_type_invariant(&*self);
        }
        self.pc_in_bios = pc <= BIOS_END;
    }

    pub fn read_32(&mut self, address: u32) -> (r: u32)
        ensures
            r == spec_read_word(old(self)@, address),
            final(self)@ == spec_after_read(old(self)@, address),
    {
        proof {
            use_type_invariant(&*self);
        }
        let aligned_address = address - address % 4;
        if self.pc_in_bios && aligned_address <= BIOS_END {
            let a = aligned_address as usize;
            let word = le_word(self.data[a], self.data[a + 1], self.data[a + 2], self.data[a + 3]);
            self.last_fetched = word;
            word
        } else {
            self.last_fetched
        }
    }

    /// The byte of the word read that `address` selects.
    pub fn read_8(&mut self, address: u32) -> (r: u8)
        ensures
            r == (spec_read_word(old(self)@, address) >> ((address % 4) * 8) as u32) as u8,
            final(self)@ == spec_after_read(old(self)@, address),
    {
        let word = self.read_32(address - address % 4);
        assert(spec_word_aligned((address - address % 4) as u32) == spec_word_aligned(address));
        (word >> ((address % 4) * 8)) as u8
    }

    /// The half-word of the word read that `address` selects.
    pub fn read_16(&mut self, address: u32) -> (r: u16)
        ensures
            r == (spec_read_word(old(self)@, address) >> ((address % 4) / 2 * 16) as u32) as u16,
            final(self)@ == spec_after_read(old(self)@, address),
    {
        let aligned_address = address - address % 2;
        let word = self.read_32(aligned_address - aligned_address % 4);
        assert(spec_word_aligned((aligned_address - aligned_address % 4) as u32) == spec_word_aligned(
            address,
        ));
        (word >> ((address % 4) / 2 * 16)) as u16
    }

    /// The BIOS is read-only: writes are ignored.
    pub fn write_8(&mut self, address: u32, value: u8)
        ensures
            final(self)@ == old(self)@,
    {
    }
}

/// Once the CPU has left the BIOS, every BIOS read gives the word that the
/// last read from inside the BIOS fetched.
pub proof fn lemma_bios_reads_last_fetch_outside(s: BiosState, inside: u32, pc: u32, outside: u32)
    requires
        pc > BIOS_END,
    ensures
        spec_read_word(
            BiosState { pc_in_bios: pc <= BIOS_END, ..spec_after_read(s, inside) },
            outside,
        ) == spec_read_word(s, inside),
{
}

} // verus!
