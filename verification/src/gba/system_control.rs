use crate::common::memory::{MemoryAccess, MemoryAccessWidth, SystemMemoryAccess};
use crate::common::register_ops::RegisterWord;
use crate::gba::bitfield::{field16, field32, get16, get32, lemma_field16_bound, lemma_field32_bound};
use vstd::prelude::*;

verus! {

/// WAITCNT: the GamePak and SRAM wait states.
#[derive(Debug, Copy, Clone, PartialEq, Eq, Structural)]
pub struct WaitStateControl {
    bits: u16,
}

impl View for WaitStateControl {
    type V = u16;

    closed spec fn view(&self) -> u16 {
        self.bits
    }
}

impl WaitStateControl {
    pub fn from_bits(bits: u16) -> (r: Self)
        ensures
            r@ == bits,
    {
        WaitStateControl { bits: bits }
    }

    pub fn into_bits(self) -> (r: u16)
        ensures
            r == self@,
    {
        self.bits
    }

    /// The bits the register holds after `bits` are written to it: fields
    /// reserved by the hardware keep their value.
    pub open spec fn spec_merged(current: u16, bits: u16) -> u16 {
        (current & 0x2000) | (bits & !0x2000)
    }

    pub open spec fn spec_write_bits(self, bits: u16) -> u16 {
        Self::spec_merged(self@, bits)
    }

    pub fn write_bits(&mut self, bits: u16)
        ensures
            final(self)@ == old(self).spec_write_bits(bits),
    {
        self.bits = (self.bits & 0x2000) | (bits & !0x2000);
    }

    pub open spec fn spec_sram_wait_control(self) -> u8 {
        field16(self@, 0, 2) as u8
    }

    pub fn sram_wait_control(&self) -> (r: u8)
        ensures
            r == self.spec_sram_wait_control(),
            r <= 3,
    {
        proof {
            lemma_field16_bound(self.bits, 0, 2);
        }
        get16(self.bits, 0, 2) as u8
    }

    pub open spec fn spec_ws0_first_access(self) -> u8 {
        field16(self@, 2, 2) as u8
    }

    pub fn ws0_first_access(&self) -> (r: u8)
        ensures
            r == self.spec_ws0_first_access(),
            r <= 3,
    {
        proof {
            lemma_field16_bound(self.bits, 2, 2);
        }
        get16(self.bits, 2, 2) as u8
    }

    pub open spec fn spec_ws0_second_access(self) -> bool {
        field16(self@, 4, 1) == 1
    }

    pub fn ws0_second_access(&self) -> (r: bool)
        ensures
            r == self.spec_ws0_second_access(),
    {
        get16(self.bits, 4, 1) == 1
    }

    pub open spec fn spec_ws1_first_access(self) -> u8 {
        field16(self@, 5, 2) as u8
    }

    pub fn ws1_first_access(&self) -> (r: u8)
        ensures
            r == self.spec_ws1_first_access(),
            r <= 3,
    {
        proof {
            lemma_field16_bound(self.bits, 5, 2);
        }
        get16(self.bits, 5, 2) as u8
    }

    pub open spec fn spec_ws1_second_access(self) -> bool {
        field16(self@, 7, 1) == 1
    }

    pub fn ws1_second_access(&self) -> (r: bool)
        ensures
            r == self.spec_ws1_second_access(),
    {
        get16(self.bits, 7, 1) == 1
    }

    pub open spec fn spec_ws2_first_access(self) -> u8 {
        field16(self@, 8, 2) as u8
    }

    pub fn ws2_first_access(&self) -> (r: u8)
        ensures
            r == self.spec_ws2_first_access(),
            r <= 3,
    {
        proof {
            lemma_field16_bound(self.bits, 8, 2);
        }
        get16(self.bits, 8, 2) as u8
    }

    pub open spec fn spec_ws2_second_access(self) -> bool {
        field16(self@, 10, 1) == 1
    }

    pub fn ws2_second_access(&self) -> (r: bool)
        ensures
            r == self.spec_ws2_second_access(),
    {
        get16(self.bits, 10, 1) == 1
    }

    pub open spec fn spec_phi_terminal_output(self) -> u8 {
        field16(self@, 11, 2) as u8
    }

    pub fn phi_terminal_output(&self) -> (r: u8)
        ensures
            r == self.spec_phi_terminal_output(),
            r <= 3,
    {
        proof {
            lemma_field16_bound(self.bits, 11, 2);
        }
        get16(self.bits, 11, 2) as u8
    }

    pub open spec fn spec_game_pak_prefetch_buffer_enable(self) -> bool {
        field16(self@, 14, 1) == 1
    }

    pub fn game_pak_prefetch_buffer_enable(&self) -> (r: bool)
        ensures
            r == self.spec_game_pak_prefetch_buffer_enable(),
    {
        get16(self.bits, 14, 1) == 1
    }

    pub open spec fn spec_game_pak_type_flag(self) -> bool {
        field16(self@, 15, 1) == 1
    }

    pub fn game_pak_type_flag(&self) -> (r: bool)
        ensures
            r == self.spec_game_pak_type_flag(),
    {
        get16(self.bits, 15, 1) == 1
    }

}

/// The internal memory control register (0x04000800).
#[derive(Debug, Copy, Clone, PartialEq, Eq, Structural)]
pub struct InternalMemoryControl {
    bits: u32,
}

impl View for InternalMemoryControl {
    type V = u32;

    closed spec fn view(&self) -> u32 {
        self.bits
    }
}

impl InternalMemoryControl {
    pub fn from_bits(bits: u32) -> (r: Self)
        ensures
            r@ == bits,
    {
        InternalMemoryControl { bits: bits }
    }

    pub fn into_bits(self) -> (r: u32)
        ensures
            r == self@,
    {
        self.bits
    }

    /// The bits the register holds after `bits` are written to it: fields
    /// reserved by the hardware keep their value.
    pub open spec fn spec_merged(current: u32, bits: u32) -> u32 {
        (current & 0x00FF_FFD0) | (bits & !0x00FF_FFD0)
    }

    pub open spec fn spec_write_bits(self, bits: u32) -> u32 {
        Self::spec_merged(self@, bits)
    }

    pub fn write_bits(&mut self, bits: u32)
        ensures
            final(self)@ == old(self).spec_write_bits(bits),
    {
        self.bits = (self.bits & 0x00FF_FFD0) | (bits & !0x00FF_FFD0);
    }

    pub open spec fn spec_disable_32k_256k_wram(self) -> bool {
        field32(self@, 0, 1) == 1
    }

    pub fn disable_32k_256k_wram(&self) -> (r: bool)
        ensures
            r == self.spec_disable_32k_256k_wram(),
    {
        get32(self.bits, 0, 1) == 1
    }

    pub open spec fn spec_enable_256_wram(self) -> bool {
        field32(self@, 5, 1) == 1
    }

    pub fn enable_256_wram(&self) -> (r: bool)
        ensures
            r == self.spec_enable_256_wram(),
    {
        get32(self.bits, 5, 1) == 1
    }

    pub open spec fn spec_wait_control_wram(self) -> u8 {
        field32(self@, 24, 4) as u8
    }

    pub fn wait_control_wram(&self) -> (r: u8)
        ensures
            r == self.spec_wait_control_wram(),
            r <= 15,
    {
        proof {
            lemma_field32_bound(self.bits, 24, 4);
        }
        get32(self.bits, 24, 4) as u8
    }

}

/// GamePak wait cycles of a first (non-sequential) access, by the WAITCNT
/// setting 0..=3.
pub open spec fn spec_gamepak_non_sequential(setting: int) -> usize {
    if setting == 0 {
        4
    } else if setting == 1 {
        3
    } else if setting == 2 {
        2
    } else {
        8
    }
}

/// GamePak wait cycles of a second (sequential) access in wait state
/// `region` (0, 1 or 2), by the WAITCNT bit.
pub open spec fn spec_gamepak_sequential(region: int, setting: int) -> usize {
    if setting == 1 {
        1
    } else if region == 0 {
        2
    } else if region == 1 {
        4
    } else {
        8
    }
}

/// The access cycles of each memory region for every WAITCNT: GamePak wait
/// states 0-2 (regions 8-13) take 4, 3, 2 or 8 wait cycles on a first access
/// and 2, 4 or 8 (or 1 where the second-access bit is set) on a sequential
/// one, plus the access itself, a 32-bit access taking a 16-bit one of each
/// kind (non-sequential) or two sequential ones; SRAM (regions 14-15) takes
/// 4, 3, 2 or 8 wait cycles on every access; on-board work RAM 3 cycles per
/// half-word; palette RAM and VRAM 2 cycles per word; the rest 1.
pub proof fn lemma_wait_state_table(waitcnt: u16)
    ensures
        (waitcnt >> 2u16) & 3 == 0 ==> spec_n_cycles_16(waitcnt, 8) == 5,
        (waitcnt >> 2u16) & 3 == 1 ==> spec_n_cycles_16(waitcnt, 8) == 4,
        (waitcnt >> 2u16) & 3 == 2 ==> spec_n_cycles_16(waitcnt, 8) == 3,
        (waitcnt >> 2u16) & 3 == 3 ==> spec_n_cycles_16(waitcnt, 8) == 9,
        (waitcnt >> 4u16) & 1 == 0 ==> spec_s_cycles_16(waitcnt, 8) == 3,
        (waitcnt >> 4u16) & 1 == 1 ==> spec_s_cycles_16(waitcnt, 8) == 2,
        spec_n_cycles_32(waitcnt, 8) == spec_n_cycles_16(waitcnt, 8) + spec_s_cycles_16(waitcnt, 8),
        spec_s_cycles_32(waitcnt, 8) == 2 * spec_s_cycles_16(waitcnt, 8),
        (waitcnt >> 2u16) & 3 == 0 ==> spec_n_cycles_16(waitcnt, 9) == 5,
        (waitcnt >> 2u16) & 3 == 1 ==> spec_n_cycles_16(waitcnt, 9) == 4,
        (waitcnt >> 2u16) & 3 == 2 ==> spec_n_cycles_16(waitcnt, 9) == 3,
        (waitcnt >> 2u16) & 3 == 3 ==> spec_n_cycles_16(waitcnt, 9) == 9,
        (waitcnt >> 4u16) & 1 == 0 ==> spec_s_cycles_16(waitcnt, 9) == 3,
        (waitcnt >> 4u16) & 1 == 1 ==> spec_s_cycles_16(waitcnt, 9) == 2,
        spec_n_cycles_32(waitcnt, 9) == spec_n_cycles_16(waitcnt, 9) + spec_s_cycles_16(waitcnt, 9),
        spec_s_cycles_32(waitcnt, 9) == 2 * spec_s_cycles_16(waitcnt, 9),
        (waitcnt >> 5u16) & 3 == 0 ==> spec_n_cycles_16(waitcnt, 10) == 5,
        (waitcnt >> 5u16) & 3 == 1 ==> spec_n_cycles_16(waitcnt, 10) == 4,
        (waitcnt >> 5u16) & 3 == 2 ==> spec_n_cycles_16(waitcnt, 10) == 3,
        (waitcnt >> 5u16) & 3 == 3 ==> spec_n_cycles_16(waitcnt, 10) == 9,
        (waitcnt >> 7u16) & 1 == 0 ==> spec_s_cycles_16(waitcnt, 10) == 5,
        (waitcnt >> 7u16) & 1 == 1 ==> spec_s_cycles_16(waitcnt, 10) == 2,
        spec_n_cycles_32(waitcnt, 10) == spec_n_cycles_16(waitcnt, 10) + spec_s_cycles_16(waitcnt, 10),
        spec_s_cycles_32(waitcnt, 10) == 2 * spec_s_cycles_16(waitcnt, 10),
        (waitcnt >> 5u16) & 3 == 0 ==> spec_n_cycles_16(waitcnt, 11) == 5,
        (waitcnt >> 5u16) & 3 == 1 ==> spec_n_cycles_16(waitcnt, 11) == 4,
        (waitcnt >> 5u16) & 3 == 2 ==> spec_n_cycles_16(waitcnt, 11) == 3,
        (waitcnt >> 5u16) & 3 == 3 ==> spec_n_cycles_16(waitcnt, 11) == 9,
        (waitcnt >> 7u16) & 1 == 0 ==> spec_s_cycles_16(waitcnt, 11) == 5,
        (waitcnt >> 7u16) & 1 == 1 ==> spec_s_cycles_16(waitcnt, 11) == 2,
        spec_n_cycles_32(waitcnt, 11) == spec_n_cycles_16(waitcnt, 11) + spec_s_cycles_16(waitcnt, 11),
        spec_s_cycles_32(waitcnt, 11) == 2 * spec_s_cycles_16(waitcnt, 11),
        (waitcnt >> 8u16) & 3 == 0 ==> spec_n_cycles_16(waitcnt, 12) == 5,
        (waitcnt >> 8u16) & 3 == 1 ==> spec_n_cycles_16(waitcnt, 12) == 4,
        (waitcnt >> 8u16) & 3 == 2 ==> spec_n_cycles_16(waitcnt, 12) == 3,
        (waitcnt >> 8u16) & 3 == 3 ==> spec_n_cycles_16(waitcnt, 12) == 9,
        (waitcnt >> 10u16) & 1 == 0 ==> spec_s_cycles_16(waitcnt, 12) == 9,
        (waitcnt >> 10u16) & 1 == 1 ==> spec_s_cycles_16(waitcnt, 12) == 2,
        spec_n_cycles_32(waitcnt, 12) == spec_n_cycles_16(waitcnt, 12) + spec_s_cycles_16(waitcnt, 12),
        spec_s_cycles_32(waitcnt, 12) == 2 * spec_s_cycles_16(waitcnt, 12),
        (waitcnt >> 8u16) & 3 == 0 ==> spec_n_cycles_16(waitcnt, 13) == 5,
        (waitcnt >> 8u16) & 3 == 1 ==> spec_n_cycles_16(waitcnt, 13) == 4,
        (waitcnt >> 8u16) & 3 == 2 ==> spec_n_cycles_16(waitcnt, 13) == 3,
        (waitcnt >> 8u16) & 3 == 3 ==> spec_n_cycles_16(waitcnt, 13) == 9,
        (waitcnt >> 10u16) & 1 == 0 ==> spec_s_cycles_16(waitcnt, 13) == 9,
        (waitcnt >> 10u16) & 1 == 1 ==> spec_s_cycles_16(waitcnt, 13) == 2,
        spec_n_cycles_32(waitcnt, 13) == spec_n_cycles_16(waitcnt, 13) + spec_s_cycles_16(waitcnt, 13),
        spec_s_cycles_32(waitcnt, 13) == 2 * spec_s_cycles_16(waitcnt, 13),
        waitcnt & 3 == 0 ==> spec_n_cycles_16(waitcnt, 14) == 5,
        waitcnt & 3 == 0 ==> spec_s_cycles_16(waitcnt, 14) == 5,
        waitcnt & 3 == 0 ==> spec_n_cycles_32(waitcnt, 14) == 5,
        waitcnt & 3 == 0 ==> spec_s_cycles_32(waitcnt, 14) == 5,
        waitcnt & 3 == 1 ==> spec_n_cycles_16(waitcnt, 14) == 4,
        waitcnt & 3 == 1 ==> spec_s_cycles_16(waitcnt, 14) == 4,
        waitcnt & 3 == 1 ==> spec_n_cycles_32(waitcnt, 14) == 4,
        waitcnt & 3 == 1 ==> spec_s_cycles_32(waitcnt, 14) == 4,
        waitcnt & 3 == 2 ==> spec_n_cycles_16(waitcnt, 14) == 3,
        waitcnt & 3 == 2 ==> spec_s_cycles_16(waitcnt, 14) == 3,
        waitcnt & 3 == 2 ==> spec_n_cycles_32(waitcnt, 14) == 3,
        waitcnt & 3 == 2 ==> spec_s_cycles_32(waitcnt, 14) == 3,
        waitcnt & 3 == 3 ==> spec_n_cycles_16(waitcnt, 14) == 9,
        waitcnt & 3 == 3 ==> spec_s_cycles_16(waitcnt, 14) == 9,
        waitcnt & 3 == 3 ==> spec_n_cycles_32(waitcnt, 14) == 9,
        waitcnt & 3 == 3 ==> spec_s_cycles_32(waitcnt, 14) == 9,
        waitcnt & 3 == 0 ==> spec_n_cycles_16(waitcnt, 15) == 5,
        waitcnt & 3 == 0 ==> spec_s_cycles_16(waitcnt, 15) == 5,
        waitcnt & 3 == 0 ==> spec_n_cycles_32(waitcnt, 15) == 5,
        waitcnt & 3 == 0 ==> spec_s_cycles_32(waitcnt, 15) == 5,
        waitcnt & 3 == 1 ==> spec_n_cycles_16(waitcnt, 15) == 4,
        waitcnt & 3 == 1 ==> spec_s_cycles_16(waitcnt, 15) == 4,
        waitcnt & 3 == 1 ==> spec_n_cycles_32(waitcnt, 15) == 4,
        waitcnt & 3 == 1 ==> spec_s_cycles_32(waitcnt, 15) == 4,
        waitcnt & 3 == 2 ==> spec_n_cycles_16(waitcnt, 15) == 3,
        waitcnt & 3 == 2 ==> spec_s_cycles_16(waitcnt, 15) == 3,
        waitcnt & 3 == 2 ==> spec_n_cycles_32(waitcnt, 15) == 3,
        waitcnt & 3 == 2 ==> spec_s_cycles_32(waitcnt, 15) == 3,
        waitcnt & 3 == 3 ==> spec_n_cycles_16(waitcnt, 15) == 9,
        waitcnt & 3 == 3 ==> spec_s_cycles_16(waitcnt, 15) == 9,
        waitcnt & 3 == 3 ==> spec_n_cycles_32(waitcnt, 15) == 9,
        waitcnt & 3 == 3 ==> spec_s_cycles_32(waitcnt, 15) == 9,
        spec_n_cycles_16(waitcnt, 2) == 3,
        spec_s_cycles_16(waitcnt, 2) == 3,
        spec_n_cycles_32(waitcnt, 2) == 6,
        spec_s_cycles_32(waitcnt, 2) == 6,
        spec_n_cycles_16(waitcnt, 5) == 1 && spec_s_cycles_16(waitcnt, 5) == 1,
        spec_n_cycles_32(waitcnt, 5) == 2 && spec_s_cycles_32(waitcnt, 5) == 2,
        spec_n_cycles_16(waitcnt, 6) == 1 && spec_s_cycles_16(waitcnt, 6) == 1,
        spec_n_cycles_32(waitcnt, 6) == 2 && spec_s_cycles_32(waitcnt, 6) == 2,
        spec_n_cycles_16(waitcnt, 0) == 1 && spec_s_cycles_16(waitcnt, 0) == 1 && spec_n_cycles_32(waitcnt, 0) == 1 && spec_s_cycles_32(waitcnt, 0) == 1,
        spec_n_cycles_16(waitcnt, 1) == 1 && spec_s_cycles_16(waitcnt, 1) == 1 && spec_n_cycles_32(waitcnt, 1) == 1 && spec_s_cycles_32(waitcnt, 1) == 1,
        spec_n_cycles_16(waitcnt, 3) == 1 && spec_s_cycles_16(waitcnt, 3) == 1 && spec_n_cycles_32(waitcnt, 3) == 1 && spec_s_cycles_32(waitcnt, 3) == 1,
        spec_n_cycles_16(waitcnt, 4) == 1 && spec_s_cycles_16(waitcnt, 4) == 1 && spec_n_cycles_32(waitcnt, 4) == 1 && spec_s_cycles_32(waitcnt, 4) == 1,
        spec_n_cycles_16(waitcnt, 7) == 1 && spec_s_cycles_16(waitcnt, 7) == 1 && spec_n_cycles_32(waitcnt, 7) == 1 && spec_s_cycles_32(waitcnt, 7) == 1,
{
    assert(field16(waitcnt, 0, 2) == waitcnt & 3 && field16(waitcnt, 2, 2) == (waitcnt >> 2u16) & 3
        && field16(waitcnt, 5, 2) == (waitcnt >> 5u16) & 3 && field16(waitcnt, 8, 2) == (waitcnt >> 8u16)
        & 3 && field16(waitcnt, 4, 1) == (waitcnt >> 4u16) & 1 && field16(waitcnt, 7, 1) == (waitcnt
        >> 7u16) & 1 && field16(waitcnt, 10, 1) == (waitcnt >> 10u16) & 1 && field16(waitcnt, 4, 1) <= 1
        && field16(waitcnt, 7, 1) <= 1 && field16(waitcnt, 10, 1) <= 1 && field16(waitcnt, 0, 2) <= 3
        && field16(waitcnt, 2, 2) <= 3 && field16(waitcnt, 5, 2) <= 3 && field16(waitcnt, 8, 2) <= 3)
        by (bit_vector);
}

fn gamepak_non_sequential_cycles(setting: usize) -> (r: usize)
    requires
        setting < 4,
    ensures
        r == spec_gamepak_non_sequential(setting as int),
{
    match setting {
        0 => 4,
        1 => 3,
        2 => 2,
        _ => 8,
    }
}

fn gamepak_sequential_cycles(region: usize, setting: usize) -> (r: usize)
    requires
        region < 3,
        setting < 2,
    ensures
        r == spec_gamepak_sequential(region as int, setting as int),
{
    if setting == 1 {
        1
    } else if region == 0 {
        2
    } else if region == 1 {
        4
    } else {
        8
    }
}

/// The first-access setting of wait state `region` in WAITCNT.
pub open spec fn spec_first_access(waitcnt: u16, region: int) -> int {
    if region == 0 {
        field16(waitcnt, 2, 2) as int
    } else if region == 1 {
        field16(waitcnt, 5, 2) as int
    } else {
        field16(waitcnt, 8, 2) as int
    }
}

/// The second-access bit of wait state `region` in WAITCNT.
pub open spec fn spec_second_access(waitcnt: u16, region: int) -> int {
    if region == 0 {
        field16(waitcnt, 4, 1) as int
    } else if region == 1 {
        field16(waitcnt, 7, 1) as int
    } else {
        field16(waitcnt, 10, 1) as int
    }
}

/// Cycles of a 16-bit non-sequential access in the memory region whose
/// address has `index` as its top byte.
pub open spec fn spec_n_cycles_16(waitcnt: u16, index: int) -> usize {
    if 8 <= index < 14 {
        (1 + spec_gamepak_non_sequential(spec_first_access(waitcnt, (index - 8) / 2))) as usize
    } else if 14 <= index < 16 {
        (1 + spec_gamepak_non_sequential(field16(waitcnt, 0, 2) as int)) as usize
    } else if index == 2 {
        3
    } else {
        1
    }
}

/// Cycles of a 16-bit sequential access in the region `index`.
pub open spec fn spec_s_cycles_16(waitcnt: u16, index: int) -> usize {
    if 8 <= index < 14 {
        (1 + spec_gamepak_sequential(
            (index - 8) / 2,
            spec_second_access(waitcnt, (index - 8) / 2),
        )) as usize
    } else if 14 <= index < 16 {
        (1 + spec_gamepak_non_sequential(field16(waitcnt, 0, 2) as int)) as usize
    } else if index == 2 {
        3
    } else {
        1
    }
}

/// Cycles of a 32-bit non-sequential access in the region `index`: on the
/// 16-bit GamePak bus, one non-sequential and one sequential access.
pub open spec fn spec_n_cycles_32(waitcnt: u16, index: int) -> usize {
    if 8 <= index < 14 {
        (spec_n_cycles_16(waitcnt, index) + spec_s_cycles_16(waitcnt, index)) as usize
    } else if 14 <= index < 16 {
        (1 + spec_gamepak_non_sequential(field16(waitcnt, 0, 2) as int)) as usize
    } else if index == 2 {
        6
    } else if index == 5 || index == 6 {
        2
    } else {
        1
    }
}

/// Cycles of a 32-bit sequential access in the region `index`: on the
/// 16-bit GamePak bus, two sequential accesses.
pub open spec fn spec_s_cycles_32(waitcnt: u16, index: int) -> usize {
    if 8 <= index < 14 {
        (2 * spec_s_cycles_16(waitcnt, index)) as usize
    } else if 14 <= index < 16 {
        (1 + spec_gamepak_non_sequential(field16(waitcnt, 0, 2) as int)) as usize
    } else if index == 2 {
        6
    } else if index == 5 || index == 6 {
        2
    } else {
        1
    }
}

/// Access cycles per memory region (the top byte of the address), for each
/// width and kind of access.
#[derive(Copy, Clone)]
pub struct ClockCycleLuts {
    pub n_cycles_32_lut: [usize; 16],
    pub s_cycles_32_lut: [usize; 16],
    pub n_cycles_16_lut: [usize; 16],
    pub s_cycles_16_lut: [usize; 16],
}

impl ClockCycleLuts {
    /// The tables agree with WAITCNT at region `index`.
    pub open spec fn spec_matches_at(&self, waitcnt: u16, index: int) -> bool {
        &&& self.n_cycles_16_lut[index] == spec_n_cycles_16(waitcnt, index)
        &&& self.s_cycles_16_lut[index] == spec_s_cycles_16(waitcnt, index)
        &&& self.n_cycles_32_lut[index] == spec_n_cycles_32(waitcnt, index)
        &&& self.s_cycles_32_lut[index] == spec_s_cycles_32(waitcnt, index)
    }

    /// The tables agree with WAITCNT in every region.
    pub open spec fn spec_matches(&self, waitcnt: u16) -> bool {
        forall|index: int| 0 <= index < 16 ==> #[trigger] self.spec_matches_at(waitcnt, index)
    }

    /// `self` and `other` hold the same cycles at region `index`.
    pub open spec fn spec_same_at(&self, other: &Self, index: int) -> bool {
        &&& self.n_cycles_16_lut[index] == other.n_cycles_16_lut[index]
        &&& self.s_cycles_16_lut[index] == other.s_cycles_16_lut[index]
        &&& self.n_cycles_32_lut[index] == other.n_cycles_32_lut[index]
        &&& self.s_cycles_32_lut[index] == other.s_cycles_32_lut[index]
    }

    /// The tables of a WAITCNT of 0, the value at reset.
    pub fn new() -> (r: Self)
        ensures
            r.spec_matches(0),
    {
        let mut n_cycles_16_lut = [1usize; 16];
        let mut s_cycles_16_lut = [1usize; 16];
        let mut n_cycles_32_lut = [1usize; 16];
        let mut s_cycles_32_lut = [1usize; 16];

        n_cycles_32_lut[INDEX_WRAM_BOARD] = 6;
        s_cycles_32_lut[INDEX_WRAM_BOARD] = 6;
        n_cycles_16_lut[INDEX_WRAM_BOARD] = 3;
        s_cycles_16_lut[INDEX_WRAM_BOARD] = 3;

        n_cycles_32_lut[INDEX_PALETTE_RAM] = 2;
        s_cycles_32_lut[INDEX_PALETTE_RAM] = 2;

        n_cycles_32_lut[INDEX_VRAM] = 2;
        s_cycles_32_lut[INDEX_VRAM] = 2;

        let mut luts = ClockCycleLuts { n_cycles_32_lut, s_cycles_32_lut, n_cycles_16_lut, s_cycles_16_lut };
        assert forall|index: int| 0 <= index < 8 implies #[trigger] luts.spec_matches_at(0, index) by {}
        let ghost before = luts;
        luts.update_wait_states(&WaitStateControl::from_bits(0));
        assert forall|index: int| 0 <= index < 16 implies #[trigger] luts.spec_matches_at(0, index) by {
            if index < 8 {
                assert(luts.spec_same_at(&before, index));
                assert(before.spec_matches_at(0, index));
            }
        }
        luts
    }

    /// Sets the GamePak and SRAM regions to the wait states of `waitcnt`;
    /// the other regions keep their cycles.
    pub fn update_wait_states(&mut self, waitcnt: &WaitStateControl)
        ensures
            forall|index: int| 0 <= index < 8 ==> #[trigger] final(self).spec_same_at(old(self), index),
            forall|index: int| 8 <= index < 16 ==> #[trigger] final(self).spec_matches_at(waitcnt@, index),
    {
        let ws0_first_access = waitcnt.ws0_first_access() as usize;
        let ws1_first_access = waitcnt.ws1_first_access() as usize;
        let ws2_first_access = waitcnt.ws2_first_access() as usize;
        let ws0_second_access = waitcnt.ws0_second_access() as usize;
        let ws1_second_access = waitcnt.ws1_second_access() as usize;
        let ws2_second_access = waitcnt.ws2_second_access() as usize;
        let sram_wait_control = waitcnt.sram_wait_control() as usize;
        let ghost w = waitcnt@;
        let ghost start = *self;
        proof {
            lemma_field16_bound(w, 0, 2);
            lemma_field16_bound(w, 2, 2);
            lemma_field16_bound(w, 5, 2);
            lemma_field16_bound(w, 8, 2);
            lemma_field16_bound(w, 4, 1);
            lemma_field16_bound(w, 7, 1);
            lemma_field16_bound(w, 10, 1);
        }

        let n_ws0 = 1 + gamepak_non_sequential_cycles(ws0_first_access);
        let n_ws1 = 1 + gamepak_non_sequential_cycles(ws1_first_access);
        let n_ws2 = 1 + gamepak_non_sequential_cycles(ws2_first_access);
        let s_ws0 = 1 + gamepak_sequential_cycles(0, ws0_second_access);
        let s_ws1 = 1 + gamepak_sequential_cycles(1, ws1_second_access);
        let s_ws2 = 1 + gamepak_sequential_cycles(2, ws2_second_access);
        let sram = 1 + gamepak_non_sequential_cycles(sram_wait_control);

        let mut i: usize = 0;
        while i < 2
            invariant
                i <= 2,
                w == waitcnt@,
                n_ws0 == spec_n_cycles_16(w, 8),
                n_ws1 == spec_n_cycles_16(w, 10),
                n_ws2 == spec_n_cycles_16(w, 12),
                s_ws0 == spec_s_cycles_16(w, 8),
                s_ws1 == spec_s_cycles_16(w, 10),
                s_ws2 == spec_s_cycles_16(w, 12),
                sram == spec_n_cycles_16(w, 14),
                forall|index: int| 0 <= index < 8 ==> #[trigger] self.spec_same_at(&start, index),
                forall|index: int|
                    8 <= index < 16 && (index - 8) % 2 < i ==> #[trigger] self.spec_matches_at(w, index),
            decreases 2 - i,
        {
            let ghost before = *self;
            proof {
                assert(spec_n_cycles_16(w, (INDEX_ROM_WS0 + i) as int) == n_ws0);
                assert(spec_n_cycles_16(w, (INDEX_ROM_WS1 + i) as int) == n_ws1);
                assert(spec_n_cycles_16(w, (INDEX_ROM_WS2 + i) as int) == n_ws2);
                assert(spec_s_cycles_16(w, (INDEX_ROM_WS0 + i) as int) == s_ws0);
                assert(spec_s_cycles_16(w, (INDEX_ROM_WS1 + i) as int) == s_ws1);
                assert(spec_s_cycles_16(w, (INDEX_ROM_WS2 + i) as int) == s_ws2);
                assert(spec_n_cycles_16(w, (INDEX_SRAM_LO + i) as int) == sram);
            }
            self.n_cycles_16_lut[INDEX_ROM_WS0 + i] = n_ws0;
            self.n_cycles_16_lut[INDEX_ROM_WS1 + i] = n_ws1;
            self.n_cycles_16_lut[INDEX_ROM_WS2 + i] = n_ws2;

            self.s_cycles_16_lut[INDEX_ROM_WS0 + i] = s_ws0;
            self.s_cycles_16_lut[INDEX_ROM_WS1 + i] = s_ws1;
            self.s_cycles_16_lut[INDEX_ROM_WS2 + i] = s_ws2;

            // 1N + 1S
            self.n_cycles_32_lut[INDEX_ROM_WS0 + i] = self.n_cycles_16_lut[INDEX_ROM_WS0 + i]
                + self.s_cycles_16_lut[INDEX_ROM_WS0 + i];
            self.n_cycles_32_lut[INDEX_ROM_WS1 + i] = self.n_cycles_16_lut[INDEX_ROM_WS1 + i]
                + self.s_cycles_16_lut[INDEX_ROM_WS1 + i];
            self.n_cycles_32_lut[INDEX_ROM_WS2 + i] = self.n_cycles_16_lut[INDEX_ROM_WS2 + i]
                + self.s_cycles_16_lut[INDEX_ROM_WS2 + i];

            // 2S
            self.s_cycles_32_lut[INDEX_ROM_WS0 + i] = 2 * self.s_cycles_16_lut[INDEX_ROM_WS0 + i];
            self.s_cycles_32_lut[INDEX_ROM_WS1 + i] = 2 * self.s_cycles_16_lut[INDEX_ROM_WS1 + i];
            self.s_cycles_32_lut[INDEX_ROM_WS2 + i] = 2 * self.s_cycles_16_lut[INDEX_ROM_WS2 + i];

            // SRAM
            self.n_cycles_16_lut[INDEX_SRAM_LO + i] = sram;
            self.n_cycles_32_lut[INDEX_SRAM_LO + i] = sram;
            self.s_cycles_16_lut[INDEX_SRAM_LO + i] = sram;
            self.s_cycles_32_lut[INDEX_SRAM_LO + i] = sram;
            assert forall|index: int| 0 <= index < 16 && index != 8 + i && index != 10 + i && index
                != 12 + i && index != 14 + i implies #[trigger] self.spec_same_at(&before, index) by {}
            assert forall|index: int| 0 <= index < 8 implies #[trigger] self.spec_same_at(&start, index) by {
                assert(self.spec_same_at(&before, index));
                assert(before.spec_same_at(&start, index));
            }
            assert forall|index: int|
                8 <= index < 16 && (index - 8) % 2 < i + 1 implies #[trigger] self.spec_matches_at(w, index) by {
                if index == 8 + i || index == 10 + i || index == 12 + i || index == 14 + i {
                } else {
                    assert(self.spec_same_at(&before, index));
                    assert(before.spec_matches_at(w, index));
                }
            }
            i = i + 1;
        }
    }
}

/// The memory region of the on-board work RAM.
pub const INDEX_WRAM_BOARD: usize = 2;

/// The memory region of the palette RAM.
pub const INDEX_PALETTE_RAM: usize = 5;

/// The memory region of the video RAM.
pub const INDEX_VRAM: usize = 6;

/// The first memory region of wait state 0.
pub const INDEX_ROM_WS0: usize = 8;

/// The first memory region of wait state 1.
pub const INDEX_ROM_WS1: usize = 10;

/// The first memory region of wait state 2.
pub const INDEX_ROM_WS2: usize = 12;

/// The first memory region of the GamePak SRAM.
pub const INDEX_SRAM_LO: usize = 14;

#[derive(Debug, Copy, Clone, PartialEq, Eq, Structural)]
pub enum HaltMode {
    Halted,
    Stopped,
}

/// The system control registers: WAITCNT (with the access-cycle tables it
/// sets), POSTFLG, HALTCNT and the internal memory control.
pub struct SystemController {
    cycle_luts: ClockCycleLuts,
    waitstate_control: WaitStateControl,
    post_flag: bool,
    halt_mode: HaltMode,
    internal_memory_control: InternalMemoryControl,
}

/// What the system control registers hold.
pub struct SystemControllerState {
    pub waitstate_control: u16,
    pub post_flag: bool,
    pub halt_mode: HaltMode,
    pub internal_memory_control: u32,
}

impl View for SystemController {
    type V = SystemControllerState;

    closed spec fn view(&self) -> SystemControllerState {
        SystemControllerState {
            waitstate_control: self.waitstate_control@,
            post_flag: self.post_flag,
            halt_mode: self.halt_mode,
            internal_memory_control: self.internal_memory_control@,
        }
    }
}

/// Cycles of an access of `width` and kind `access` to the memory region
/// `index`, under WAITCNT.
pub open spec fn spec_cycles(waitcnt: u16, index: int, width: MemoryAccessWidth, access: MemoryAccess) -> usize {
    match width {
        MemoryAccessWidth::Word => if access == MemoryAccess::NonSequential {
            spec_n_cycles_32(waitcnt, index)
        } else {
            spec_s_cycles_32(waitcnt, index)
        },
        _ => if access == MemoryAccess::NonSequential {
            spec_n_cycles_16(waitcnt, index)
        } else {
            spec_s_cycles_16(waitcnt, index)
        },
    }
}

impl SystemController {
    /// The access-cycle tables always agree with WAITCNT.
    #[verifier::type_invariant]
    spec fn luts_follow_waitcnt(self) -> bool {
        self.cycle_luts.spec_matches(self.waitstate_control@)
    }

    pub fn new() -> (r: Self)
        ensures
            r@ == (SystemControllerState {
                waitstate_control: 0,
                post_flag: false,
                halt_mode: HaltMode::Halted,
                internal_memory_control: 0x0D000020,
            }),
    {
        SystemController {
            cycle_luts: ClockCycleLuts::new(),
            waitstate_control: WaitStateControl::from_bits(0),
            post_flag: false,
            halt_mode: HaltMode::Halted,
            internal_memory_control: InternalMemoryControl::from_bits(0x0D000020),
        }
    }

    pub fn halt_mode(&self) -> (r: HaltMode)
        ensures
            r == self@.halt_mode,
    {
        self.halt_mode
    }

    pub fn set_halt_mode(&mut self, halt_mode: HaltMode)
        ensures
            final(self)@ == (SystemControllerState { halt_mode, ..old(self)@ }),
    {
        proof {
            use_type_invariant(&*self);
        }
        self.halt_mode = halt_mode;
    }

    /// Writes WAITCNT (its reserved bit keeps its value) and sets the
    /// access-cycle tables to the new wait states.
    pub fn set_waitstate_control(&mut self, value: u16)
        ensures
            final(self)@ == (SystemControllerState {
                waitstate_control: WaitStateControl::spec_merged(old(self)@.waitstate_control, value),
                ..old(self)@
            }),
    {
        proof {
            use_type_invariant(&*self);
        }
        let mut waitstate_control = self.waitstate_control;
        waitstate_control.write_bits(value);
        let mut cycle_luts = self.cycle_luts;
        let ghost before = cycle_luts;
        cycle_luts.update_wait_states(&waitstate_control);
        assert forall|index: int| 0 <= index < 16 implies #[trigger] cycle_luts.spec_matches_at(
            waitstate_control@,
            index,
        ) by {
            if index < 8 {
                assert(cycle_luts.spec_same_at(&before, index));
                assert(before.spec_matches_at(self.waitstate_control@, index));
            }
        }
        let post_flag = self.post_flag;
        let halt_mode = self.halt_mode;
        let internal_memory_control = self.internal_memory_control;
        *self = SystemController {
            cycle_luts,
            waitstate_control,
            post_flag,
            halt_mode,
            internal_memory_control,
        };
    }

    /// Cycles of a non-sequential or sequential access of `width` to the
    /// memory region `lut_index` (the top byte of the address).
    pub fn cycles(&self, lut_index: usize, width: MemoryAccessWidth, access: MemoryAccess) -> (r: usize)
        requires
            lut_index < 16,
            access == MemoryAccess::NonSequential || access == MemoryAccess::Sequential,
        ensures
            r == spec_cycles(self@.waitstate_control, lut_index as int, width, access),
    {
        proof {
            use_type_invariant(self);
            assert(self.cycle_luts.spec_matches_at(self.waitstate_control@, lut_index as int));
        }
        match width {
            MemoryAccessWidth::Byte | MemoryAccessWidth::HalfWord => match access {
                MemoryAccess::NonSequential => self.cycle_luts.n_cycles_16_lut[lut_index],
                _ => self.cycle_luts.s_cycles_16_lut[lut_index],
            },
            MemoryAccessWidth::Word => match access {
                MemoryAccess::NonSequential => self.cycle_luts.n_cycles_32_lut[lut_index],
                _ => self.cycle_luts.s_cycles_32_lut[lut_index],
            },
        }
    }
}

/// Whether a byte read at `address` reaches WAITCNT, POSTFLG or the internal
/// memory control.
pub open spec fn system_control_readable(address: u32) -> bool {
    0x04000204 <= address <= 0x04000205 || address == 0x04000300 || 0x04000800 <= address <= 0x04000803
}

impl SystemMemoryAccess for SystemController {
    open spec fn spec_readable(m: SystemControllerState, address: u32) -> bool {
        system_control_readable(address)
    }

    /// A write to HALTCNT that asks for the stop mode is not supported.
    open spec fn spec_writable(m: SystemControllerState, address: u32, value: u8) -> bool {
        !(address == 0x04000301 && value & 0x80 != 0)
    }

    open spec fn spec_read_8(m: SystemControllerState, address: u32) -> u8 {
        if 0x04000204 <= address <= 0x04000205 {
            u16::spec_byte(m.waitstate_control, address)
        } else if address == 0x04000300 {
            if m.post_flag {
                1
            } else {
                0
            }
        } else {
            u32::spec_byte(m.internal_memory_control, address)
        }
    }

    /// Writes elsewhere are ignored.
    open spec fn spec_write_8(m: SystemControllerState, address: u32, value: u8) -> SystemControllerState {
        if 0x04000204 <= address <= 0x04000205 {
            SystemControllerState {
                waitstate_control: WaitStateControl::spec_merged(
                    m.waitstate_control,
                    u16::spec_merge_byte(m.waitstate_control, 0xFFFF, address, value),
                ),
                ..m
            }
        } else if address == 0x04000300 {
            SystemControllerState { post_flag: value & 0x1 != 0, ..m }
        } else if address == 0x04000301 {
            SystemControllerState { halt_mode: HaltMode::Halted, ..m }
        } else if 0x04000800 <= address <= 0x04000803 {
            SystemControllerState {
                internal_memory_control: InternalMemoryControl::spec_merged(
                    m.internal_memory_control,
                    u32::spec_merge_byte(m.internal_memory_control, 0xFFFF_FFFF, address, value),
                ),
                ..m
            }
        } else {
            m
        }
    }

    fn read_8(&self, address: u32) -> (r: u8) {
        if 0x04000204 <= address && address <= 0x04000205 {
            u16::byte_at(self.waitstate_control.into_bits(), address)
        } else if address == 0x04000300 {
            if self.post_flag {
                1
            } else {
                0
            }
        } else {
            u32::byte_at(self.internal_memory_control.into_bits(), address)
        }
    }

    fn write_8(&mut self, address: u32, value: u8) {
        proof {
            use_type_invariant(&*self);
        }
        if 0x04000204 <= address && address <= 0x04000205 {
            let new_value = u16::merge_byte(self.waitstate_control.into_bits(), 0xFFFF, address, value);
            self.set_waitstate_control(new_value);
        } else if address == 0x04000300 {
            self.post_flag = value & 0x1 != 0;
        } else if address == 0x04000301 {
            self.halt_mode = HaltMode::Halted;
        } else if 0x04000800 <= address && address <= 0x04000803 {
            let new_value = u32::merge_byte(self.internal_memory_control.into_bits(), 0xFFFF_FFFF, address, value);
            let mut internal_memory_control = self.internal_memory_control;
            internal_memory_control.write_bits(new_value);
            self.internal_memory_control = internal_memory_control;
        }
    }
}

} // verus!
