use vstd::prelude::*;

verus! {

#[derive(Debug, Clone, Copy, PartialEq, Eq, Structural)]
pub enum System {
    Gba,
    Gbc,
    Gb,
}

/// The sum of the bytes of `s`.
pub open spec fn byte_sum(s: Seq<u8>) -> int
    decreases s.len(),
{
    if s.len() == 0 {
        0
    } else {
        byte_sum(s.drop_last()) + s.last()
    }
}

/// The GBA header complement check: minus the sum of bytes 0xA0..=0xBC,
/// minus 0x19, modulo 256.
pub open spec fn spec_gba_complement_checksum(rom: Seq<u8>) -> u8 {
    ((0 - byte_sum(rom.subrange(0xA0, 0xBD)) - 0x19) % 256) as u8
}

/// The Game Boy header checksum: for each byte of 0x134..=0x14C subtract the
/// byte and one, modulo 256.
pub open spec fn spec_gb_header_checksum(rom: Seq<u8>) -> u8 {
    ((0 - byte_sum(rom.subrange(0x134, 0x14D)) - 25) % 256) as u8
}

pub open spec fn spec_is_gba_rom(rom: Seq<u8>) -> bool {
    rom.len() > 0xBD && rom[0xBD] == spec_gba_complement_checksum(rom)
}

pub open spec fn spec_is_gb_rom(rom: Seq<u8>) -> bool {
    rom.len() > 0x14D && rom[0x14D] == spec_gb_header_checksum(rom)
}

/// Which system a ROM image is for: GBA when its GBA header check holds,
/// else Game Boy (Color when the CGB flag at 0x143 is 0x80 or 0xC0) when its
/// Game Boy header check holds, else none.
pub open spec fn spec_detect_system(rom: Seq<u8>) -> Option<System> {
    if spec_is_gba_rom(rom) {
        Some(System::Gba)
    } else if spec_is_gb_rom(rom) {
        if rom[0x143] == 0x80 || rom[0x143] == 0xC0 {
            Some(System::Gbc)
        } else {
            Some(System::Gb)
        }
    } else {
        None
    }
}

pub(crate) proof fn lemma_wrapping_sub_mod(c: u8, x: int, b: u8)
    requires
        c == x % 256,
    ensures
        (c as int - b as int) % 256 == (x - b) % 256,
        vstd::wrapping::u8_specs::wrapping_sub(c, b) == (x - b) % 256,
{
    assert((c as int - b as int) % 256 == (x - b) % 256) by (nonlinear_arith)
        requires
            c == x % 256,
    ;
}

pub fn detect_system(rom: &[u8]) -> (r: Option<System>)
    ensures
        r == spec_detect_system(rom@),
{
    if is_gba_rom(rom) {
        return Some(System::Gba);
    }
    if is_gb_rom(rom) {
        let flag = rom[0x143];
        return Some(
            if flag == 0x80 || flag == 0xC0 {
                System::Gbc
            } else {
                System::Gb
            },
        );
    }
    None
}

fn is_gba_rom(rom: &[u8]) -> (r: bool)
    ensures
        r == spec_is_gba_rom(rom@),
{
    rom.len() > 0xBD && rom[0xBD] == gba_complement_checksum(rom)
}

fn gba_complement_checksum(rom: &[u8]) -> (r: u8)
    requires
        rom@.len() > 0xBC,
    ensures
        r == spec_gba_complement_checksum(rom@),
{
    let mut checksum = 0u8;
    let mut i: usize = 0xA0;
    assert(rom@.subrange(0xA0, 0xA0) =~= Seq::<u8>::empty());
    while i <= 0xBC
        invariant
            0xA0 <= i <= 0xBD,
            rom@.len() > 0xBC,
            checksum as int == (0 - byte_sum(rom@.subrange(0xA0, i as int))) % 256,
        decreases 0xBD - i,
    {
        proof {
            assert(rom@.subrange(0xA0, i + 1).drop_last() =~= rom@.subrange(0xA0, i as int));
            lemma_wrapping_sub_mod(checksum, 0 - byte_sum(rom@.subrange(0xA0, i as int)), rom[i as int]);
        }
        checksum = checksum.wrapping_sub(rom[i]);
        i += 1;
    }
    proof {
        lemma_wrapping_sub_mod(checksum, 0 - byte_sum(rom@.subrange(0xA0, 0xBD)), 0x19);
    }
    checksum.wrapping_sub(0x19)
}

fn is_gb_rom(rom: &[u8]) -> (r: bool)
    ensures
        r == spec_is_gb_rom(rom@),
{
    rom.len() > 0x14D && rom[0x14D] == gb_header_checksum(rom)
}

fn gb_header_checksum(rom: &[u8]) -> (r: u8)
    requires
        rom@.len() > 0x14C,
    ensures
        r == spec_gb_header_checksum(rom@),
{
    let mut checksum = 0u8;
    let mut i: usize = 0x134;
    assert(rom@.subrange(0x134, 0x134) =~= Seq::<u8>::empty());
    while i <= 0x14C
        invariant
            0x134 <= i <= 0x14D,
            rom@.len() > 0x14C,
            checksum as int == (0 - byte_sum(rom@.subrange(0x134, i as int)) - (i - 0x134)) % 256,
        decreases 0x14D - i,
    {
        let ghost x = 0 - byte_sum(rom@.subrange(0x134, i as int)) - (i - 0x134);
        proof {
            assert(rom@.subrange(0x134, i + 1).drop_last() =~= rom@.subrange(0x134, i as int));
            lemma_wrapping_sub_mod(checksum, x, rom[i as int]);
        }
        let step = checksum.wrapping_sub(rom[i]);
        proof {
            lemma_wrapping_sub_mod(step, x - rom[i as int], 1);
        }
        checksum = step.wrapping_sub(1);
        i += 1;
    }
    checksum
}

} // verus!
