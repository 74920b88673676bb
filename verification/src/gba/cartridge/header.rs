use crate::common::emulator::{byte_sum, lemma_wrapping_sub_mod};
use vstd::prelude::*;

verus! {

/// The cartridge header: the game's title and four-byte code, as the raw
/// bytes of the ROM.
pub struct Header {
    game_title: Vec<u8>,
    game_code: Vec<u8>,
    checksum_valid: bool,
}

/// The complement check of header bytes: minus their sum, minus 0x19,
/// modulo 256.
pub open spec fn spec_complement_check(bytes: Seq<u8>) -> u8 {
    ((0 - byte_sum(bytes) - 0x19) % 256) as u8
}

fn copy_bytes(bytes: &[u8], start: usize, end: usize) -> (r: Vec<u8>)
    requires
        start <= end <= bytes.len(),
    ensures
        r@ == bytes@.subrange(start as int, end as int),
{
    let mut r: Vec<u8> = Vec::new();
    let mut i = start;
    while i < end
        invariant
            start <= i <= end <= bytes.len(),
            r@ == bytes@.subrange(start as int, i as int),
        decreases end - i,
    {
        r.push(bytes[i]);
        i += 1;
        assert(r@ =~= bytes@.subrange(start as int, i as int));
    }
    r
}

impl Header {
    pub closed spec fn spec_game_title(&self) -> Seq<u8> {
        self.game_title@
    }

    pub closed spec fn spec_game_code(&self) -> Seq<u8> {
        self.game_code@
    }

    pub closed spec fn spec_checksum_valid(&self) -> bool {
        self.checksum_valid
    }

    /// Reads the header from the first bytes of a ROM: the title at
    /// 0xA0..0xAC, the code at 0xAC..0xB0, and whether the complement check at
    /// 0xBD matches bytes 0xA0..=0xBC.
    pub fn load(bytes: &[u8]) -> (r: Header)
        requires
            bytes.len() > 0xBD,
        ensures
            r.spec_game_title() == bytes@.subrange(0xA0, 0xAC),
            r.spec_game_code() == bytes@.subrange(0xAC, 0xB0),
            r.spec_checksum_valid() == (bytes@[0xBD] == spec_complement_check(bytes@.subrange(0xA0, 0xBD))),
    {
        let complement_check = bytes[0xBD];
        let header_bytes = copy_bytes(bytes, 0xA0, 0xBD);
        let checksum_valid = complement_check == calculate_checksum(header_bytes.as_slice());
        Header {
            game_title: copy_bytes(bytes, 0xA0, 0xAC),
            game_code: copy_bytes(bytes, 0xAC, 0xB0),
            checksum_valid,
        }
    }

    pub fn game_title(&self) -> (r: &[u8])
        ensures
            r@ == self.spec_game_title(),
    {
        self.game_title.as_slice()
    }

    pub fn game_code(&self) -> (r: &[u8])
        ensures
            r@ == self.spec_game_code(),
    {
        self.game_code.as_slice()
    }

    /// Whether the header's complement check matched.
    pub fn checksum_valid(&self) -> (r: bool)
        ensures
            r == self.spec_checksum_valid(),
    {
        self.checksum_valid
    }
}

pub fn calculate_checksum(bytes: &[u8]) -> (r: u8)
    ensures
        r == spec_complement_check(bytes@),
{
    let mut checksum = 0u8;
    let mut i: usize = 0;
    assert(bytes@.subrange(0, 0) =~= Seq::<u8>::empty());
    while i < bytes.len()
        invariant
            i <= bytes.len(),
            checksum as int == (0 - byte_sum(bytes@.subrange(0, i as int))) % 256,
        decreases bytes.len() - i,
    {
        proof {
            assert(bytes@.subrange(0, i + 1).drop_last() =~= bytes@.subrange(0, i as int));
            lemma_wrapping_sub_mod(checksum, 0 - byte_sum(bytes@.subrange(0, i as int)), bytes@[i as int]);
        }
        checksum = checksum.wrapping_sub(bytes[i]);
        i += 1;
    }
    proof {
        assert(bytes@.subrange(0, bytes.len() as int) =~= bytes@);
        lemma_wrapping_sub_mod(checksum, 0 - byte_sum(bytes@), 0x19);
    }
    checksum.wrapping_sub(0x19)
}

} // verus!
