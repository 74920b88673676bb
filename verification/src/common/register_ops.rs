use vstd::prelude::*;

verus! {

/// An unsigned integer type that backs a memory-mapped register: bytes of it
/// can be read and written at an address, the low address bits picking the
/// byte (little-endian).
pub trait RegisterWord: Copy + Sized {
    /// Every bit set.
    spec fn spec_ones() -> Self;

    spec fn spec_and(a: Self, b: Self) -> Self;

    /// The byte of `bits` that `address` selects.
    spec fn spec_byte(bits: Self, address: u32) -> u8;

    /// `current` with the byte that `address` selects replaced by `value`,
    /// but only at the bits set in `writable`.
    spec fn spec_merge_byte(current: Self, writable: Self, address: u32, value: u8) -> Self;

    fn ones() -> (r: Self)
        ensures
            r == Self::spec_ones(),
    ;

    fn and(a: Self, b: Self) -> (r: Self)
        ensures
            r == Self::spec_and(a, b),
    ;

    fn byte_at(bits: Self, address: u32) -> (r: u8)
        ensures
            r == Self::spec_byte(bits, address),
    ;

    fn merge_byte(current: Self, writable: Self, address: u32, value: u8) -> (r: Self)
        ensures
            r == Self::spec_merge_byte(current, writable, address, value),
    ;
}

impl RegisterWord for u16 {
    open spec fn spec_ones() -> u16 {
        0xFFFF
    }

    open spec fn spec_and(a: u16, b: u16) -> u16 {
        a & b
    }

    open spec fn spec_byte(bits: u16, address: u32) -> u8 {
        ((bits >> (((address % 2) * 8) as u16)) & 0xFF) as u8
    }

    open spec fn spec_merge_byte(current: u16, writable: u16, address: u32, value: u8) -> u16 {
        let shift = ((address % 2) * 8) as u16;
        let field = writable & (0xFFu16 << shift);
        (current & !field) | (((value as u16) << shift) & field)
    }

    fn ones() -> (r: u16) {
        0xFFFF
    }

    fn and(a: u16, b: u16) -> (r: u16) {
        a & b
    }

    fn byte_at(bits: u16, address: u32) -> (r: u8) {
        let low = address % 2;
        let shift = (low * 8) as u16;
        ((bits >> shift) & 0xFF) as u8
    }

    fn merge_byte(current: u16, writable: u16, address: u32, value: u8) -> (r: u16) {
        let low = address % 2;
        let shift = (low * 8) as u16;
        let field = writable & (0xFFu16 << shift);
        (current & !field) | (((value as u16) << shift) & field)
    }
}

impl RegisterWord for u32 {
    open spec fn spec_ones() -> u32 {
        0xFFFF_FFFF
    }

    open spec fn spec_and(a: u32, b: u32) -> u32 {
        a & b
    }

    open spec fn spec_byte(bits: u32, address: u32) -> u8 {
        ((bits >> ((address % 4) * 8) as u32) & 0xFF) as u8
    }

    open spec fn spec_merge_byte(current: u32, writable: u32, address: u32, value: u8) -> u32 {
        let shift = ((address % 4) * 8) as u32;
        let field = writable & (0xFFu32 << shift);
        (current & !field) | (((value as u32) << shift) & field)
    }

    fn ones() -> (r: u32) {
        0xFFFF_FFFF
    }

    fn and(a: u32, b: u32) -> (r: u32) {
        a & b
    }

    fn byte_at(bits: u32, address: u32) -> (r: u8) {
        let low = address % 4;
        let shift = low * 8;
        ((bits >> shift) & 0xFF) as u8
    }

    fn merge_byte(current: u32, writable: u32, address: u32, value: u8) -> (r: u32) {
        let low = address % 4;
        let shift = low * 8;
        let field = writable & (0xFFu32 << shift);
        (current & !field) | (((value as u32) << shift) & field)
    }
}

/// A memory-mapped register that the CPU reads and writes a byte at a time.
pub trait RegisterOps<T: RegisterWord>: Sized {
    /// The bits the register holds.
    spec fn spec_register(&self) -> T;

    /// The bits the register holds after `bits` has been written to it
    /// (fields that the hardware fixes may not take the written bits).
    spec fn spec_written(&self, bits: T) -> T;

    spec fn spec_read_mask(&self) -> T;

    spec fn spec_write_mask(&self) -> T;

    fn register(&self) -> (r: T)
        ensures
            r == self.spec_register(),
    ;

    fn write_register(&mut self, bits: T)
        ensures
            final(self).spec_register() == old(self).spec_written(bits),
            final(self).spec_read_mask() == old(self).spec_read_mask(),
            final(self).spec_write_mask() == old(self).spec_write_mask(),
    ;

    /// Bits visible on a read. Bits cleared here always read back as 0
    /// (write-only fields).
    fn read_mask(&self) -> (r: T)
        ensures
            r == self.spec_read_mask(),
    ;

    /// Bits the CPU is allowed to change on a write. Bits cleared here keep
    /// their current value (read-only or hardware-owned fields).
    fn write_mask(&self) -> (r: T)
        ensures
            r == self.spec_write_mask(),
    ;

    fn read_byte(&self, address: u32) -> (r: u8)
        ensures
            r == T::spec_byte(T::spec_and(self.spec_register(), self.spec_read_mask()), address),
    {
        let bits = T::and(self.register(), self.read_mask());
        T::byte_at(bits, address)
    }

    fn write_byte(&mut self, address: u32, value: u8)
        ensures
            final(self).spec_register() == old(self).spec_written(
                T::spec_merge_byte(
                    old(self).spec_register(),
                    old(self).spec_write_mask(),
                    address,
                    value,
                ),
            ),
    {
        let current = self.register();
        let writable = self.write_mask();
        let bits = T::merge_byte(current, writable, address, value);
        self.write_register(bits);
    }
}

impl RegisterOps<u16> for u16 {
    open spec fn spec_register(&self) -> u16 {
        *self
    }

    open spec fn spec_written(&self, bits: u16) -> u16 {
        bits
    }

    open spec fn spec_read_mask(&self) -> u16 {
        0xFFFF
    }

    open spec fn spec_write_mask(&self) -> u16 {
        0xFFFF
    }

    fn register(&self) -> (r: u16) {
        *self
    }

    fn write_register(&mut self, bits: u16) {
        *self = bits;
    }

    fn read_mask(&self) -> (r: u16) {
        0xFFFF
    }

    fn write_mask(&self) -> (r: u16) {
        0xFFFF
    }
}

impl RegisterOps<u32> for u32 {
    open spec fn spec_register(&self) -> u32 {
        *self
    }

    open spec fn spec_written(&self, bits: u32) -> u32 {
        bits
    }

    open spec fn spec_read_mask(&self) -> u32 {
        0xFFFF_FFFF
    }

    open spec fn spec_write_mask(&self) -> u32 {
        0xFFFF_FFFF
    }

    fn register(&self) -> (r: u32) {
        *self
    }

    fn write_register(&mut self, bits: u32) {
        *self = bits;
    }

    fn read_mask(&self) -> (r: u32) {
        0xFFFF_FFFF
    }

    fn write_mask(&self) -> (r: u32) {
        0xFFFF_FFFF
    }
}

/// On a 16-bit register: a byte written at an address through a write mask
/// reads back (through the same bits) at that address; bits outside the
/// write mask keep their value; the other byte is unchanged.
pub proof fn lemma_u16_write_then_read(current: u16, writable: u16, address: u32, other: u32, value: u8)
    ensures
        u16::spec_byte(u16::spec_merge_byte(current, writable, address, value), address)
            == (value & u16::spec_byte(writable, address)) | (u16::spec_byte(current, address)
            & !u16::spec_byte(writable, address)),
        u16::spec_merge_byte(current, writable, address, value) & !writable == current & !writable,
        other % 2 != address % 2 ==> u16::spec_byte(
            u16::spec_merge_byte(current, writable, address, value),
            other,
        ) == u16::spec_byte(current, other),
{
    let a = address % 2;
    let o = other % 2;
    let sa = (a * 8) as u16;
    let so = (o * 8) as u16;
    assert(((((current & !(writable & (0xFFu16 << sa))) | (((value as u16) << sa) & (writable
        & (0xFFu16 << sa)))) >> sa) & 0xFF) as u8 == (value & (((writable >> sa) & 0xFF) as u8))
        | (((current >> sa) & 0xFF) as u8 & !(((writable >> sa) & 0xFF) as u8))
        && ((current & !(writable & (0xFFu16 << sa))) | (((value as u16) << sa) & (writable & (
        0xFFu16 << sa)))) & !writable == current & !writable && (sa != so ==> ((((current & !(
        writable & (0xFFu16 << sa))) | (((value as u16) << sa) & (writable & (0xFFu16 << sa))))
        >> so) & 0xFF) as u8 == ((current >> so) & 0xFF) as u8)) by (bit_vector)
        requires
            sa == 0 || sa == 8,
            so == 0 || so == 8,
    ;
}

/// On a 32-bit register: a byte written at an address through a write mask
/// reads back (through the same bits) at that address; bits outside the
/// write mask keep their value; the other bytes are unchanged.
pub proof fn lemma_u32_write_then_read(current: u32, writable: u32, address: u32, other: u32, value: u8)
    ensures
        u32::spec_byte(u32::spec_merge_byte(current, writable, address, value), address)
            == (value & u32::spec_byte(writable, address)) | (u32::spec_byte(current, address)
            & !u32::spec_byte(writable, address)),
        u32::spec_merge_byte(current, writable, address, value) & !writable == current & !writable,
        other % 4 != address % 4 ==> u32::spec_byte(
            u32::spec_merge_byte(current, writable, address, value),
            other,
        ) == u32::spec_byte(current, other),
{
    let a = address % 4;
    let o = other % 4;
    let sa = (a * 8) as u32;
    let so = (o * 8) as u32;
    assert(((((current & !(writable & (0xFFu32 << sa))) | (((value as u32) << sa) & (writable
        & (0xFFu32 << sa)))) >> sa) & 0xFF) as u8 == (value & (((writable >> sa) & 0xFF) as u8))
        | (((current >> sa) & 0xFF) as u8 & !(((writable >> sa) & 0xFF) as u8))
        && ((current & !(writable & (0xFFu32 << sa))) | (((value as u32) << sa) & (writable & (
        0xFFu32 << sa)))) & !writable == current & !writable && (sa != so ==> ((((current & !(
        writable & (0xFFu32 << sa))) | (((value as u32) << sa) & (writable & (0xFFu32 << sa))))
        >> so) & 0xFF) as u8 == ((current >> so) & 0xFF) as u8)) by (bit_vector)
        requires
            sa == 0 || sa == 8 || sa == 16 || sa == 24,
            so == 0 || so == 8 || so == 16 || so == 24,
    ;
}

} // verus!
