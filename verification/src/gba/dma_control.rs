use crate::common::memory::SystemMemoryAccess;
use crate::common::register_ops::{RegisterOps, RegisterWord};
use crate::gba::bitfield::{field16, get16, lemma_field16_bound};
use vstd::prelude::*;

verus! {

#[derive(Debug, Copy, Clone, PartialEq, Eq, Structural)]
pub enum DestinationControl {
    Increment,
    Decrement,
    Fixed,
    Reload,
}

impl DestinationControl {
    pub open spec fn spec_from_bits(bits: u8) -> Self {
        if bits == 0 {
            DestinationControl::Increment
        } else if bits == 1 {
            DestinationControl::Decrement
        } else if bits == 2 {
            DestinationControl::Fixed
        } else if bits == 3 {
            DestinationControl::Reload
        } else {
            DestinationControl::Reload
        }
    }

    pub open spec fn spec_into_bits(self) -> u8 {
        match self {
            DestinationControl::Increment => 0,
            DestinationControl::Decrement => 1,
            DestinationControl::Fixed => 2,
            DestinationControl::Reload => 3,
        }
    }

    pub fn from_bits(bits: u8) -> (r: Self)
        requires
            bits <= 3,
        ensures
            r == Self::spec_from_bits(bits),
    {
        match bits {
            0 => DestinationControl::Increment,
            1 => DestinationControl::Decrement,
            2 => DestinationControl::Fixed,
            _ => DestinationControl::Reload,
        }
    }

    pub fn into_bits(self) -> (r: u8)
        ensures
            r == self.spec_into_bits(),
    {
        match self {
            DestinationControl::Increment => 0,
            DestinationControl::Decrement => 1,
            DestinationControl::Fixed => 2,
            DestinationControl::Reload => 3,
        }
    }
}

#[derive(Debug, Copy, Clone, PartialEq, Eq, Structural)]
pub enum SourceControl {
    Increment,
    Decrement,
    Fixed,
    Prohibited,
}

impl SourceControl {
    pub open spec fn spec_from_bits(bits: u8) -> Self {
        if bits == 0 {
            SourceControl::Increment
        } else if bits == 1 {
            SourceControl::Decrement
        } else if bits == 2 {
            SourceControl::Fixed
        } else if bits == 3 {
            SourceControl::Prohibited
        } else {
            SourceControl::Prohibited
        }
    }

    pub open spec fn spec_into_bits(self) -> u8 {
        match self {
            SourceControl::Increment => 0,
            SourceControl::Decrement => 1,
            SourceControl::Fixed => 2,
            SourceControl::Prohibited => 3,
        }
    }

    pub fn from_bits(bits: u8) -> (r: Self)
        requires
            bits <= 3,
        ensures
            r == Self::spec_from_bits(bits),
    {
        match bits {
            0 => SourceControl::Increment,
            1 => SourceControl::Decrement,
            2 => SourceControl::Fixed,
            _ => SourceControl::Prohibited,
        }
    }

    pub fn into_bits(self) -> (r: u8)
        ensures
            r == self.spec_into_bits(),
    {
        match self {
            SourceControl::Increment => 0,
            SourceControl::Decrement => 1,
            SourceControl::Fixed => 2,
            SourceControl::Prohibited => 3,
        }
    }
}

#[derive(Debug, Copy, Clone, PartialEq, Eq, Structural)]
pub enum ChunkSize {
    Size16,
    Size32,
}

impl ChunkSize {
    pub open spec fn spec_from_bits(bits: u8) -> Self {
        if bits == 0 {
            ChunkSize::Size16
        } else if bits == 1 {
            ChunkSize::Size32
        } else {
            ChunkSize::Size32
        }
    }

    pub open spec fn spec_into_bits(self) -> u8 {
        match self {
            ChunkSize::Size16 => 0,
            ChunkSize::Size32 => 1,
        }
    }

    pub fn from_bits(bits: u8) -> (r: Self)
        requires
            bits <= 1,
        ensures
            r == Self::spec_from_bits(bits),
    {
        match bits {
            0 => ChunkSize::Size16,
            _ => ChunkSize::Size32,
        }
    }

    pub fn into_bits(self) -> (r: u8)
        ensures
            r == self.spec_into_bits(),
    {
        match self {
            ChunkSize::Size16 => 0,
            ChunkSize::Size32 => 1,
        }
    }

    pub fn bit_per_chunk(&self) -> (r: usize)
        ensures
            r == (if *self == ChunkSize::Size16 { 16usize } else { 32usize }),
    {
        match self {
            ChunkSize::Size16 => 16,
            ChunkSize::Size32 => 32,
        }
    }

}

#[derive(Debug, Copy, Clone, PartialEq, Eq, Structural)]
pub enum TimingMode {
    Immediately,
    VBlank,
    HBlank,
    Special,
}

impl TimingMode {
    pub open spec fn spec_from_bits(bits: u8) -> Self {
        if bits == 0 {
            TimingMode::Immediately
        } else if bits == 1 {
            TimingMode::VBlank
        } else if bits == 2 {
            TimingMode::HBlank
        } else if bits == 3 {
            TimingMode::Special
        } else {
            TimingMode::Special
        }
    }

    pub open spec fn spec_into_bits(self) -> u8 {
        match self {
            TimingMode::Immediately => 0,
            TimingMode::VBlank => 1,
            TimingMode::HBlank => 2,
            TimingMode::Special => 3,
        }
    }

    pub fn from_bits(bits: u8) -> (r: Self)
        requires
            bits <= 3,
        ensures
            r == Self::spec_from_bits(bits),
    {
        match bits {
            0 => TimingMode::Immediately,
            1 => TimingMode::VBlank,
            2 => TimingMode::HBlank,
            _ => TimingMode::Special,
        }
    }

    pub fn into_bits(self) -> (r: u8)
        ensures
            r == self.spec_into_bits(),
    {
        match self {
            TimingMode::Immediately => 0,
            TimingMode::VBlank => 1,
            TimingMode::HBlank => 2,
            TimingMode::Special => 3,
        }
    }
}

/// DMAxCNT_H: a DMA channel's control register.
#[derive(Debug, Copy, Clone, PartialEq, Eq, Structural)]
pub struct DmaControl {
    bits: u16,
}

impl View for DmaControl {
    type V = u16;

    closed spec fn view(&self) -> u16 {
        self.bits
    }
}

impl DmaControl {
    pub fn from_bits(bits: u16) -> (r: Self)
        ensures
            r@ == bits,
    {
        DmaControl { bits: bits }
    }

    pub fn into_bits(self) -> (r: u16)
        ensures
            r == self@,
    {
        self.bits
    }

    /// The bits the register holds after `bits` are written to it: fields
    /// reserved by the hardware keep their value.
    pub open spec fn spec_merged(current: u16, bits: u16) -> u16 {
        (current & 0x001F) | (bits & !0x001F)
    }

    pub open spec fn spec_write_bits(self, bits: u16) -> u16 {
        Self::spec_merged(self@, bits)
    }

    pub fn write_bits(&mut self, bits: u16)
        ensures
            final(self)@ == old(self).spec_write_bits(bits),
    {
        self.bits = (self.bits & 0x001F) | (bits & !0x001F);
    }

    pub open spec fn spec_destination_control(self) -> DestinationControl {
        DestinationControl::spec_from_bits(field16(self@, 5, 2) as u8)
    }

    pub fn destination_control(&self) -> (r: DestinationControl)
        ensures
            r == self.spec_destination_control(),
    {
        proof {
            lemma_field16_bound(self.bits, 5, 2);
        }
        DestinationControl::from_bits(get16(self.bits, 5, 2) as u8)
    }

    pub open spec fn spec_source_cotnrol(self) -> SourceControl {
        SourceControl::spec_from_bits(field16(self@, 7, 2) as u8)
    }

    pub fn source_cotnrol(&self) -> (r: SourceControl)
        ensures
            r == self.spec_source_cotnrol(),
    {
        proof {
            lemma_field16_bound(self.bits, 7, 2);
        }
        SourceControl::from_bits(get16(self.bits, 7, 2) as u8)
    }

    pub open spec fn spec_repeat(self) -> bool {
        field16(self@, 9, 1) == 1
    }

    pub fn repeat(&self) -> (r: bool)
        ensures
            r == self.spec_repeat(),
    {
        get16(self.bits, 9, 1) == 1
    }

    pub open spec fn spec_chunk_size(self) -> ChunkSize {
        ChunkSize::spec_from_bits(field16(self@, 10, 1) as u8)
    }

    pub fn chunk_size(&self) -> (r: ChunkSize)
        ensures
            r == self.spec_chunk_size(),
    {
        proof {
            lemma_field16_bound(self.bits, 10, 1);
        }
        ChunkSize::from_bits(get16(self.bits, 10, 1) as u8)
    }

    pub open spec fn spec_timing_mode(self) -> TimingMode {
        TimingMode::spec_from_bits(field16(self@, 12, 2) as u8)
    }

    pub fn timing_mode(&self) -> (r: TimingMode)
        ensures
            r == self.spec_timing_mode(),
    {
        proof {
            lemma_field16_bound(self.bits, 12, 2);
        }
        TimingMode::from_bits(get16(self.bits, 12, 2) as u8)
    }

    pub open spec fn spec_irq_enabled(self) -> bool {
        field16(self@, 14, 1) == 1
    }

    pub fn irq_enabled(&self) -> (r: bool)
        ensures
            r == self.spec_irq_enabled(),
    {
        get16(self.bits, 14, 1) == 1
    }

    pub open spec fn spec_enabled(self) -> bool {
        field16(self@, 15, 1) == 1
    }

    pub fn enabled(&self) -> (r: bool)
        ensures
            r == self.spec_enabled(),
    {
        get16(self.bits, 15, 1) == 1
    }

}

impl RegisterOps<u16> for DmaControl {
    open spec fn spec_register(&self) -> u16 {
        self@
    }

    open spec fn spec_written(&self, bits: u16) -> u16 {
        self.spec_write_bits(bits)
    }

    open spec fn spec_read_mask(&self) -> u16 {
        0xFFFF
    }

    open spec fn spec_write_mask(&self) -> u16 {
        0xFFFF
    }

    fn register(&self) -> (r: u16) {
        self.bits
    }

    fn write_register(&mut self, bits: u16) {
        self.write_bits(bits);
    }

    fn read_mask(&self) -> (r: u16) {
        0xFFFF
    }

    fn write_mask(&self) -> (r: u16) {
        0xFFFF
    }
}

#[derive(Copy, Clone)]
pub struct DmaChannel {
    pub source_address: u32,
    pub current_source_address: u32,
    pub destination_address: u32,
    pub current_destination_address: u32,
    pub count: u16,
    pub current_count: u16,
    pub control: DmaControl,
}

impl DmaChannel {
    /// Every address, count and control register of the channel is zero.
    pub open spec fn spec_is_new(&self) -> bool {
        &&& self.source_address == 0
        &&& self.current_source_address == 0
        &&& self.destination_address == 0
        &&& self.current_destination_address == 0
        &&& self.count == 0
        &&& self.current_count == 0
        &&& self.control@ == 0
    }

    pub fn new() -> (r: Self)
        ensures
            r.spec_is_new(),
    {
        Self {
            source_address: 0,
            current_source_address: 0,
            destination_address: 0,
            current_destination_address: 0,
            count: 0,
            current_count: 0,
            control: DmaControl::from_bits(0),
        }
    }

    /// Writes to the control register are not acted on: the channel is
    /// unchanged.
    pub fn write_control(&mut self, address: u32, value: u8)
        ensures
            *final(self) == *old(self),
    {
    }
}

/// The four DMA channels' registers, 0x040000B0..=0x040000DF, twelve bytes
/// per channel.
pub struct DmaController {
    channels: [DmaChannel; 4],
}

/// The channel whose registers hold `address`.
pub open spec fn dma_channel_of(address: u32) -> int {
    (address - 0x040000B0) / 12
}

/// Where `address` falls in its channel's twelve register bytes: 0..=3 the
/// source, 4..=7 the destination, 8..=9 the count, 10..=11 the control.
pub open spec fn dma_offset_of(address: u32) -> int {
    (address - 0x040000B0) % 12
}

impl DmaController {
    pub fn new() -> (r: Self)
        ensures
            r@.len() == 4,
            forall|i: int| 0 <= i < 4 ==> (#[trigger] r@[i]).spec_is_new(),
    {
        Self { channels: [DmaChannel::new(), DmaChannel::new(), DmaChannel::new(), DmaChannel::new()] }
    }

    /// DMA transfers are not run: no channel is ever active.
    pub fn is_active(&self) -> (r: bool)
        ensures
            r == false,
    {
        false
    }
}

impl View for DmaController {
    type V = Seq<DmaChannel>;

    closed spec fn view(&self) -> Seq<DmaChannel> {
        self.channels@
    }
}

impl SystemMemoryAccess for DmaController {
    open spec fn spec_readable(m: Seq<DmaChannel>, address: u32) -> bool {
        0x040000B0 <= address <= 0x040000DF
    }

    open spec fn spec_writable(m: Seq<DmaChannel>, address: u32, value: u8) -> bool {
        0x040000B0 <= address <= 0x040000DF
    }

    /// Only the control registers read back; the addresses and counts are
    /// write-only and read as 0.
    open spec fn spec_read_8(m: Seq<DmaChannel>, address: u32) -> u8 {
        let c = dma_channel_of(address);
        if dma_offset_of(address) >= 10 {
            u16::spec_byte(m[c].control@ & m[c].control.spec_read_mask(), address)
        } else {
            0
        }
    }

    open spec fn spec_write_8(m: Seq<DmaChannel>, address: u32, value: u8) -> Seq<DmaChannel> {
        let c = dma_channel_of(address);
        let o = dma_offset_of(address);
        let ch = m[c];
        let new_ch = if o < 4 {
            DmaChannel {
                source_address: u32::spec_merge_byte(ch.source_address, 0xFFFF_FFFF, address, value),
                ..ch
            }
        } else if o < 8 {
            DmaChannel {
                destination_address: u32::spec_merge_byte(ch.destination_address, 0xFFFF_FFFF, address, value),
                ..ch
            }
        } else if o < 10 {
            DmaChannel { count: u16::spec_merge_byte(ch.count, 0xFFFF, address, value), ..ch }
        } else {
            ch
        };
        m.update(c, new_ch)
    }

    fn read_8(&self, address: u32) -> (r: u8) {
        let c: usize = ((address - 0x040000B0) / 12) as usize;
        let o = (address - 0x040000B0) % 12;
        if o >= 10 {
            self.channels[c].control.read_byte(address)
        } else {
            0
        }
    }

    fn write_8(&mut self, address: u32, value: u8) {
        let c: usize = ((address - 0x040000B0) / 12) as usize;
        let o = (address - 0x040000B0) % 12;
        let mut ch = self.channels[c];
        if o < 4 {
            ch.source_address.write_byte(address, value);
        } else if o < 8 {
            ch.destination_address.write_byte(address, value);
        } else if o < 10 {
            ch.count.write_byte(address, value);
        } else {
            ch.write_control(address, value);
        }
        self.channels[c] = ch;
    }
}

} // verus!
