use crate::common::scheduler::SystemEvent;
use vstd::prelude::*;

verus! {

/// Interrupt sources, in the order of their bits in the IE and IF registers.
#[derive(Debug, PartialEq, Eq, Structural, PartialOrd, Ord, Clone, Copy)]
pub enum InterruptEvent {
    LcdVBlank,
    LcdHBlank,
    LcdVCounterMatch,
    Timer0Overflow,
    Timer1Overflow,
    Timer2Overflow,
    Timer3Overflow,
    SerialCommunication,
    Dma0Overflow,
    Dma1Overflow,
    Dma2Overflow,
    Dma3Overflow,
    Keypad,
    GamePak,
}

impl InterruptEvent {
    /// The bit of the interrupt in the IE and IF registers.
    pub open spec fn spec_bit_index(self) -> u16 {
        match self {
            InterruptEvent::LcdVBlank => 0,
            InterruptEvent::LcdHBlank => 1,
            InterruptEvent::LcdVCounterMatch => 2,
            InterruptEvent::Timer0Overflow => 3,
            InterruptEvent::Timer1Overflow => 4,
            InterruptEvent::Timer2Overflow => 5,
            InterruptEvent::Timer3Overflow => 6,
            InterruptEvent::SerialCommunication => 7,
            InterruptEvent::Dma0Overflow => 8,
            InterruptEvent::Dma1Overflow => 9,
            InterruptEvent::Dma2Overflow => 10,
            InterruptEvent::Dma3Overflow => 11,
            InterruptEvent::Keypad => 12,
            InterruptEvent::GamePak => 13,
        }
    }

    pub fn bit_index(self) -> (r: u16)
        ensures
            r == self.spec_bit_index(),
    {
        match self {
            InterruptEvent::LcdVBlank => 0,
            InterruptEvent::LcdHBlank => 1,
            InterruptEvent::LcdVCounterMatch => 2,
            InterruptEvent::Timer0Overflow => 3,
            InterruptEvent::Timer1Overflow => 4,
            InterruptEvent::Timer2Overflow => 5,
            InterruptEvent::Timer3Overflow => 6,
            InterruptEvent::SerialCommunication => 7,
            InterruptEvent::Dma0Overflow => 8,
            InterruptEvent::Dma1Overflow => 9,
            InterruptEvent::Dma2Overflow => 10,
            InterruptEvent::Dma3Overflow => 11,
            InterruptEvent::Keypad => 12,
            InterruptEvent::GamePak => 13,
        }
    }
}

/// Each interrupt source's bit in IE and IF is its place in the hardware's
/// order: V-Blank 0, H-Blank 1, V-Counter match 2, timers 0-3 at 3-6,
/// serial 7, DMA 0-3 at 8-11, keypad 12, game pak 13; so it is the source's
/// position in `InterruptEvent`, and no two sources share a bit.
pub proof fn lemma_interrupt_bit_order(e: InterruptEvent, other: InterruptEvent)
    ensures
        e.spec_bit_index() == e as u16,
        e.spec_bit_index() < 14,
        e != other ==> e.spec_bit_index() != other.spec_bit_index(),
        InterruptEvent::LcdVBlank.spec_bit_index() == 0,
        InterruptEvent::LcdHBlank.spec_bit_index() == 1,
        InterruptEvent::LcdVCounterMatch.spec_bit_index() == 2,
        InterruptEvent::Timer0Overflow.spec_bit_index() == 3,
        InterruptEvent::Timer1Overflow.spec_bit_index() == 4,
        InterruptEvent::Timer2Overflow.spec_bit_index() == 5,
        InterruptEvent::Timer3Overflow.spec_bit_index() == 6,
        InterruptEvent::SerialCommunication.spec_bit_index() == 7,
        InterruptEvent::Dma0Overflow.spec_bit_index() == 8,
        InterruptEvent::Dma1Overflow.spec_bit_index() == 9,
        InterruptEvent::Dma2Overflow.spec_bit_index() == 10,
        InterruptEvent::Dma3Overflow.spec_bit_index() == 11,
        InterruptEvent::Keypad.spec_bit_index() == 12,
        InterruptEvent::GamePak.spec_bit_index() == 13,
{
}

#[derive(Debug, PartialEq, Eq, Structural, PartialOrd, Ord, Clone, Copy)]
pub enum PpuEvent {
    HDraw,
    HBlank,
    VBlankHDraw,
    VBlankHBlank,
}

/// The timed jobs of the sound unit: taking a sample, stepping the frame
/// sequencer.
#[derive(Debug, PartialEq, Eq, Structural, PartialOrd, Ord, Clone, Copy)]
pub enum ApuEvent {
    Sample,
    FrameSequence,
}

#[derive(Debug, PartialEq, Eq, Structural, PartialOrd, Ord, Clone, Copy)]
pub enum TimerEvent {
    Overflow { timer_id: usize },
    ControlWrite { timer_id: usize, value: u8 },
    ReloadWrite { timer_id: usize, address: u32, value: u8 },
}

#[derive(Debug, PartialEq, Eq, Structural, PartialOrd, Ord, Clone, Copy)]
pub enum GbaEvent {
    FrameComplete,
    Interrupt(InterruptEvent),
    Ppu(PpuEvent),
    Apu(ApuEvent),
    Timer(TimerEvent),
    Dma(usize),
}

impl SystemEvent for GbaEvent {
    /// Timer writes due on the same cycle as an overflow apply after it: a
    /// reload write before a control write.
    open spec fn spec_priority(&self) -> u8 {
        match self {
            GbaEvent::Timer(TimerEvent::ReloadWrite { .. }) => 1,
            GbaEvent::Timer(TimerEvent::ControlWrite { .. }) => 2,
            _ => 0,
        }
    }

    fn priority(&self) -> (r: u8) {
        match self {
            GbaEvent::FrameComplete | GbaEvent::Interrupt(_) | GbaEvent::Ppu(_) | GbaEvent::Apu(_)
            | GbaEvent::Dma(_) => 0,
            GbaEvent::Timer(timer_event) => match timer_event {
                TimerEvent::Overflow { .. } => 0,
                TimerEvent::ReloadWrite { .. } => 1,
                TimerEvent::ControlWrite { .. } => 2,
            },
        }
    }

    fn same_as(&self, other: &Self) -> (r: bool) {
        *self == *other
    }
}

/// An event and the number of cycles from now it is due.
pub type FutureGbaEvent = (GbaEvent, usize);

} // verus!
