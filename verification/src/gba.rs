pub mod bitfield;
pub mod events;
pub mod apu;
pub mod bios;
pub mod cartridge;
pub mod dma_control;
pub mod interrupt_control;
pub mod keypad;
pub mod memory;
pub mod ppu;
pub mod system_control;
pub mod timer_control;
pub mod system_bus;
