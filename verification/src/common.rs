pub mod bits;
pub mod register_ops;
pub mod emulator;
pub mod keypad;
pub mod memory;
pub mod scheduler;
