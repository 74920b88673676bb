pub mod common;
pub mod gba;
pub mod jit;
