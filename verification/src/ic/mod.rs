//! Packaged chips.

pub mod mcu6502;

pub use mcu6502::Mcu6502;
