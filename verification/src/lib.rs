//! A cycle-stepped emulation core for the 6502 family of 8-bit processors.
//!
//! The crate is split along the three parts of an emulated machine: the
//! addressable [`memory`], the processor state and its instruction engine in
//! [`cpu`], and the packaged microcontroller in [`ic`].
//!
//! A host builds a memory and a processor state, starts an instruction with
//! [`cpu::CycleTicker::new`] and calls [`cpu::tick_cycle`] once for every
//! clock cycle. Each call makes one access to the memory and tells whether it
//! completed the instruction.

pub mod cpu;
pub mod ic;
pub mod memory;
