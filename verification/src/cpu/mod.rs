//! The processor: its state, its instruction set and its instruction engine,
//! and what is proved of them.

pub mod addressing;
pub mod alu;
pub mod control;
pub mod effects;
pub mod instruction;
pub mod m6502;
pub mod m6502_driver;
pub mod operation;
pub mod semantics;
pub mod timing;

pub use instruction::{decode, Instruction, Mode, Operation};
pub use m6502::M6502;
pub use m6502_driver::{tick_cycle, Access, ClockCycle, CycleTicker, IllegalOpcode, Interrupt};
pub use operation::Kind;
