//! The instruction engine: the cycle-by-cycle sequence of every
//! instruction, as a state machine and as the code that steps it.

use super::instruction::{decode, decoded, Instruction, Mode, Operation};
use super::m6502::M6502;
use super::operation::Kind;
use crate::memory::Memory;
use vstd::prelude::*;

verus! {

/// The clock cycles of one instruction, counted from its opcode fetch.
#[derive(Debug, Clone, Copy, PartialEq, Eq, Structural)]
pub enum ClockCycle {
    Cycle1,
    Cycle2,
    Cycle3,
    Cycle4,
    Cycle5,
    Cycle6,
    Cycle7,
}

impl ClockCycle {
    /// The number of the cycle, from 1 to 7.
    pub open spec fn index(self) -> int {
        match self {
            ClockCycle::Cycle1 => 1,
            ClockCycle::Cycle2 => 2,
            ClockCycle::Cycle3 => 3,
            ClockCycle::Cycle4 => 4,
            ClockCycle::Cycle5 => 5,
            ClockCycle::Cycle6 => 6,
            ClockCycle::Cycle7 => 7,
        }
    }

    /// The cycle after this one. No instruction has an eighth cycle: the
    /// seventh is followed by itself.
    pub open spec fn spec_next(self) -> ClockCycle {
        match self {
            ClockCycle::Cycle1 => ClockCycle::Cycle2,
            ClockCycle::Cycle2 => ClockCycle::Cycle3,
            ClockCycle::Cycle3 => ClockCycle::Cycle4,
            ClockCycle::Cycle4 => ClockCycle::Cycle5,
            ClockCycle::Cycle5 => ClockCycle::Cycle6,
            ClockCycle::Cycle6 => ClockCycle::Cycle7,
            ClockCycle::Cycle7 => ClockCycle::Cycle7,
        }
    }

    /// Returns the number of the cycle.
    pub fn number(self) -> (r: u8)
        ensures
            r == self.index(),
    {
        match self {
            ClockCycle::Cycle1 => 1,
            ClockCycle::Cycle2 => 2,
            ClockCycle::Cycle3 => 3,
            ClockCycle::Cycle4 => 4,
            ClockCycle::Cycle5 => 5,
            ClockCycle::Cycle6 => 6,
            ClockCycle::Cycle7 => 7,
        }
    }

    /// Returns the cycle after this one.
    #[verifier::when_used_as_spec(spec_next)]
    pub fn next(self) -> (r: ClockCycle)
        ensures
            r == self.spec_next(),
            self.index() < 7 ==> r.index() == self.index() + 1,
    {
        match self {
            ClockCycle::Cycle1 => ClockCycle::Cycle2,
            ClockCycle::Cycle2 => ClockCycle::Cycle3,
            ClockCycle::Cycle3 => ClockCycle::Cycle4,
            ClockCycle::Cycle4 => ClockCycle::Cycle5,
            ClockCycle::Cycle5 => ClockCycle::Cycle6,
            ClockCycle::Cycle6 => ClockCycle::Cycle7,
            ClockCycle::Cycle7 => ClockCycle::Cycle7,
        }
    }
}

/// The one access to memory that the processor makes in a clock cycle.
#[derive(Debug, Clone, Copy, PartialEq, Eq, Structural)]
pub enum Access {
    /// A byte is read from the address.
    Read(u16),
    /// The byte is written to the address.
    Write(u16, u8),
}

/// The opcode byte in flight is no instruction of the chip.
#[derive(Debug, Clone, Copy, PartialEq, Eq, Structural)]
pub struct IllegalOpcode {
    /// The undefined opcode byte.
    pub opcode: u8,
}

/// A hardware interrupt that the processor can be made to take between two
/// instructions.
#[derive(Debug, Clone, Copy, PartialEq, Eq, Structural)]
pub enum Interrupt {
    /// The interrupt request, which a host raises only while the interrupt
    /// disable flag is clear.
    Irq,
    /// The interrupt that cannot be disabled.
    Nmi,
}

/// Address of the low byte of the vector through which BRK and the
/// interrupt request leave.
pub const BREAK_VECTOR: u16 = 0xfffe;

/// Address of the low byte of the vector of the interrupt that cannot be
/// disabled.
pub const NMI_VECTOR: u16 = 0xfffa;

/// First address of page one, which holds the stack.
pub const STACK_PAGE: u16 = 0x0100;

/// The 16-bit word made of a high and a low byte.
pub open spec fn spec_word(high: u8, low: u8) -> u16 {
    (high * 0x100 + low) as u16
}

/// Joins a high and a low byte to a 16-bit word.
#[verifier::when_used_as_spec(spec_word)]
pub fn word(high: u8, low: u8) -> (r: u16)
    ensures
        r == spec_word(high, low),
{
    high as u16 * 0x100 + low as u16
}

/// The low byte of a 16-bit word.
pub open spec fn spec_low(value: u16) -> u8 {
    (value % 0x100) as u8
}

/// Returns the low byte of a 16-bit word.
#[verifier::when_used_as_spec(spec_low)]
pub fn low(value: u16) -> (r: u8)
    ensures
        r == spec_low(value),
{
    (value % 0x100) as u8
}

/// The high byte of a 16-bit word, which is the number of its page.
pub open spec fn spec_high(value: u16) -> u8 {
    (value / 0x100) as u8
}

/// Returns the high byte of a 16-bit word.
#[verifier::when_used_as_spec(spec_high)]
pub fn high(value: u16) -> (r: u8)
    ensures
        r == spec_high(value),
{
    (value / 0x100) as u8
}

/// The address in page one that the stack pointer stands for.
pub open spec fn spec_stack_address(sp: u8) -> u16 {
    (STACK_PAGE + sp) as u16
}

/// Returns the address in page one that the stack pointer stands for.
#[verifier::when_used_as_spec(spec_stack_address)]
pub fn stack_address(sp: u8) -> (r: u16)
    ensures
        r == spec_stack_address(sp),
        high(r) == 1,
        low(r) == sp,
{
    STACK_PAGE + sp as u16
}

/// The address that a taken branch leads to: `pc`, the address of the next
/// instruction, moved by `offset` read as a signed byte.
pub open spec fn spec_branch_target(pc: u16, offset: u8) -> u16 {
    if offset < 0x80 {
        pc.wrapping_add(offset as u16)
    } else {
        pc.wrapping_sub((0x100 - offset) as u16)
    }
}

/// Returns the address that a taken branch leads to.
#[verifier::when_used_as_spec(spec_branch_target)]
pub fn branch_target(pc: u16, offset: u8) -> (r: u16)
    ensures
        r == spec_branch_target(pc, offset),
{
    if offset < 0x80 {
        pc.wrapping_add(offset as u16)
    } else {
        pc.wrapping_sub(0x100 - offset as u16)
    }
}

/// One instruction in flight: the processor state together with what the
/// instruction has gathered over its cycles so far.
///
/// `cycle` is the clock cycle that the next tick performs. At `Cycle1` no
/// instruction is in flight, and the tick fetches the next opcode. The
/// latches `addr`, `data`, `crossed` and `interrupt` belong to the
/// instruction and are cleared when it completes: nothing of them reaches
/// the processor state.
#[derive(Debug, Clone, Copy, PartialEq, Eq, Structural)]
pub struct CycleTicker {
    /// The clock cycle that comes next.
    pub cycle: ClockCycle,
    /// The opcode byte of the instruction in flight.
    pub op: u8,
    /// The address that the addressing mode is putting together.
    pub addr: u16,
    /// The byte that the instruction holds between two cycles: a pointer into
    /// page zero, a branch offset, or the byte being modified.
    pub data: u8,
    /// Whether adding the index carried into the high byte of `addr`, which
    /// then still has to be corrected.
    pub crossed: bool,
    /// The hardware interrupt whose sequence is in flight in place of an
    /// instruction. The sequence is that of BRK, whose opcode `op` then
    /// holds.
    pub interrupt: Option<Interrupt>,
    /// The registers and flags.
    pub state: M6502,
}

impl CycleTicker {
    /// The ticker that is about to run the cycle after the opcode fetch of
    /// the instruction `op`, in state `state`, whose program counter
    /// addresses the byte after the opcode.
    pub open spec fn begun(state: M6502, op: u8) -> CycleTicker {
        CycleTicker {
            cycle: ClockCycle::Cycle2,
            op,
            addr: 0,
            data: 0,
            crossed: false,
            interrupt: None,
            state,
        }
    }

    /// The ticker that is about to run the second cycle of the sequence by
    /// which the processor takes the hardware interrupt `interrupt`, in state
    /// `state`, whose program counter addresses the instruction that the
    /// interrupt keeps from starting.
    pub open spec fn interrupted(state: M6502, interrupt: Interrupt) -> CycleTicker {
        CycleTicker { interrupt: Some(interrupt), ..Self::begun(state, 0x00) }
    }

    /// The address of the vector through which BRK, or the interrupt in
    /// flight, leaves.
    pub open spec fn vector(self) -> u16 {
        match self.interrupt {
            Some(Interrupt::Nmi) => NMI_VECTOR,
            _ => BREAK_VECTOR,
        }
    }

    /// Whether the ticker cannot go on: an instruction is in flight and its
    /// opcode byte is undefined.
    pub open spec fn stalled(self) -> bool {
        !(self.cycle is Cycle1) && decoded(self.op) is None
    }

    /// This ticker and "not complete": the instruction goes on with its next
    /// cycle.
    pub open spec fn continued(self) -> (CycleTicker, bool) {
        (CycleTicker { cycle: self.cycle.next(), ..self }, false)
    }

    /// The ticker that has completed its instruction in state `state`, and
    /// "complete". The latches are cleared and an opcode fetch comes next.
    pub open spec fn completed(self, state: M6502) -> (CycleTicker, bool) {
        (
            CycleTicker {
                cycle: ClockCycle::Cycle1,
                op: self.op,
                addr: 0,
                data: 0,
                crossed: false,
                interrupt: None,
                state,
            },
            true,
        )
    }

    /// The state with the program counter moved to the next byte.
    pub open spec fn pc_next(self) -> M6502 {
        M6502 { pc: self.state.pc.wrapping_add(1), ..self.state }
    }

    /// The state with the stack pointer one lower, after a push. It wraps
    /// from `0x00` to `0xFF`, so that the stack stays in page one.
    pub open spec fn pushed(self) -> M6502 {
        M6502 { sp: self.state.sp.wrapping_sub(1), ..self.state }
    }

    /// The state with the stack pointer one higher, before a pull. It wraps
    /// from `0xFF` to `0x00`.
    pub open spec fn pulled(self) -> M6502 {
        M6502 { sp: self.state.sp.wrapping_add(1), ..self.state }
    }

    /// The address that the stack pointer stands for.
    pub open spec fn stack(self) -> u16 {
        stack_address(self.state.sp)
    }

    /// The address in page zero that the latched pointer stands for.
    pub open spec fn pointer(self) -> u16 {
        self.data as u16
    }

    /// The address with the latched low byte and `high_byte` above it.
    pub open spec fn joined(self, high_byte: u8) -> u16 {
        word(high_byte, low(self.addr))
    }

    /// What the opcode fetch leads to: the byte read at the program counter
    /// becomes the opcode in flight, and the program counter moves on.
    pub open spec fn fetched(self, data: u8) -> (CycleTicker, bool) {
        (Self::begun(self.pc_next(), data), false)
    }

    // The last cycles of every instruction that works on a byte in memory,
    // once `addr` is its address. `phase` counts these cycles from zero.

    /// The access of an operand cycle.
    pub open spec fn operand_access(self, op: Operation, phase: int) -> Access {
        match op.kind() {
            Kind::Read => Access::Read(self.addr),
            Kind::Write => Access::Write(self.addr, op.stores(self.state)),
            Kind::Modify => if phase <= 0 {
                Access::Read(self.addr)
            } else {
                Access::Write(self.addr, self.data)
            },
        }
    }

    /// What an operand cycle leads to. A read uses the byte and a store has
    /// written its register: both are complete. A modification latches the
    /// byte, then writes it back unchanged while it computes, then writes the
    /// result.
    pub open spec fn operand_step(
        self,
        op: Operation,
        phase: int,
        data: u8,
    ) -> (CycleTicker, bool) {
        match op.kind() {
            Kind::Read => self.completed(op.reads(self.state, data)),
            Kind::Write => self.completed(self.state),
            Kind::Modify => if phase <= 0 {
                CycleTicker { data, ..self }.continued()
            } else if phase == 1 {
                let (value, state) = op.modifies(self.state, self.data);
                CycleTicker { data: value, state, ..self }.continued()
            } else {
                self.completed(self.state)
            },
        }
    }

    /// The ticker after the high byte of an indexed address has arrived:
    /// the index is added to the latched low byte, and `crossed` remembers a
    /// carry out of it.
    pub open spec fn indexed(self, high_byte: u8, index: u8) -> CycleTicker {
        CycleTicker {
            addr: word(high_byte, low(self.addr).wrapping_add(index)),
            crossed: low(self.addr) + index > 0xff,
            ..self
        }
    }

    /// What the cycle leads to that reads at an indexed address whose high
    /// byte is not corrected yet. Without a carry the address was right: a
    /// read uses the byte and completes. Otherwise the address is corrected
    /// and the operand cycles follow.
    pub open spec fn index_fixed(self, op: Operation, data: u8) -> (CycleTicker, bool) {
        if op.kind() is Read && !self.crossed {
            self.completed(op.reads(self.state, data))
        } else {
            CycleTicker {
                addr: if self.crossed {
                    self.addr.wrapping_add(0x100)
                } else {
                    self.addr
                },
                ..self
            }.continued()
        }
    }

    /// The access that the instruction `instr` makes in the coming cycle,
    /// which is not the opcode fetch.
    pub open spec fn access_in(self, instr: Instruction) -> Access {
        let pc = self.state.pc;
        let c = self.cycle.index();
        match instr.op {
            Operation::Brk => if c <= 2 {
                Access::Read(pc)
            } else if c == 3 {
                Access::Write(self.stack(), high(pc))
            } else if c == 4 {
                Access::Write(self.stack(), low(pc))
            } else if c == 5 {
                Access::Write(self.stack(), self.state.status_byte(self.interrupt is None))
            } else if c == 6 {
                Access::Read(self.vector())
            } else {
                Access::Read((self.vector() + 1) as u16)
            },
            Operation::Jsr => if c <= 2 {
                Access::Read(pc)
            } else if c == 3 {
                Access::Read(self.stack())
            } else if c == 4 {
                Access::Write(self.stack(), high(pc))
            } else if c == 5 {
                Access::Write(self.stack(), low(pc))
            } else {
                Access::Read(pc)
            },
            Operation::Rti => if c <= 2 {
                Access::Read(pc)
            } else {
                Access::Read(self.stack())
            },
            Operation::Rts => if c <= 2 || c >= 6 {
                Access::Read(pc)
            } else {
                Access::Read(self.stack())
            },
            Operation::Pha => if c <= 2 {
                Access::Read(pc)
            } else {
                Access::Write(self.stack(), self.state.a)
            },
            Operation::Php => if c <= 2 {
                Access::Read(pc)
            } else {
                Access::Write(self.stack(), self.state.status_byte(true))
            },
            Operation::Pla | Operation::Plp => if c <= 2 {
                Access::Read(pc)
            } else {
                Access::Read(self.stack())
            },
            Operation::Jmp => if c <= 3 || !(instr.mode is Indirect) {
                Access::Read(pc)
            } else if c == 4 {
                Access::Read(self.addr)
            } else {
                Access::Read(word(high(self.addr), low(self.addr).wrapping_add(1)))
            },
            _ => match instr.mode {
                Mode::Implied | Mode::Accumulator | Mode::Immediate | Mode::Relative | Mode::Indirect => {
                    Access::Read(pc)
                },
                Mode::ZeroPage => if c <= 2 {
                    Access::Read(pc)
                } else {
                    self.operand_access(instr.op, c - 3)
                },
                Mode::ZeroPageX | Mode::ZeroPageY => if c <= 2 {
                    Access::Read(pc)
                } else if c == 3 {
                    Access::Read(self.addr)
                } else {
                    self.operand_access(instr.op, c - 4)
                },
                Mode::Absolute => if c <= 3 {
                    Access::Read(pc)
                } else {
                    self.operand_access(instr.op, c - 4)
                },
                Mode::AbsoluteX | Mode::AbsoluteY => if c <= 3 {
                    Access::Read(pc)
                } else if c == 4 {
                    Access::Read(self.addr)
                } else {
                    self.operand_access(instr.op, c - 5)
                },
                Mode::IndexedIndirect => if c <= 2 {
                    Access::Read(pc)
                } else if c <= 4 {
                    Access::Read(self.pointer())
                } else if c == 5 {
                    Access::Read(self.data.wrapping_add(1) as u16)
                } else {
                    self.operand_access(instr.op, c - 6)
                },
                Mode::IndirectIndexed => if c <= 2 {
                    Access::Read(pc)
                } else if c == 3 {
                    Access::Read(self.pointer())
                } else if c == 4 {
                    Access::Read(self.data.wrapping_add(1) as u16)
                } else if c == 5 {
                    Access::Read(self.addr)
                } else {
                    self.operand_access(instr.op, c - 6)
                },
            },
        }
    }

    /// What the coming cycle of the instruction `instr` leads to when `data`
    /// is the byte on the data bus: the byte read, or the byte written. The
    /// cycle is not the opcode fetch.
    ///
    /// The cycles of each instruction are told apart from the second on; what
    /// is said of its last cycle is said of every cycle number behind it too,
    /// which no run of ticks reaches.
    pub open spec fn advance_in(self, instr: Instruction, data: u8) -> (CycleTicker, bool) {
        let c = self.cycle.index();
        let op = instr.op;
        match op {
            Operation::Brk => if c <= 2 {
                if self.interrupt is None {
                    CycleTicker { state: self.pc_next(), ..self }.continued()
                } else {
                    self.continued()
                }
            } else if c <= 4 {
                CycleTicker { state: self.pushed(), ..self }.continued()
            } else if c == 5 {
                CycleTicker { state: self.pushed().with_flag(M6502::FLAG_I, true), ..self }.continued()
            } else if c == 6 {
                CycleTicker { addr: data as u16, ..self }.continued()
            } else {
                self.completed(M6502 { pc: self.joined(data), ..self.state })
            },
            Operation::Jsr => if c <= 2 {
                CycleTicker { addr: data as u16, state: self.pc_next(), ..self }.continued()
            } else if c == 3 {
                self.continued()
            } else if c <= 5 {
                CycleTicker { state: self.pushed(), ..self }.continued()
            } else {
                self.completed(M6502 { pc: self.joined(data), ..self.state })
            },
            Operation::Rti => if c <= 2 {
                self.continued()
            } else if c == 3 {
                CycleTicker { state: self.pulled(), ..self }.continued()
            } else if c == 4 {
                CycleTicker { state: self.pulled().with_status(data), ..self }.continued()
            } else if c == 5 {
                CycleTicker { addr: data as u16, state: self.pulled(), ..self }.continued()
            } else {
                self.completed(M6502 { pc: self.joined(data), ..self.state })
            },
            Operation::Rts => if c <= 2 {
                self.continued()
            } else if c == 3 {
                CycleTicker { state: self.pulled(), ..self }.continued()
            } else if c == 4 {
                CycleTicker { addr: data as u16, state: self.pulled(), ..self }.continued()
            } else if c == 5 {
                CycleTicker { state: M6502 { pc: self.joined(data), ..self.state }, ..self }.continued()
            } else {
                self.completed(self.pc_next())
            },
            Operation::Pha | Operation::Php => if c <= 2 {
                self.continued()
            } else {
                self.completed(self.pushed())
            },
            Operation::Pla | Operation::Plp => if c <= 2 {
                self.continued()
            } else if c == 3 {
                CycleTicker { state: self.pulled(), ..self }.continued()
            } else if op is Pla {
                self.completed(self.state.after_lda(data))
            } else {
                self.completed(self.state.with_status(data))
            },
            Operation::Jmp => if c <= 2 {
                CycleTicker { addr: data as u16, state: self.pc_next(), ..self }.continued()
            } else if !(instr.mode is Indirect) {
                self.completed(M6502 { pc: self.joined(data), ..self.state })
            } else if c == 3 {
                CycleTicker { addr: self.joined(data), state: self.pc_next(), ..self }.continued()
            } else if c == 4 {
                CycleTicker { data, ..self }.continued()
            } else {
                self.completed(M6502 { pc: word(data, self.data), ..self.state })
            },
            _ => match instr.mode {
                Mode::Implied | Mode::Accumulator | Mode::Indirect => self.completed(
                    op.acts(self.state),
                ),
                Mode::Immediate => self.completed(op.reads(self.pc_next(), data)),
                Mode::Relative => if c <= 2 {
                    if op.branches(self.state) {
                        CycleTicker { data, state: self.pc_next(), ..self }.continued()
                    } else {
                        self.completed(self.pc_next())
                    }
                } else if c == 3 {
                    let target = branch_target(self.state.pc, self.data);
                    if high(target) == high(self.state.pc) {
                        self.completed(M6502 { pc: target, ..self.state })
                    } else {
                        CycleTicker {
                            addr: target,
                            crossed: true,
                            state: M6502 {
                                pc: word(high(self.state.pc), low(target)),
                                ..self.state
                            },
                            ..self
                        }.continued()
                    }
                } else {
                    self.completed(M6502 { pc: self.addr, ..self.state })
                },
                Mode::ZeroPage => if c <= 2 {
                    CycleTicker { addr: data as u16, state: self.pc_next(), ..self }.continued()
                } else {
                    self.operand_step(op, c - 3, data)
                },
                Mode::ZeroPageX | Mode::ZeroPageY => if c <= 2 {
                    CycleTicker { addr: data as u16, state: self.pc_next(), ..self }.continued()
                } else if c == 3 {
                    CycleTicker {
                        addr: low(self.addr).wrapping_add(instr.mode.index(self.state)) as u16,
                        ..self
                    }.continued()
                } else {
                    self.operand_step(op, c - 4, data)
                },
                Mode::Absolute => if c <= 2 {
                    CycleTicker { addr: data as u16, state: self.pc_next(), ..self }.continued()
                } else if c == 3 {
                    CycleTicker { addr: self.joined(data), state: self.pc_next(), ..self }.continued()
                } else {
                    self.operand_step(op, c - 4, data)
                },
                Mode::AbsoluteX | Mode::AbsoluteY => if c <= 2 {
                    CycleTicker { addr: data as u16, state: self.pc_next(), ..self }.continued()
                } else if c == 3 {
                    CycleTicker { state: self.pc_next(), ..self }.indexed(
                        data,
                        instr.mode.index(self.state),
                    ).continued()
                } else if c == 4 {
                    self.index_fixed(op, data)
                } else {
                    self.operand_step(op, c - 5, data)
                },
                Mode::IndexedIndirect => if c <= 2 {
                    CycleTicker { data, state: self.pc_next(), ..self }.continued()
                } else if c == 3 {
                    CycleTicker { data: self.data.wrapping_add(self.state.x), ..self }.continued()
                } else if c == 4 {
                    CycleTicker { addr: data as u16, ..self }.continued()
                } else if c == 5 {
                    CycleTicker { addr: self.joined(data), ..self }.continued()
                } else {
                    self.operand_step(op, c - 6, data)
                },
                Mode::IndirectIndexed => if c <= 2 {
                    CycleTicker { data, state: self.pc_next(), ..self }.continued()
                } else if c == 3 {
                    CycleTicker { addr: data as u16, ..self }.continued()
                } else if c == 4 {
                    self.indexed(data, self.state.y).continued()
                } else if c == 5 {
                    self.index_fixed(op, data)
                } else {
                    self.operand_step(op, c - 6, data)
                },
            },
        }
    }

    /// The one access to memory that the coming cycle makes. Only a ticker
    /// that is not stalled makes one.
    pub open spec fn access(self) -> Access {
        match decoded(self.op) {
            Some(instr) if !(self.cycle is Cycle1) => self.access_in(instr),
            _ => Access::Read(self.state.pc),
        }
    }

    /// The ticker after the coming cycle, and whether that cycle completes
    /// the instruction, when `data` is the byte on the data bus during the
    /// cycle: the byte read, or the byte written. A stalled ticker stays as
    /// it is.
    pub open spec fn advance(self, data: u8) -> (CycleTicker, bool) {
        if self.cycle is Cycle1 {
            self.fetched(data)
        } else {
            match decoded(self.op) {
                Some(instr) => self.advance_in(instr, data),
                None => (self, false),
            }
        }
    }
}

/// Whether the memory `pre_mem` may perform `access` with `data` on the data
/// bus, the byte read or the byte written, and so become `post_mem`.
pub open spec fn performed<M: Memory>(access: Access, data: u8, pre_mem: M, post_mem: M) -> bool {
    match access {
        Access::Read(addr) => pre_mem.read_to(addr, data, &post_mem),
        Access::Write(addr, value) => value == data && pre_mem.write_to(addr, value, &post_mem),
    }
}

/// Whether one clock cycle may take the ticker `pre` with the memory
/// `pre_mem` to `post` and `post_mem`, completing the instruction or not
/// (`done`): the memory performs the one access of the cycle, and the ticker
/// advances on the byte that was on the data bus.
pub open spec fn ticked<M: Memory>(
    pre: CycleTicker,
    pre_mem: M,
    post: CycleTicker,
    post_mem: M,
    done: bool,
) -> bool {
    exists|data: u8| #[trigger]
        performed(pre.access(), data, pre_mem, post_mem) && pre.advance(data) == (post, done)
}

/// Reads one byte over the bus.
fn bus_read<M: Memory>(mem: &mut M, addr: u16) -> (data: u8)
    ensures
        performed(Access::Read(addr), data, *old(mem), *final(mem)),
{
    mem.read(addr)
}

/// Writes one byte over the bus.
fn bus_write<M: Memory>(mem: &mut M, addr: u16, value: u8)
    ensures
        performed(Access::Write(addr, value), value, *old(mem), *final(mem)),
{
    mem.write(addr, value)
}

impl CycleTicker {
    /// Starts the instruction `op`, whose opcode has been fetched: the next
    /// tick performs its second cycle. The program counter of `state`
    /// addresses the byte after the opcode.
    pub fn new(state: M6502, op: u8) -> (r: CycleTicker)
        ensures
            r == CycleTicker::begun(state, op),
    {
        CycleTicker {
            cycle: ClockCycle::Cycle2,
            op,
            addr: 0,
            data: 0,
            crossed: false,
            interrupt: None,
            state,
        }
    }

    /// Starts the sequence by which the processor takes a hardware
    /// interrupt instead of the instruction at the program counter of
    /// `state`: the next tick performs its second cycle. The sequence is
    /// that of BRK, except that it pushes the program counter as it is, and
    /// the flags with the break bit clear, and that the interrupt that
    /// cannot be disabled leaves through the vector at `0xFFFA`.
    ///
    /// The chip takes an interrupt request only while the interrupt disable
    /// flag is clear; whether to start the sequence is for the host to say.
    pub fn interrupt(state: M6502, interrupt: Interrupt) -> (r: CycleTicker)
        ensures
            r == CycleTicker::interrupted(state, interrupt),
    {
        CycleTicker {
            cycle: ClockCycle::Cycle2,
            op: 0x00,
            addr: 0,
            data: 0,
            crossed: false,
            interrupt: Some(interrupt),
            state,
        }
    }

    /// Goes on to the next cycle of the instruction.
    fn proceed(&mut self) -> (done: bool)
        ensures
            (*final(self), done) == old(self).continued(),
    {
        self.cycle = self.cycle.next();
        false
    }

    /// Completes the instruction: the latches are cleared.
    fn complete(&mut self) -> (done: bool)
        ensures
            (*final(self), done) == old(self).completed(old(self).state),
    {
        self.cycle = ClockCycle::Cycle1;
        self.addr = 0;
        self.data = 0;
        self.crossed = false;
        self.interrupt = None;
        true
    }

    /// Moves the program counter to the next byte.
    fn bump_pc(&mut self)
        ensures
            *final(self) == (CycleTicker { state: old(self).pc_next(), ..*old(self) }),
    {
        self.state.pc = self.state.pc.wrapping_add(1);
    }

    /// Lowers the stack pointer after a push.
    fn push_sp(&mut self)
        ensures
            *final(self) == (CycleTicker { state: old(self).pushed(), ..*old(self) }),
    {
        self.state.sp = self.state.sp.wrapping_sub(1);
    }

    /// Raises the stack pointer before a pull.
    fn pull_sp(&mut self)
        ensures
            *final(self) == (CycleTicker { state: old(self).pulled(), ..*old(self) }),
    {
        self.state.sp = self.state.sp.wrapping_add(1);
    }

    /// Performs an operand cycle: one of the last cycles of an instruction
    /// that works on the byte at `addr`.
    fn operand_cycle<M: Memory>(&mut self, op: Operation, phase: u8, mem: &mut M) -> (done: bool)
        ensures
            exists|data: u8| #[trigger]
                performed(old(self).operand_access(op, phase as int), data, *old(mem), *final(mem))
                    && old(self).operand_step(op, phase as int, data) == (*final(self), done),
    {
        match op.kind() {
            Kind::Read => {
                let data: u8 = bus_read(mem, self.addr);
                self.state.execute_read(op, data);
                self.complete()
            },
            Kind::Write => {
                bus_write(mem, self.addr, self.state.store_value(op));
                self.complete()
            },
            Kind::Modify => {
                if phase == 0 {
                    let data: u8 = bus_read(mem, self.addr);
                    self.data = data;
                    self.proceed()
                } else if phase == 1 {
                    bus_write(mem, self.addr, self.data);
                    let value: u8 = self.state.execute_modify(op, self.data);
                    self.data = value;
                    self.proceed()
                } else {
                    bus_write(mem, self.addr, self.data);
                    self.complete()
                }
            },
        }
    }

    /// Latches the high byte of an indexed address and adds the index to its
    /// low byte.
    fn set_indexed(&mut self, high_byte: u8, index: u8)
        ensures
            *final(self) == old(self).indexed(high_byte, index),
    {
        let base: u8 = low(self.addr);
        self.crossed = base as u16 + index as u16 > 0xff;
        self.addr = word(high_byte, base.wrapping_add(index));
    }

    /// Performs the cycle that reads at an indexed address before its high
    /// byte is corrected.
    fn index_cycle<M: Memory>(&mut self, op: Operation, mem: &mut M) -> (done: bool)
        ensures
            exists|data: u8| #[trigger]
                performed(Access::Read(old(self).addr), data, *old(mem), *final(mem)) && old(
                    self,
                ).index_fixed(op, data) == (*final(self), done),
    {
        let data: u8 = bus_read(mem, self.addr);
        match op.kind() {
            Kind::Read if !self.crossed => {
                self.state.execute_read(op, data);
                self.complete()
            },
            _ => {
                if self.crossed {
                    self.addr = self.addr.wrapping_add(0x100);
                }
                self.proceed()
            },
        }
    }
}

/// BRK and the hardware interrupts: push the program counter and the flags,
/// with the break bit set for BRK and clear for an interrupt, disable
/// interrupts and leave through a vector.
fn tick_break<M: Memory>(cpu: &mut CycleTicker, instr: Instruction, mem: &mut M) -> (done: bool)
    requires
        decoded(old(cpu).op) == Some(instr),
        !(old(cpu).cycle is Cycle1),
        instr.op is Brk,
    ensures
        ticked(*old(cpu), *old(mem), *final(cpu), *final(mem), done),
{
    let c: u8 = cpu.cycle.number();
    let vector: u16 = match cpu.interrupt {
        Some(Interrupt::Nmi) => NMI_VECTOR,
        _ => BREAK_VECTOR,
    };
    if c <= 2 {
        bus_read(mem, cpu.state.pc);
        if cpu.interrupt.is_none() {
            cpu.bump_pc();
        }
        cpu.proceed()
    } else if c == 3 {
        bus_write(mem, stack_address(cpu.state.sp), high(cpu.state.pc));
        cpu.push_sp();
        cpu.proceed()
    } else if c == 4 {
        bus_write(mem, stack_address(cpu.state.sp), low(cpu.state.pc));
        cpu.push_sp();
        cpu.proceed()
    } else if c == 5 {
        let status: u8 = cpu.state.status_byte(cpu.interrupt.is_none());
        bus_write(mem, stack_address(cpu.state.sp), status);
        cpu.push_sp();
        cpu.state.set_flag_i(true);
        cpu.proceed()
    } else if c == 6 {
        let data: u8 = bus_read(mem, vector);
        cpu.addr = data as u16;
        cpu.proceed()
    } else {
        let data: u8 = bus_read(mem, vector + 1);
        cpu.state.pc = word(data, low(cpu.addr));
        cpu.complete()
    }
}

/// JSR: pushes the address of its own last byte and jumps.
fn tick_call<M: Memory>(cpu: &mut CycleTicker, instr: Instruction, mem: &mut M) -> (done: bool)
    requires
        decoded(old(cpu).op) == Some(instr),
        !(old(cpu).cycle is Cycle1),
        instr.op is Jsr,
    ensures
        ticked(*old(cpu), *old(mem), *final(cpu), *final(mem), done),
{
    let c: u8 = cpu.cycle.number();
    if c <= 2 {
        let data: u8 = bus_read(mem, cpu.state.pc);
        cpu.addr = data as u16;
        cpu.bump_pc();
        cpu.proceed()
    } else if c == 3 {
        bus_read(mem, stack_address(cpu.state.sp));
        cpu.proceed()
    } else if c == 4 {
        bus_write(mem, stack_address(cpu.state.sp), high(cpu.state.pc));
        cpu.push_sp();
        cpu.proceed()
    } else if c == 5 {
        bus_write(mem, stack_address(cpu.state.sp), low(cpu.state.pc));
        cpu.push_sp();
        cpu.proceed()
    } else {
        let data: u8 = bus_read(mem, cpu.state.pc);
        cpu.state.pc = word(data, low(cpu.addr));
        cpu.complete()
    }
}

/// RTI: pulls the flags and the program counter.
fn tick_return_interrupt<M: Memory>(
    cpu: &mut CycleTicker,
    instr: Instruction,
    mem: &mut M,
) -> (done: bool)
    requires
        decoded(old(cpu).op) == Some(instr),
        !(old(cpu).cycle is Cycle1),
        instr.op is Rti,
    ensures
        ticked(*old(cpu), *old(mem), *final(cpu), *final(mem), done),
{
    let c: u8 = cpu.cycle.number();
    if c <= 2 {
        bus_read(mem, cpu.state.pc);
        cpu.proceed()
    } else if c == 3 {
        bus_read(mem, stack_address(cpu.state.sp));
        cpu.pull_sp();
        cpu.proceed()
    } else if c == 4 {
        let data: u8 = bus_read(mem, stack_address(cpu.state.sp));
        cpu.pull_sp();
        cpu.state.set_status(data);
        cpu.proceed()
    } else if c == 5 {
        let data: u8 = bus_read(mem, stack_address(cpu.state.sp));
        cpu.addr = data as u16;
        cpu.pull_sp();
        cpu.proceed()
    } else {
        let data: u8 = bus_read(mem, stack_address(cpu.state.sp));
        cpu.state.pc = word(data, low(cpu.addr));
        cpu.complete()
    }
}

/// RTS: pulls the program counter and steps over the last byte of the JSR
/// that pushed it.
fn tick_return<M: Memory>(cpu: &mut CycleTicker, instr: Instruction, mem: &mut M) -> (done: bool)
    requires
        decoded(old(cpu).op) == Some(instr),
        !(old(cpu).cycle is Cycle1),
        instr.op is Rts,
    ensures
        ticked(*old(cpu), *old(mem), *final(cpu), *final(mem), done),
{
    let c: u8 = cpu.cycle.number();
    if c <= 2 {
        bus_read(mem, cpu.state.pc);
        cpu.proceed()
    } else if c == 3 {
        bus_read(mem, stack_address(cpu.state.sp));
        cpu.pull_sp();
        cpu.proceed()
    } else if c == 4 {
        let data: u8 = bus_read(mem, stack_address(cpu.state.sp));
        cpu.addr = data as u16;
        cpu.pull_sp();
        cpu.proceed()
    } else if c == 5 {
        let data: u8 = bus_read(mem, stack_address(cpu.state.sp));
        cpu.state.pc = word(data, low(cpu.addr));
        cpu.proceed()
    } else {
        bus_read(mem, cpu.state.pc);
        cpu.bump_pc();
        cpu.complete()
    }
}

/// PHA and PHP: push the accumulator, or the flags with the break bit set.
fn tick_push<M: Memory>(cpu: &mut CycleTicker, instr: Instruction, mem: &mut M) -> (done: bool)
    requires
        decoded(old(cpu).op) == Some(instr),
        !(old(cpu).cycle is Cycle1),
        instr.op is Pha || instr.op is Php,
    ensures
        ticked(*old(cpu), *old(mem), *final(cpu), *final(mem), done),
{
    let c: u8 = cpu.cycle.number();
    if c <= 2 {
        bus_read(mem, cpu.state.pc);
        cpu.proceed()
    } else {
        let value: u8 = match instr.op {
            Operation::Pha => cpu.state.a,
            _ => cpu.state.status_byte(true),
        };
        bus_write(mem, stack_address(cpu.state.sp), value);
        cpu.push_sp();
        cpu.complete()
    }
}

/// PLA and PLP: pull the accumulator, or the flags.
fn tick_pull<M: Memory>(cpu: &mut CycleTicker, instr: Instruction, mem: &mut M) -> (done: bool)
    requires
        decoded(old(cpu).op) == Some(instr),
        !(old(cpu).cycle is Cycle1),
        instr.op is Pla || instr.op is Plp,
    ensures
        ticked(*old(cpu), *old(mem), *final(cpu), *final(mem), done),
{
    let c: u8 = cpu.cycle.number();
    if c <= 2 {
        bus_read(mem, cpu.state.pc);
        cpu.proceed()
    } else if c == 3 {
        bus_read(mem, stack_address(cpu.state.sp));
        cpu.pull_sp();
        cpu.proceed()
    } else {
        let data: u8 = bus_read(mem, stack_address(cpu.state.sp));
        match instr.op {
            Operation::Pla => cpu.state.lda(data),
            _ => cpu.state.set_status(data),
        }
        cpu.complete()
    }
}

/// JMP: loads the program counter from the operand, or from the address
/// that the operand points to. The pointer does not leave its page: after
/// its byte `0xFF` comes its byte `0x00`.
fn tick_jump<M: Memory>(cpu: &mut CycleTicker, instr: Instruction, mem: &mut M) -> (done: bool)
    requires
        decoded(old(cpu).op) == Some(instr),
        !(old(cpu).cycle is Cycle1),
        instr.op is Jmp,
    ensures
        ticked(*old(cpu), *old(mem), *final(cpu), *final(mem), done),
{
    let c: u8 = cpu.cycle.number();
    let indirect: bool = match instr.mode {
        Mode::Indirect => true,
        _ => false,
    };
    if c <= 2 {
        let data: u8 = bus_read(mem, cpu.state.pc);
        cpu.addr = data as u16;
        cpu.bump_pc();
        cpu.proceed()
    } else if !indirect {
        let data: u8 = bus_read(mem, cpu.state.pc);
        cpu.state.pc = word(data, low(cpu.addr));
        cpu.complete()
    } else if c == 3 {
        let data: u8 = bus_read(mem, cpu.state.pc);
        cpu.addr = word(data, low(cpu.addr));
        cpu.bump_pc();
        cpu.proceed()
    } else if c == 4 {
        let data: u8 = bus_read(mem, cpu.addr);
        cpu.data = data;
        cpu.proceed()
    } else {
        let data: u8 = bus_read(mem, word(high(cpu.addr), low(cpu.addr).wrapping_add(1)));
        cpu.state.pc = word(data, cpu.data);
        cpu.complete()
    }
}

/// An instruction that works on registers and flags alone: it reads the
/// next byte without using it, and acts.
fn tick_register<M: Memory>(cpu: &mut CycleTicker, instr: Instruction, mem: &mut M) -> (done: bool)
    requires
        decoded(old(cpu).op) == Some(instr),
        !(old(cpu).cycle is Cycle1),
        !instr.op.has_own_sequence(),
        instr.mode is Implied || instr.mode is Accumulator || instr.mode is Indirect,
    ensures
        ticked(*old(cpu), *old(mem), *final(cpu), *final(mem), done),
{
    let c: u8 = cpu.cycle.number();
    bus_read(mem, cpu.state.pc);
    cpu.state.execute(instr.op);
    cpu.complete()
}

/// An instruction whose operand follows the opcode.
fn tick_immediate<M: Memory>(cpu: &mut CycleTicker, instr: Instruction, mem: &mut M) -> (done: bool)
    requires
        decoded(old(cpu).op) == Some(instr),
        !(old(cpu).cycle is Cycle1),
        !instr.op.has_own_sequence(),
        instr.mode is Immediate,
    ensures
        ticked(*old(cpu), *old(mem), *final(cpu), *final(mem), done),
{
    let c: u8 = cpu.cycle.number();
    let data: u8 = bus_read(mem, cpu.state.pc);
    cpu.bump_pc();
    cpu.state.execute_read(instr.op, data);
    cpu.complete()
}

/// A branch: two cycles when it is not taken, a third when it is, and a
/// fourth when the target lies in another page.
fn tick_branch<M: Memory>(cpu: &mut CycleTicker, instr: Instruction, mem: &mut M) -> (done: bool)
    requires
        decoded(old(cpu).op) == Some(instr),
        !(old(cpu).cycle is Cycle1),
        !instr.op.has_own_sequence(),
        instr.mode is Relative,
    ensures
        ticked(*old(cpu), *old(mem), *final(cpu), *final(mem), done),
{
    let c: u8 = cpu.cycle.number();
    if c <= 2 {
        let data: u8 = bus_read(mem, cpu.state.pc);
        let taken: bool = cpu.state.branch_taken(instr.op);
        cpu.bump_pc();
        if taken {
            cpu.data = data;
            cpu.proceed()
        } else {
            cpu.complete()
        }
    } else if c == 3 {
        bus_read(mem, cpu.state.pc);
        let target: u16 = branch_target(cpu.state.pc, cpu.data);
        if high(target) == high(cpu.state.pc) {
            cpu.state.pc = target;
            cpu.complete()
        } else {
            cpu.addr = target;
            cpu.crossed = true;
            cpu.state.pc = word(high(cpu.state.pc), low(target));
            cpu.proceed()
        }
    } else {
        bus_read(mem, cpu.state.pc);
        cpu.state.pc = cpu.addr;
        cpu.complete()
    }
}

/// An instruction on a byte in page zero.
fn tick_zero_page<M: Memory>(cpu: &mut CycleTicker, instr: Instruction, mem: &mut M) -> (done: bool)
    requires
        decoded(old(cpu).op) == Some(instr),
        !(old(cpu).cycle is Cycle1),
        !instr.op.has_own_sequence(),
        instr.mode is ZeroPage,
    ensures
        ticked(*old(cpu), *old(mem), *final(cpu), *final(mem), done),
{
    let c: u8 = cpu.cycle.number();
    if c <= 2 {
        let data: u8 = bus_read(mem, cpu.state.pc);
        cpu.addr = data as u16;
        cpu.bump_pc();
        cpu.proceed()
    } else {
        cpu.operand_cycle(instr.op, c - 3, mem)
    }
}

/// An instruction on a byte in page zero, indexed: the sum of address and
/// index stays in page zero.
fn tick_zero_page_indexed<M: Memory>(
    cpu: &mut CycleTicker,
    instr: Instruction,
    mem: &mut M,
) -> (done: bool)
    requires
        decoded(old(cpu).op) == Some(instr),
        !(old(cpu).cycle is Cycle1),
        !instr.op.has_own_sequence(),
        instr.mode is ZeroPageX || instr.mode is ZeroPageY,
    ensures
        ticked(*old(cpu), *old(mem), *final(cpu), *final(mem), done),
{
    let c: u8 = cpu.cycle.number();
    if c <= 2 {
        let data: u8 = bus_read(mem, cpu.state.pc);
        cpu.addr = data as u16;
        cpu.bump_pc();
        cpu.proceed()
    } else if c == 3 {
        bus_read(mem, cpu.addr);
        cpu.addr = low(cpu.addr).wrapping_add(instr.mode.index(cpu.state)) as u16;
        cpu.proceed()
    } else {
        cpu.operand_cycle(instr.op, c - 4, mem)
    }
}

/// An instruction on the byte at a 16-bit address.
fn tick_absolute<M: Memory>(cpu: &mut CycleTicker, instr: Instruction, mem: &mut M) -> (done: bool)
    requires
        decoded(old(cpu).op) == Some(instr),
        !(old(cpu).cycle is Cycle1),
        !instr.op.has_own_sequence(),
        instr.mode is Absolute,
    ensures
        ticked(*old(cpu), *old(mem), *final(cpu), *final(mem), done),
{
    let c: u8 = cpu.cycle.number();
    if c <= 2 {
        let data: u8 = bus_read(mem, cpu.state.pc);
        cpu.addr = data as u16;
        cpu.bump_pc();
        cpu.proceed()
    } else if c == 3 {
        let data: u8 = bus_read(mem, cpu.state.pc);
        cpu.addr = word(data, low(cpu.addr));
        cpu.bump_pc();
        cpu.proceed()
    } else {
        cpu.operand_cycle(instr.op, c - 4, mem)
    }
}

/// An instruction on the byte at a 16-bit address, indexed. A read takes
/// one cycle more when the index carries into the high byte; a write and a
/// modification always take it.
fn tick_absolute_indexed<M: Memory>(
    cpu: &mut CycleTicker,
    instr: Instruction,
    mem: &mut M,
) -> (done: bool)
    requires
        decoded(old(cpu).op) == Some(instr),
        !(old(cpu).cycle is Cycle1),
        !instr.op.has_own_sequence(),
        instr.mode is AbsoluteX || instr.mode is AbsoluteY,
    ensures
        ticked(*old(cpu), *old(mem), *final(cpu), *final(mem), done),
{
    let c: u8 = cpu.cycle.number();
    if c <= 2 {
        let data: u8 = bus_read(mem, cpu.state.pc);
        cpu.addr = data as u16;
        cpu.bump_pc();
        cpu.proceed()
    } else if c == 3 {
        let data: u8 = bus_read(mem, cpu.state.pc);
        let index: u8 = instr.mode.index(cpu.state);
        cpu.bump_pc();
        cpu.set_indexed(data, index);
        cpu.proceed()
    } else if c == 4 {
        cpu.index_cycle(instr.op, mem)
    } else {
        cpu.operand_cycle(instr.op, c - 5, mem)
    }
}

/// An instruction on the byte whose address is stored in page zero, at
/// the operand plus X.
fn tick_indexed_indirect<M: Memory>(
    cpu: &mut CycleTicker,
    instr: Instruction,
    mem: &mut M,
) -> (done: bool)
    requires
        decoded(old(cpu).op) == Some(instr),
        !(old(cpu).cycle is Cycle1),
        !instr.op.has_own_sequence(),
        instr.mode is IndexedIndirect,
    ensures
        ticked(*old(cpu), *old(mem), *final(cpu), *final(mem), done),
{
    let c: u8 = cpu.cycle.number();
    if c <= 2 {
        let data: u8 = bus_read(mem, cpu.state.pc);
        cpu.data = data;
        cpu.bump_pc();
        cpu.proceed()
    } else if c == 3 {
        bus_read(mem, cpu.data as u16);
        cpu.data = cpu.data.wrapping_add(cpu.state.x);
        cpu.proceed()
    } else if c == 4 {
        let data: u8 = bus_read(mem, cpu.data as u16);
        cpu.addr = data as u16;
        cpu.proceed()
    } else if c == 5 {
        let data: u8 = bus_read(mem, cpu.data.wrapping_add(1) as u16);
        cpu.addr = word(data, low(cpu.addr));
        cpu.proceed()
    } else {
        cpu.operand_cycle(instr.op, c - 6, mem)
    }
}

/// An instruction on the byte at the address stored in page zero at the
/// operand, plus Y. A read takes one cycle more when Y carries into the high
/// byte; a write always takes it.
fn tick_indirect_indexed<M: Memory>(
    cpu: &mut CycleTicker,
    instr: Instruction,
    mem: &mut M,
) -> (done: bool)
    requires
        decoded(old(cpu).op) == Some(instr),
        !(old(cpu).cycle is Cycle1),
        !instr.op.has_own_sequence(),
        instr.mode is IndirectIndexed,
    ensures
        ticked(*old(cpu), *old(mem), *final(cpu), *final(mem), done),
{
    let c: u8 = cpu.cycle.number();
    if c <= 2 {
        let data: u8 = bus_read(mem, cpu.state.pc);
        cpu.data = data;
        cpu.bump_pc();
        cpu.proceed()
    } else if c == 3 {
        let data: u8 = bus_read(mem, cpu.data as u16);
        cpu.addr = data as u16;
        cpu.proceed()
    } else if c == 4 {
        let data: u8 = bus_read(mem, cpu.data.wrapping_add(1) as u16);
        let index: u8 = cpu.state.y;
        cpu.set_indexed(data, index);
        cpu.proceed()
    } else if c == 5 {
        cpu.index_cycle(instr.op, mem)
    } else {
        cpu.operand_cycle(instr.op, c - 6, mem)
    }
}

/// The opcode fetch: reads the opcode at the program counter and moves the
/// program counter on.
fn tick_fetch<M: Memory>(cpu: &mut CycleTicker, mem: &mut M) -> (done: bool)
    requires
        old(cpu).cycle is Cycle1,
    ensures
        ticked(*old(cpu), *old(mem), *final(cpu), *final(mem), done),
{
    let data: u8 = bus_read(mem, cpu.state.pc);
    cpu.bump_pc();
    cpu.op = data;
    cpu.cycle = ClockCycle::Cycle2;
    cpu.addr = 0;
    cpu.data = 0;
    cpu.crossed = false;
    cpu.interrupt = None;
    false
}

/// Advances the processor by one clock cycle.
///
/// The cycle makes exactly one access to `mem`, by `read` or `write`, and
/// updates the ticker with the byte that was on the data bus. It returns
/// whether the cycle completed the instruction in flight. When it did, the
/// next tick is an opcode fetch; a host that fetches opcodes itself starts
/// the next instruction with [`CycleTicker::new`] instead.
///
/// Where the opcode in flight is none of the chip's instructions, nothing is
/// read, written or changed, and the opcode is reported.
pub fn tick_cycle<M: Memory>(cpu: &mut CycleTicker, mem: &mut M) -> (r: Result<bool, IllegalOpcode>)
    ensures
        old(cpu).stalled() ==> r == Err::<bool, IllegalOpcode>(IllegalOpcode { opcode: old(cpu).op })
            && *final(cpu) == *old(cpu) && *final(mem) == *old(mem),
        !old(cpu).stalled() ==> (r matches Ok(done) && ticked(
            *old(cpu),
            *old(mem),
            *final(cpu),
            *final(mem),
            done,
        )),
{
    if let ClockCycle::Cycle1 = cpu.cycle {
        return Ok(tick_fetch(cpu, mem));
    }
    let instr = match decode(cpu.op) {
        Some(instr) => instr,
        None => {
            return Err(IllegalOpcode { opcode: cpu.op });
        },
    };
    let done: bool = match instr.op {
        Operation::Brk => tick_break(cpu, instr, mem),
        Operation::Jsr => tick_call(cpu, instr, mem),
        Operation::Rti => tick_return_interrupt(cpu, instr, mem),
        Operation::Rts => tick_return(cpu, instr, mem),
        Operation::Pha | Operation::Php => tick_push(cpu, instr, mem),
        Operation::Pla | Operation::Plp => tick_pull(cpu, instr, mem),
        Operation::Jmp => tick_jump(cpu, instr, mem),
        _ => match instr.mode {
            Mode::Implied | Mode::Accumulator | Mode::Indirect => tick_register(cpu, instr, mem),
            Mode::Immediate => tick_immediate(cpu, instr, mem),
            Mode::Relative => tick_branch(cpu, instr, mem),
            Mode::ZeroPage => tick_zero_page(cpu, instr, mem),
            Mode::ZeroPageX | Mode::ZeroPageY => tick_zero_page_indexed(cpu, instr, mem),
            Mode::Absolute => tick_absolute(cpu, instr, mem),
            Mode::AbsoluteX | Mode::AbsoluteY => tick_absolute_indexed(cpu, instr, mem),
            Mode::IndexedIndirect => tick_indexed_indirect(cpu, instr, mem),
            Mode::IndirectIndexed => tick_indirect_indexed(cpu, instr, mem),
        },
    };
    Ok(done)
}

} // verus!
