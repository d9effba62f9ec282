//! What the instructions on a byte in memory do over all their cycles.

use super::addressing::{
    address_of, effective_address, finds_operand, lemma_operand_at_effective_address,
};
use super::instruction::{decoded, Instruction, Mode};
use super::m6502::M6502;
use super::m6502_driver::{Access, CycleTicker};
use super::timing::{
    cycle_count, cycles_left, lemma_countdown, lemma_step, operand_cycles, page_crossed, run,
};
use vstd::prelude::*;

verus! {

/// The number of bytes that follow the opcode of an instruction with the
/// addressing mode `mode`.
pub open spec fn operand_bytes(mode: Mode) -> u16 {
    match mode {
        Mode::Implied | Mode::Accumulator => 0,
        Mode::Absolute | Mode::AbsoluteX | Mode::AbsoluteY | Mode::Indirect => 2,
        _ => 1,
    }
}

/// The state `state`, in which an instruction begins after its opcode
/// fetch, with the program counter moved past the operand of the
/// instruction.
pub open spec fn past_operand(state: M6502, mode: Mode) -> M6502 {
    M6502 { pc: state.pc.wrapping_add(operand_bytes(mode)), ..state }
}

/// The registers of the ticker with the program counter where it will be
/// when the operand of the instruction in flight has been fetched.
pub open spec fn registers_in_flight(t: CycleTicker, mode: Mode) -> M6502 {
    let c = t.cycle.index();
    let fetched: u16 = if c <= 2 {
        0
    } else if c == 3 {
        1
    } else {
        2
    };
    let ahead: u16 = if fetched >= operand_bytes(mode) {
        0
    } else {
        (operand_bytes(mode) - fetched) as u16
    };
    M6502 { pc: t.state.pc.wrapping_add(ahead), ..t.state }
}

/// Whether the coming clock cycle, one of those in which the instruction
/// finds its address, leaves the registers alone but for the program
/// counter, which it moves over an operand byte that it fetches.
pub open spec fn registers_kept(t: CycleTicker, instr: Instruction, bus: Seq<u8>, at: int) -> bool {
    registers_in_flight(t.advance(bus[at]).0, instr.mode) == registers_in_flight(t, instr.mode)
}

/// A cycle in which the instruction finds its address leaves the registers
/// alone but for the program counter.
#[verifier::rlimit(40)]
proof fn lemma_registers_step(t: CycleTicker, instr: Instruction, bus: Seq<u8>, at: int)
    requires
        decoded(t.op) == Some(instr),
        finds_operand(instr),
        t.cycle.index() >= 2,
        cycles_left(t, instr, bus, at) > operand_cycles(instr.op.kind()),
    ensures
        registers_kept(t, instr, bus, at),
{
}

/// While the instruction finds its address, the registers stay as they
/// were when it began, but for the program counter.
proof fn lemma_registers_countdown(t: CycleTicker, instr: Instruction, bus: Seq<u8>, k: nat)
    requires
        decoded(t.op) == Some(instr),
        finds_operand(instr),
        t.cycle.index() >= 2,
        k + operand_cycles(instr.op.kind()) <= cycles_left(t, instr, bus, 0),
    ensures
        registers_in_flight(run(t, bus, k).0, instr.mode) == registers_in_flight(t, instr.mode),
    decreases k,
{
    if k > 0 {
        let before = (k - 1) as nat;
        lemma_registers_countdown(t, instr, bus, before);
        lemma_countdown(t, instr, bus, before);
        lemma_registers_step(run(t, bus, before).0, instr, bus, before as int);
    }
}

/// What the last cycles of an instruction do, those in which it deals with
/// its byte in memory: a read uses the byte read, a store writes its
/// register, and a modification reads the byte, writes it back, and writes
/// what it made of it.
#[verifier::rlimit(40)]
proof fn lemma_operand_cycles(t: CycleTicker, instr: Instruction, bus: Seq<u8>, at: int)
    requires
        decoded(t.op) == Some(instr),
        finds_operand(instr),
        t.cycle.index() >= 2,
        cycles_left(t, instr, bus, at) == operand_cycles(instr.op.kind()),
    ensures
        registers_in_flight(t, instr.mode) == t.state,
        instr.op.kind() is Read ==> t.access() is Read && t.advance(bus[at]).0.state == instr.op.reads(
            t.state,
            bus[at],
        ),
        instr.op.kind() is Write ==> t.access() == Access::Write(
            address_of(t.access()),
            instr.op.stores(t.state),
        ) && t.advance(bus[at]).0.state == t.state,
        instr.op.kind() is Modify ==> ({
            let second = t.advance(bus[at]).0;
            let third = second.advance(bus[at + 1]).0;
            let (value, state) = instr.op.modifies(t.state, bus[at]);
            &&& t.access() is Read
            &&& second.access() == Access::Write(address_of(second.access()), bus[at])
            &&& third.access() == Access::Write(address_of(third.access()), value)
            &&& third.advance(bus[at + 2]).0.state == state
        }),
{
    if instr.op.kind() is Modify {
        lemma_step(t, instr, bus, at);
        let second = t.advance(bus[at]).0;
        lemma_step(second, instr, bus, at + 1);
    }
}

/// An instruction that reads does, over all its cycles, what its operation
/// says of the byte at its effective address: its last cycle reads that
/// address, and the instruction ends in the state that the operation makes
/// of the byte read, with the program counter past the operand.
pub proof fn lemma_read_instruction(state: M6502, opcode: u8, bus: Seq<u8>)
    requires
        decoded(opcode) matches Some(instr) && finds_operand(instr) && instr.op.kind() is Read,
    ensures
        ({
            let instr = decoded(opcode).unwrap();
            let ticks = cycle_count(instr, page_crossed(instr, state, bus), false) - 1;
            let t = CycleTicker::begun(state, opcode);
            &&& 2 <= ticks
            &&& run(t, bus, (ticks - 1) as nat).0.access() == Access::Read(
                effective_address(instr.mode, state, bus),
            )
            &&& run(t, bus, ticks as nat).1
            &&& run(t, bus, ticks as nat).0.state == instr.op.reads(
                past_operand(state, instr.mode),
                bus[ticks - 1],
            )
        }),
{
    let instr = decoded(opcode).unwrap();
    let ticks = cycle_count(instr, page_crossed(instr, state, bus), false) - 1;
    let t = CycleTicker::begun(state, opcode);
    let k = (ticks - 1) as nat;
    lemma_countdown(t, instr, bus, k);
    lemma_registers_countdown(t, instr, bus, k);
    lemma_operand_at_effective_address(state, opcode, bus, k);
    lemma_operand_cycles(run(t, bus, k).0, instr, bus, k as int);
    lemma_step(run(t, bus, k).0, instr, bus, k as int);
}

/// An instruction that stores does, over all its cycles, what its operation
/// says: its last cycle writes the register of the operation to its
/// effective address, and the instruction ends in the state in which it
/// began, with the program counter past the operand.
pub proof fn lemma_store_instruction(state: M6502, opcode: u8, bus: Seq<u8>)
    requires
        decoded(opcode) matches Some(instr) && finds_operand(instr) && instr.op.kind() is Write,
    ensures
        ({
            let instr = decoded(opcode).unwrap();
            let ticks = cycle_count(instr, false, false) - 1;
            let t = CycleTicker::begun(state, opcode);
            &&& 2 <= ticks
            &&& run(t, bus, (ticks - 1) as nat).0.access() == Access::Write(
                effective_address(instr.mode, state, bus),
                instr.op.stores(state),
            )
            &&& run(t, bus, ticks as nat).1
            &&& run(t, bus, ticks as nat).0.state == past_operand(state, instr.mode)
        }),
{
    let instr = decoded(opcode).unwrap();
    let ticks = cycle_count(instr, page_crossed(instr, state, bus), false) - 1;
    let t = CycleTicker::begun(state, opcode);
    let k = (ticks - 1) as nat;
    lemma_countdown(t, instr, bus, k);
    lemma_registers_countdown(t, instr, bus, k);
    lemma_operand_at_effective_address(state, opcode, bus, k);
    lemma_operand_cycles(run(t, bus, k).0, instr, bus, k as int);
    lemma_step(run(t, bus, k).0, instr, bus, k as int);
}

/// An instruction that modifies does, over all its cycles, what its
/// operation says of the byte at its effective address: its last three
/// cycles read the byte there, write it back as it was, and write what the
/// operation made of it, and the instruction ends in the state that the
/// operation leaves, with the program counter past the operand.
pub proof fn lemma_modify_instruction(state: M6502, opcode: u8, bus: Seq<u8>)
    requires
        decoded(opcode) matches Some(instr) && finds_operand(instr) && instr.op.kind() is Modify,
    ensures
        ({
            let instr = decoded(opcode).unwrap();
            let ticks = cycle_count(instr, false, false) - 1;
            let t = CycleTicker::begun(state, opcode);
            let address = effective_address(instr.mode, state, bus);
            let byte = bus[ticks - 3];
            let (value, after) = instr.op.modifies(past_operand(state, instr.mode), byte);
            &&& 4 <= ticks
            &&& run(t, bus, (ticks - 3) as nat).0.access() == Access::Read(address)
            &&& run(t, bus, (ticks - 2) as nat).0.access() == Access::Write(address, byte)
            &&& run(t, bus, (ticks - 1) as nat).0.access() == Access::Write(address, value)
            &&& run(t, bus, ticks as nat).1
            &&& run(t, bus, ticks as nat).0.state == after
        }),
{
    let instr = decoded(opcode).unwrap();
    let ticks = cycle_count(instr, page_crossed(instr, state, bus), false) - 1;
    let t = CycleTicker::begun(state, opcode);
    let k = (ticks - 3) as nat;
    lemma_countdown(t, instr, bus, k);
    lemma_countdown(t, instr, bus, k + 1);
    lemma_countdown(t, instr, bus, k + 2);
    lemma_registers_countdown(t, instr, bus, k);
    lemma_operand_at_effective_address(state, opcode, bus, k);
    lemma_operand_at_effective_address(state, opcode, bus, k + 1);
    lemma_operand_at_effective_address(state, opcode, bus, k + 2);
    lemma_operand_cycles(run(t, bus, k).0, instr, bus, k as int);
    lemma_step(run(t, bus, k + 2).0, instr, bus, (k + 2) as int);
}

} // verus!
