//! How many clock cycles every instruction takes.

use super::instruction::{decoded, lemma_decoded_encoding, Instruction, Mode, Operation};
use super::m6502::M6502;
use super::m6502_driver::{branch_target, high, low, CycleTicker, Interrupt};
use super::operation::Kind;
use vstd::prelude::*;

verus! {

/// The ticker after `k` clock cycles, and whether the last of them completed
/// an instruction, when `bus[i]` is the byte on the data bus during cycle
/// `i` of them.
pub open spec fn run(t: CycleTicker, bus: Seq<u8>, k: nat) -> (CycleTicker, bool)
    decreases k,
{
    if k == 0 {
        (t, false)
    } else {
        run(t, bus, (k - 1) as nat).0.advance(bus[k - 1])
    }
}

/// Whether the instruction in flight completes with the `n`-th of the coming
/// clock cycles, and with none before it.
pub open spec fn completes_after(t: CycleTicker, bus: Seq<u8>, n: int) -> bool {
    &&& 1 <= n
    &&& run(t, bus, n as nat).1
    &&& forall|k: nat| k < n ==> !(#[trigger] run(t, bus, k)).1
}

/// The number of cycles in which an instruction deals with its byte in
/// memory, once the address is known.
pub open spec fn operand_cycles(kind: Kind) -> int {
    match kind {
        Kind::Read | Kind::Write => 1,
        Kind::Modify => 3,
    }
}

/// The number of clock cycles that the chip's documentation gives for an
/// instruction, the opcode fetch included. `crossed` tells whether indexing,
/// or a taken branch, leaves the page it started from, and `taken` whether a
/// branch is taken.
pub open spec fn cycle_count(instr: Instruction, crossed: bool, taken: bool) -> int {
    let penalty: int = if crossed {
        1
    } else {
        0
    };
    match instr.op {
        Operation::Brk => 7,
        Operation::Jsr | Operation::Rti | Operation::Rts => 6,
        Operation::Pha | Operation::Php => 3,
        Operation::Pla | Operation::Plp => 4,
        Operation::Jmp => if instr.mode is Indirect {
            5
        } else {
            3
        },
        op => match instr.mode {
            Mode::Implied | Mode::Accumulator | Mode::Immediate | Mode::Indirect => 2,
            Mode::Relative => if taken {
                3 + penalty
            } else {
                2
            },
            Mode::ZeroPage => 2 + operand_cycles(op.kind()),
            Mode::ZeroPageX | Mode::ZeroPageY | Mode::Absolute => 3 + operand_cycles(op.kind()),
            Mode::AbsoluteX | Mode::AbsoluteY => if op.kind() is Read {
                4 + penalty
            } else {
                4 + operand_cycles(op.kind())
            },
            Mode::IndexedIndirect => 5 + operand_cycles(op.kind()),
            Mode::IndirectIndexed => if op.kind() is Read {
                5 + penalty
            } else {
                5 + operand_cycles(op.kind())
            },
        },
    }
}

/// Whether the instruction, begun in `state`, leaves a page when `bus` are
/// the bytes on the data bus from its second cycle on. An indexed address
/// does when adding the index to its low byte carries; a branch does when
/// its target is not in the page of the next instruction.
pub open spec fn page_crossed(instr: Instruction, state: M6502, bus: Seq<u8>) -> bool {
    match instr.mode {
        Mode::AbsoluteX | Mode::AbsoluteY => bus[0] + instr.mode.index(state) > 0xff,
        Mode::IndirectIndexed => bus[1] + state.y > 0xff,
        Mode::Relative => {
            let next = state.pc.wrapping_add(1);
            high(branch_target(next, bus[0])) != high(next)
        },
        _ => false,
    }
}

/// Whether the instruction in flight leaves a page, as far as the ticker
/// knows it in its current cycle, with `bus[at]` the byte on the data bus in
/// the coming cycle: read from the bytes still to come, from the latched
/// address, or from what the ticker has noted.
pub open spec fn crossing(t: CycleTicker, instr: Instruction, bus: Seq<u8>, at: int) -> bool {
    let c = t.cycle.index();
    match instr.mode {
        Mode::AbsoluteX | Mode::AbsoluteY => if c <= 2 {
            bus[at] + instr.mode.index(t.state) > 0xff
        } else if c == 3 {
            low(t.addr) + instr.mode.index(t.state) > 0xff
        } else {
            t.crossed
        },
        Mode::IndirectIndexed => if c <= 2 {
            bus[at + 1] + t.state.y > 0xff
        } else if c == 3 {
            bus[at] + t.state.y > 0xff
        } else if c == 4 {
            low(t.addr) + t.state.y > 0xff
        } else {
            t.crossed
        },
        Mode::Relative => if c <= 2 {
            let next = t.state.pc.wrapping_add(1);
            high(branch_target(next, bus[at])) != high(next)
        } else if c == 3 {
            high(branch_target(t.state.pc, t.data)) != high(t.state.pc)
        } else {
            true
        },
        _ => false,
    }
}

/// The number of clock cycles that the instruction in flight still takes,
/// the coming one included.
pub open spec fn cycles_left(t: CycleTicker, instr: Instruction, bus: Seq<u8>, at: int) -> int {
    let taken = t.cycle.index() >= 3 || instr.op.branches(t.state);
    cycle_count(instr, crossing(t, instr, bus, at), taken) + 1 - t.cycle.index()
}

/// What one clock cycle does to the count of the cycles that are left: it
/// completes the instruction when the count is one, and else leaves the
/// same instruction in flight, one cycle further and with one cycle less.
pub open spec fn stepped(t: CycleTicker, instr: Instruction, bus: Seq<u8>, at: int) -> bool {
    let (next, done) = t.advance(bus[at]);
    &&& done == (cycles_left(t, instr, bus, at) == 1)
    &&& !done ==> {
        &&& next.op == t.op
        &&& next.cycle.index() == t.cycle.index() + 1
        &&& cycles_left(next, instr, bus, at + 1) == cycles_left(t, instr, bus, at) - 1
    }
}

/// The step of the count in an instruction that jumps or uses the stack.
#[verifier::rlimit(40)]
proof fn lemma_step_control(t: CycleTicker, instr: Instruction, bus: Seq<u8>, at: int)
    requires
        decoded(t.op) == Some(instr),
        t.cycle.index() >= 2,
        cycles_left(t, instr, bus, at) >= 1,
        instr.op.has_own_sequence(),
    ensures
        stepped(t, instr, bus, at),
{
}

/// The step of the count in an instruction of two cycles, and in a branch.
#[verifier::rlimit(40)]
proof fn lemma_step_short(t: CycleTicker, instr: Instruction, bus: Seq<u8>, at: int)
    requires
        decoded(t.op) == Some(instr),
        instr.encoding() is Some,
        t.cycle.index() >= 2,
        cycles_left(t, instr, bus, at) >= 1,
        !instr.op.has_own_sequence(),
        instr.mode is Implied || instr.mode is Accumulator || instr.mode is Immediate
            || instr.mode is Indirect || instr.mode is Relative,
    ensures
        stepped(t, instr, bus, at),
{
}

/// The step of the count in an instruction on a byte in page zero or at an
/// absolute address.
#[verifier::rlimit(40)]
proof fn lemma_step_direct(t: CycleTicker, instr: Instruction, bus: Seq<u8>, at: int)
    requires
        decoded(t.op) == Some(instr),
        instr.encoding() is Some,
        t.cycle.index() >= 2,
        cycles_left(t, instr, bus, at) >= 1,
        !instr.op.has_own_sequence(),
        instr.mode is ZeroPage || instr.mode is ZeroPageX || instr.mode is ZeroPageY
            || instr.mode is Absolute,
    ensures
        stepped(t, instr, bus, at),
{
}

/// The step of the count in an instruction on a byte at an indexed absolute
/// address.
#[verifier::rlimit(40)]
proof fn lemma_step_absolute_indexed(t: CycleTicker, instr: Instruction, bus: Seq<u8>, at: int)
    requires
        decoded(t.op) == Some(instr),
        instr.encoding() is Some,
        t.cycle.index() >= 2,
        cycles_left(t, instr, bus, at) >= 1,
        !instr.op.has_own_sequence(),
        instr.mode is AbsoluteX || instr.mode is AbsoluteY,
    ensures
        stepped(t, instr, bus, at),
{
}

/// The step of the count in an instruction on a byte whose address is stored
/// in page zero at the operand plus X.
#[verifier::rlimit(40)]
proof fn lemma_step_indexed_indirect(t: CycleTicker, instr: Instruction, bus: Seq<u8>, at: int)
    requires
        decoded(t.op) == Some(instr),
        instr.encoding() is Some,
        t.cycle.index() >= 2,
        cycles_left(t, instr, bus, at) >= 1,
        !instr.op.has_own_sequence(),
        instr.mode is IndexedIndirect,
    ensures
        stepped(t, instr, bus, at),
{
}

/// The step of the count in an instruction on a byte at the address stored in
/// page zero, plus Y.
#[verifier::rlimit(40)]
proof fn lemma_step_indirect_indexed(t: CycleTicker, instr: Instruction, bus: Seq<u8>, at: int)
    requires
        decoded(t.op) == Some(instr),
        instr.encoding() is Some,
        t.cycle.index() >= 2,
        cycles_left(t, instr, bus, at) >= 1,
        !instr.op.has_own_sequence(),
        instr.mode is IndirectIndexed,
    ensures
        stepped(t, instr, bus, at),
{
}

/// One clock cycle of an instruction in flight takes one off the cycles that
/// are left, and completes the instruction exactly when none is left.
pub proof fn lemma_step(t: CycleTicker, instr: Instruction, bus: Seq<u8>, at: int)
    requires
        decoded(t.op) == Some(instr),
        t.cycle.index() >= 2,
        cycles_left(t, instr, bus, at) >= 1,
    ensures
        stepped(t, instr, bus, at),
{
    match instr.op {
        Operation::Brk
        | Operation::Jsr
        | Operation::Rti
        | Operation::Rts
        | Operation::Pha
        | Operation::Php
        | Operation::Pla
        | Operation::Plp
        | Operation::Jmp => lemma_step_control(t, instr, bus, at),
        _ => match instr.mode {
            Mode::Implied | Mode::Accumulator | Mode::Immediate | Mode::Indirect | Mode::Relative => {
                lemma_step_short(t, instr, bus, at)
            },
            Mode::ZeroPage | Mode::ZeroPageX | Mode::ZeroPageY | Mode::Absolute => {
                lemma_step_direct(t, instr, bus, at)
            },
            Mode::AbsoluteX | Mode::AbsoluteY => lemma_step_absolute_indexed(t, instr, bus, at),
            Mode::IndexedIndirect => lemma_step_indexed_indirect(t, instr, bus, at),
            Mode::IndirectIndexed => lemma_step_indirect_indexed(t, instr, bus, at),
        },
    }
}

/// While cycles are left, the instruction is in flight: after `k` cycles,
/// fewer than were left, it is `k` cycles further and has `k` cycles less
/// to go.
pub proof fn lemma_countdown(t: CycleTicker, instr: Instruction, bus: Seq<u8>, k: nat)
    requires
        decoded(t.op) == Some(instr),
        t.cycle.index() >= 2,
        k < cycles_left(t, instr, bus, 0),
    ensures
        !run(t, bus, k).1 || k == 0,
        run(t, bus, k).0.op == t.op,
        run(t, bus, k).0.cycle.index() == t.cycle.index() + k,
        cycles_left(run(t, bus, k).0, instr, bus, k as int) == cycles_left(t, instr, bus, 0) - k,
    decreases k,
{
    if k > 0 {
        lemma_countdown(t, instr, bus, (k - 1) as nat);
        lemma_step(run(t, bus, (k - 1) as nat).0, instr, bus, k - 1);
    }
}

/// Every instruction of the chip takes the number of clock cycles that the
/// documentation gives for it, whatever bytes come over the data bus: begun
/// in `state` after its opcode fetch, it completes with the last of them and
/// not before. An indexed read pays one cycle when the index carries into
/// the high byte of the address; a branch pays one when it is taken, and one
/// more when its target lies in another page.
pub proof fn lemma_instruction_timing(state: M6502, opcode: u8, bus: Seq<u8>)
    requires
        decoded(opcode) is Some,
    ensures
        ({
            let instr = decoded(opcode).unwrap();
            let taken = instr.op.branches(state);
            let count = cycle_count(instr, page_crossed(instr, state, bus), taken);
            2 <= count <= 7 && completes_after(CycleTicker::begun(state, opcode), bus, count - 1)
        }),
{
    let instr = decoded(opcode).unwrap();
    let t = CycleTicker::begun(state, opcode);
    let left = cycles_left(t, instr, bus, 0);
    assert(instr.encoding() is Some);
    let taken = instr.op.branches(state);
    assert(left == cycle_count(instr, page_crossed(instr, state, bus), taken) - 1);
    assert(1 <= left <= 6);
    lemma_countdown(t, instr, bus, (left - 1) as nat);
    lemma_step(run(t, bus, (left - 1) as nat).0, instr, bus, left - 1);
    assert forall|k: nat| k < left implies !(#[trigger] run(t, bus, k)).1 by {
        lemma_countdown(t, instr, bus, k);
    }
}

/// Taking a hardware interrupt takes seven clock cycles, as BRK does:
/// begun in `state` after the cycle in which the chip would have fetched an
/// opcode, the sequence completes with the sixth cycle and not before.
pub proof fn lemma_interrupt_timing(state: M6502, interrupt: Interrupt, bus: Seq<u8>)
    ensures
        completes_after(CycleTicker::interrupted(state, interrupt), bus, 6),
{
    let instr = Instruction { op: Operation::Brk, mode: Mode::Implied };
    lemma_decoded_encoding(instr);
    let t = CycleTicker::interrupted(state, interrupt);
    lemma_countdown(t, instr, bus, 5);
    lemma_step(run(t, bus, 5).0, instr, bus, 5);
    assert forall|k: nat| k < 6 implies !(#[trigger] run(t, bus, k)).1 by {
        lemma_countdown(t, instr, bus, k);
    }
}

/// An absolute,X-indexed read whose address leaves the page of its base
/// takes one clock cycle more than the same opcode takes when it stays: five
/// cycles, and four.
pub proof fn lemma_page_crossing_penalty(state: M6502, opcode: u8, bus: Seq<u8>)
    requires
        decoded(opcode) matches Some(instr) && instr.mode is AbsoluteX && instr.op.kind() is Read,
    ensures
        completes_after(
            CycleTicker::begun(state, opcode),
            bus,
            if bus[0] + state.x > 0xff {
                4
            } else {
                3
            },
        ),
{
    lemma_instruction_timing(state, opcode, bus);
}

/// A branch whose condition is false takes its two base cycles. The same
/// branch taken takes three, and four when its target is in another page
/// than the instruction that follows the branch.
pub proof fn lemma_branch_timing(state: M6502, opcode: u8, bus: Seq<u8>)
    requires
        decoded(opcode) matches Some(instr) && instr.mode is Relative,
    ensures
        ({
            let instr = decoded(opcode).unwrap();
            let next = state.pc.wrapping_add(1);
            completes_after(
                CycleTicker::begun(state, opcode),
                bus,
                if !instr.op.branches(state) {
                    1
                } else if high(branch_target(next, bus[0])) == high(next) {
                    2
                } else {
                    3
                },
            )
        }),
{
    lemma_instruction_timing(state, opcode, bus);
}

} // verus!
