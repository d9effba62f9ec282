//! What the instructions that jump, branch and use the stack do over all
//! their cycles.

use super::instruction::{decoded, lemma_decoded_encoding, Instruction, Mode, Operation};
use super::m6502::M6502;
use super::m6502_driver::{
    branch_target, high, low, stack_address, word, Access, CycleTicker, Interrupt, BREAK_VECTOR,
    NMI_VECTOR,
};
use super::timing::{cycle_count, page_crossed, run};
use vstd::prelude::*;

verus! {

/// The state `state` after `count` bytes were pushed: the stack pointer is
/// `count` lower, modulo 256.
pub open spec fn after_pushes(state: M6502, count: u8) -> M6502 {
    M6502 { sp: state.sp.wrapping_sub(count), ..state }
}

/// The state `state` after `count` bytes were pulled: the stack pointer is
/// `count` higher, modulo 256.
pub open spec fn after_pulls(state: M6502, count: u8) -> M6502 {
    M6502 { sp: state.sp.wrapping_add(count), ..state }
}

/// The address in page one to which the push goes that follows `count`
/// pushes from `state`.
pub open spec fn push_slot(state: M6502, count: u8) -> u16 {
    stack_address(state.sp.wrapping_sub(count))
}

/// The address in page one from which the `count`-th pull from `state`
/// comes.
pub open spec fn pull_slot(state: M6502, count: u8) -> u16 {
    stack_address(state.sp.wrapping_add(count))
}

/// JMP with an absolute operand loads the program counter from the
/// operand, in three cycles.
pub proof fn lemma_jump_instruction(state: M6502, bus: Seq<u8>)
    ensures
        run(CycleTicker::begun(state, 0x4c), bus, 2) == CycleTicker::begun(state, 0x4c).completed(
            M6502 { pc: word(bus[1], bus[0]), ..state },
        ),
{
    lemma_decoded_encoding(Instruction { op: Operation::Jmp, mode: Mode::Absolute });
    let t = CycleTicker::begun(state, 0x4c);
    let t1 = t.advance(bus[0]).0;
    assert(t1.cycle is Cycle3 && t1.op == t.op);
    assert(run(t, bus, 0).0 == t);
    assert(run(t, bus, 1).0 == t1);
}

/// JMP with an indirect operand loads the program counter from the two
/// bytes that the operand points to, in five cycles. The second of them is
/// the next byte in the page of the first: after byte `0xFF` of a page comes
/// its byte `0x00`.
#[verifier::rlimit(40)]
pub proof fn lemma_jump_indirect_instruction(state: M6502, bus: Seq<u8>)
    ensures
        ({
            let t = CycleTicker::begun(state, 0x6c);
            let pointer = word(bus[1], bus[0]);
            &&& run(t, bus, 2).0.access() == Access::Read(pointer)
            &&& run(t, bus, 3).0.access() == Access::Read(
                word(high(pointer), low(pointer).wrapping_add(1)),
            )
            &&& run(t, bus, 4) == t.completed(M6502 { pc: word(bus[3], bus[2]), ..state })
        }),
{
    lemma_decoded_encoding(Instruction { op: Operation::Jmp, mode: Mode::Indirect });
    let t = CycleTicker::begun(state, 0x6c);
    let t1 = t.advance(bus[0]).0;
    assert(t1.cycle is Cycle3 && t1.op == t.op);
    let t2 = t1.advance(bus[1]).0;
    assert(t2.cycle is Cycle4 && t2.op == t.op);
    let t3 = t2.advance(bus[2]).0;
    assert(t3.cycle is Cycle5 && t3.op == t.op);
    assert(run(t, bus, 0).0 == t);
    assert(run(t, bus, 1).0 == t1);
    assert(run(t, bus, 2).0 == t2);
    assert(run(t, bus, 3).0 == t3);
}

/// JSR pushes the address of its own last byte, high byte first, and jumps
/// to the address in its operand, in six cycles: the address that RTS will
/// come back to, less one, lies on the stack.
#[verifier::rlimit(40)]
pub proof fn lemma_jsr_instruction(state: M6502, bus: Seq<u8>)
    ensures
        ({
            let t = CycleTicker::begun(state, 0x20);
            let last_byte = state.pc.wrapping_add(1);
            &&& run(t, bus, 2).0.access() == Access::Write(push_slot(state, 0), high(last_byte))
            &&& run(t, bus, 3).0.access() == Access::Write(push_slot(state, 1), low(last_byte))
            &&& run(t, bus, 5) == t.completed(
                M6502 { pc: word(bus[4], bus[0]), ..after_pushes(state, 2) },
            )
        }),
{
    lemma_decoded_encoding(Instruction { op: Operation::Jsr, mode: Mode::Absolute });
    let t = CycleTicker::begun(state, 0x20);
    let t1 = t.advance(bus[0]).0;
    assert(t1.cycle is Cycle3 && t1.op == t.op);
    let t2 = t1.advance(bus[1]).0;
    assert(t2.cycle is Cycle4 && t2.op == t.op);
    let t3 = t2.advance(bus[2]).0;
    assert(t3.cycle is Cycle5 && t3.op == t.op);
    let t4 = t3.advance(bus[3]).0;
    assert(t4.cycle is Cycle6 && t4.op == t.op);
    assert(run(t, bus, 0).0 == t);
    assert(run(t, bus, 1).0 == t1);
    assert(run(t, bus, 2).0 == t2);
    assert(run(t, bus, 3).0 == t3);
    assert(run(t, bus, 4).0 == t4);
}

/// RTS pulls the program counter, low byte first, and goes on behind the
/// byte that it addresses, in six cycles: it undoes what JSR did.
#[verifier::rlimit(40)]
pub proof fn lemma_rts_instruction(state: M6502, bus: Seq<u8>)
    ensures
        ({
            let t = CycleTicker::begun(state, 0x60);
            &&& run(t, bus, 2).0.access() == Access::Read(pull_slot(state, 1))
            &&& run(t, bus, 3).0.access() == Access::Read(pull_slot(state, 2))
            &&& run(t, bus, 5) == t.completed(
                M6502 { pc: word(bus[3], bus[2]).wrapping_add(1), ..after_pulls(state, 2) },
            )
        }),
{
    lemma_decoded_encoding(Instruction { op: Operation::Rts, mode: Mode::Implied });
    let t = CycleTicker::begun(state, 0x60);
    let t1 = t.advance(bus[0]).0;
    assert(t1.cycle is Cycle3 && t1.op == t.op);
    let t2 = t1.advance(bus[1]).0;
    assert(t2.cycle is Cycle4 && t2.op == t.op);
    let t3 = t2.advance(bus[2]).0;
    assert(t3.cycle is Cycle5 && t3.op == t.op);
    let t4 = t3.advance(bus[3]).0;
    assert(t4.cycle is Cycle6 && t4.op == t.op);
    assert(run(t, bus, 0).0 == t);
    assert(run(t, bus, 1).0 == t1);
    assert(run(t, bus, 2).0 == t2);
    assert(run(t, bus, 3).0 == t3);
    assert(run(t, bus, 4).0 == t4);
}

/// RTI pulls the flags, then the program counter, low byte first, in six
/// cycles: it undoes the pushes of BRK or of a hardware interrupt. Of the
/// byte pulled for the flags, the break bit and the unused bit are dropped.
#[verifier::rlimit(100)]
pub proof fn lemma_rti_instruction(state: M6502, bus: Seq<u8>)
    ensures
        ({
            let t = CycleTicker::begun(state, 0x40);
            &&& run(t, bus, 2).0.access() == Access::Read(pull_slot(state, 1))
            &&& run(t, bus, 3).0.access() == Access::Read(pull_slot(state, 2))
            &&& run(t, bus, 4).0.access() == Access::Read(pull_slot(state, 3))
            &&& run(t, bus, 5) == t.completed(
                M6502 { pc: word(bus[4], bus[3]), ..after_pulls(state, 3) }.with_status(bus[2]),
            )
        }),
{
    lemma_decoded_encoding(Instruction { op: Operation::Rti, mode: Mode::Implied });
    let t = CycleTicker::begun(state, 0x40);
    let t1 = t.advance(bus[0]).0;
    assert(t1.cycle is Cycle3 && t1.op == t.op);
    let t2 = t1.advance(bus[1]).0;
    assert(t2.cycle is Cycle4 && t2.op == t.op);
    assert(t2.state == after_pulls(state, 1));
    let t3 = t2.advance(bus[2]).0;
    assert(t3.cycle is Cycle5 && t3.op == t.op);
    assert(t3.state == after_pulls(state, 2).with_status(bus[2]));
    let t4 = t3.advance(bus[3]).0;
    assert(t4.cycle is Cycle6 && t4.op == t.op);
    assert(t4.state == after_pulls(state, 3).with_status(bus[2]));
    assert(t4.addr == bus[3]);
    assert(run(t, bus, 0).0 == t);
    assert(run(t, bus, 1).0 == t1);
    assert(run(t, bus, 2).0 == t2);
    assert(run(t, bus, 3).0 == t3);
    assert(run(t, bus, 4).0 == t4);
}

/// What BRK and the hardware interrupts have in common, in the six cycles
/// after the first: the program counter `pushed` goes to the stack, high
/// byte first, then the flags with the break bit as `brk` says; interrupts
/// are disabled; and the program counter is loaded from the vector at
/// `vector`.
pub open spec fn interrupt_sequence(
    t: CycleTicker,
    state: M6502,
    bus: Seq<u8>,
    pushed: u16,
    brk: bool,
    vector: u16,
) -> bool {
    &&& run(t, bus, 1).0.access() == Access::Write(push_slot(state, 0), high(pushed))
    &&& run(t, bus, 2).0.access() == Access::Write(push_slot(state, 1), low(pushed))
    &&& run(t, bus, 3).0.access() == Access::Write(push_slot(state, 2), state.status_byte(brk))
    &&& run(t, bus, 4).0.access() == Access::Read(vector)
    &&& run(t, bus, 5).0.access() == Access::Read((vector + 1) as u16)
    &&& run(t, bus, 6) == t.completed(
        M6502 { pc: word(bus[5], bus[4]), ..after_pushes(state, 3) }.with_flag(M6502::FLAG_I, true),
    )
}

/// The six cycles after the first of BRK or of a hardware interrupt.
#[verifier::rlimit(40)]
proof fn lemma_interrupt_sequence(t: CycleTicker, bus: Seq<u8>)
    requires
        t.cycle is Cycle2,
        t.op == 0x00,
    ensures
        interrupt_sequence(
            t,
            t.state,
            bus,
            if t.interrupt is None {
                t.state.pc.wrapping_add(1)
            } else {
                t.state.pc
            },
            t.interrupt is None,
            t.vector(),
        ),
{
    lemma_decoded_encoding(Instruction { op: Operation::Brk, mode: Mode::Implied });
    let t1 = t.advance(bus[0]).0;
    assert(t1.cycle is Cycle3 && t1.op == t.op && t1.interrupt == t.interrupt);
    let t2 = t1.advance(bus[1]).0;
    assert(t2.cycle is Cycle4 && t2.op == t.op && t2.interrupt == t.interrupt);
    let t3 = t2.advance(bus[2]).0;
    assert(t3.cycle is Cycle5 && t3.op == t.op && t3.interrupt == t.interrupt);
    let t4 = t3.advance(bus[3]).0;
    assert(t4.cycle is Cycle6 && t4.op == t.op && t4.interrupt == t.interrupt);
    let t5 = t4.advance(bus[4]).0;
    assert(t5.cycle is Cycle7 && t5.op == t.op && t5.interrupt == t.interrupt);
    assert(run(t, bus, 0).0 == t);
    assert(run(t, bus, 1).0 == t1);
    assert(run(t, bus, 2).0 == t2);
    assert(run(t, bus, 3).0 == t3);
    assert(run(t, bus, 4).0 == t4);
    assert(run(t, bus, 5).0 == t5);
}

/// BRK pushes the address behind its padding byte, high byte first, then the
/// flags with the break bit set, disables interrupts and loads the program
/// counter from the vector at `0xFFFE`, in seven cycles.
pub proof fn lemma_brk_instruction(state: M6502, bus: Seq<u8>)
    ensures
        interrupt_sequence(
            CycleTicker::begun(state, 0x00),
            state,
            bus,
            state.pc.wrapping_add(1),
            true,
            BREAK_VECTOR,
        ),
{
    lemma_interrupt_sequence(CycleTicker::begun(state, 0x00), bus);
}

/// A hardware interrupt pushes the program counter as it is, high byte
/// first, then the flags with the break bit clear, disables interrupts and
/// loads the program counter from its vector, in seven cycles: `0xFFFE` for
/// the interrupt request, `0xFFFA` for the interrupt that cannot be
/// disabled.
pub proof fn lemma_hardware_interrupt(state: M6502, interrupt: Interrupt, bus: Seq<u8>)
    ensures
        interrupt_sequence(
            CycleTicker::interrupted(state, interrupt),
            state,
            bus,
            state.pc,
            false,
            match interrupt {
                Interrupt::Irq => BREAK_VECTOR,
                Interrupt::Nmi => NMI_VECTOR,
            },
        ),
{
    lemma_interrupt_sequence(CycleTicker::interrupted(state, interrupt), bus);
}

/// PHA and PHP push the accumulator, or the flags with the break bit set,
/// and lower the stack pointer, in three cycles.
pub proof fn lemma_push_instruction(state: M6502, op: Operation, bus: Seq<u8>)
    requires
        op is Pha || op is Php,
    ensures
        ({
            let instr = Instruction { op, mode: Mode::Implied };
            let t = CycleTicker::begun(state, instr.encoding().unwrap());
            &&& run(t, bus, 1).0.access() == Access::Write(
                push_slot(state, 0),
                if op is Pha {
                    state.a
                } else {
                    state.status_byte(true)
                },
            )
            &&& run(t, bus, 2) == t.completed(after_pushes(state, 1))
        }),
{
    let instr = Instruction { op, mode: Mode::Implied };
    lemma_decoded_encoding(instr);
    let t = CycleTicker::begun(state, instr.encoding().unwrap());
    let t1 = t.advance(bus[0]).0;
    assert(t1.cycle is Cycle3 && t1.op == t.op);
    assert(run(t, bus, 0).0 == t);
    assert(run(t, bus, 1).0 == t1);
}

/// PLA and PLP raise the stack pointer and pull the accumulator, or the six
/// flags, from the stack, in four cycles.
#[verifier::rlimit(40)]
pub proof fn lemma_pull_instruction(state: M6502, op: Operation, bus: Seq<u8>)
    requires
        op is Pla || op is Plp,
    ensures
        ({
            let instr = Instruction { op, mode: Mode::Implied };
            let t = CycleTicker::begun(state, instr.encoding().unwrap());
            &&& run(t, bus, 2).0.access() == Access::Read(pull_slot(state, 1))
            &&& run(t, bus, 3) == t.completed(
                if op is Pla {
                    after_pulls(state, 1).after_lda(bus[2])
                } else {
                    after_pulls(state, 1).with_status(bus[2])
                },
            )
        }),
{
    let instr = Instruction { op, mode: Mode::Implied };
    lemma_decoded_encoding(instr);
    let t = CycleTicker::begun(state, instr.encoding().unwrap());
    let t1 = t.advance(bus[0]).0;
    assert(t1.cycle is Cycle3 && t1.op == t.op);
    let t2 = t1.advance(bus[1]).0;
    assert(t2.cycle is Cycle4 && t2.op == t.op);
    assert(run(t, bus, 0).0 == t);
    assert(run(t, bus, 1).0 == t1);
    assert(run(t, bus, 2).0 == t2);
}

/// A branch changes the program counter and nothing else. Not taken, it
/// goes on with the next instruction; taken, with the instruction at the
/// offset in its operand from there.
#[verifier::rlimit(40)]
pub proof fn lemma_branch_instruction(state: M6502, opcode: u8, bus: Seq<u8>)
    requires
        decoded(opcode) matches Some(instr) && instr.mode is Relative,
    ensures
        ({
            let instr = decoded(opcode).unwrap();
            let t = CycleTicker::begun(state, opcode);
            let taken = instr.op.branches(state);
            let ticks = cycle_count(instr, page_crossed(instr, state, bus), taken) - 1;
            let next = state.pc.wrapping_add(1);
            run(t, bus, ticks as nat) == t.completed(
                M6502 {
                    pc: if instr.op.branches(state) {
                        branch_target(next, bus[0])
                    } else {
                        next
                    },
                    ..state
                },
            )
        }),
{
    let t = CycleTicker::begun(state, opcode);
    let t1 = t.advance(bus[0]).0;
    let t2 = t1.advance(bus[1]).0;
    assert(run(t, bus, 0).0 == t);
    assert(run(t, bus, 1).0 == t1);
    assert(run(t, bus, 2).0 == t2);
    assert(run(t, bus, 3) == t2.advance(bus[2]));
}

/// An instruction that works on registers and flags alone does in its two
/// cycles what its operation says, and does not move the program counter.
pub proof fn lemma_register_instruction(state: M6502, opcode: u8, bus: Seq<u8>)
    requires
        decoded(opcode) matches Some(instr) && (instr.mode is Implied || instr.mode is Accumulator)
            && !(instr.op is Brk || instr.op is Rti || instr.op is Rts || instr.op is Pha
            || instr.op is Php || instr.op is Pla || instr.op is Plp),
    ensures
        ({
            let t = CycleTicker::begun(state, opcode);
            &&& t.access() == Access::Read(state.pc)
            &&& run(t, bus, 1) == t.completed(decoded(opcode).unwrap().op.acts(state))
        }),
{
    let t = CycleTicker::begun(state, opcode);
    assert(run(t, bus, 0).0 == t);
}

/// An instruction with an immediate operand does in its two cycles what its
/// operation says of the byte that follows the opcode, and moves the
/// program counter over that byte.
pub proof fn lemma_immediate_instruction(state: M6502, opcode: u8, bus: Seq<u8>)
    requires
        decoded(opcode) matches Some(instr) && instr.mode is Immediate,
    ensures
        ({
            let t = CycleTicker::begun(state, opcode);
            &&& t.access() == Access::Read(state.pc)
            &&& run(t, bus, 1) == t.completed(
                decoded(opcode).unwrap().op.reads(
                    M6502 { pc: state.pc.wrapping_add(1), ..state },
                    bus[0],
                ),
            )
        }),
{
    let t = CycleTicker::begun(state, opcode);
    assert(run(t, bus, 0).0 == t);
}

} // verus!
