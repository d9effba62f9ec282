//! Where every addressing mode finds its byte in memory.

use super::instruction::{decoded, Instruction, Mode};
use super::m6502::M6502;
use super::m6502_driver::{low, word, Access, CycleTicker};
use super::timing::{cycle_count, cycles_left, lemma_countdown, operand_cycles, page_crossed, run};
use vstd::prelude::*;

verus! {

/// The address `index` bytes after `base`, modulo 65536.
pub open spec fn indexed(base: u16, index: u8) -> u16 {
    base.wrapping_add(index as u16)
}

/// The address in page zero `index` bytes after `base`, modulo 256.
pub open spec fn indexed_in_page_zero(base: u8, index: u8) -> u16 {
    base.wrapping_add(index) as u16
}

/// Whether an instruction works on a byte in memory that its addressing mode
/// finds.
pub open spec fn finds_operand(instr: Instruction) -> bool {
    &&& !(instr.op is Jmp || instr.op is Jsr)
    &&& (instr.mode is ZeroPage || instr.mode is ZeroPageX || instr.mode is ZeroPageY
        || instr.mode is Absolute || instr.mode is AbsoluteX || instr.mode is AbsoluteY
        || instr.mode is IndexedIndirect || instr.mode is IndirectIndexed)
}

/// The address of the byte that an instruction with the addressing mode
/// `mode` works on, when it begins in `state` and `bus` are the bytes on the
/// data bus from its second cycle on: first the bytes of its operand, then
/// the bytes that it reads on the way to the address.
pub open spec fn effective_address(mode: Mode, state: M6502, bus: Seq<u8>) -> u16 {
    match mode {
        Mode::ZeroPage => bus[0] as u16,
        Mode::ZeroPageX => indexed_in_page_zero(bus[0], state.x),
        Mode::ZeroPageY => indexed_in_page_zero(bus[0], state.y),
        Mode::Absolute => word(bus[1], bus[0]),
        Mode::AbsoluteX => indexed(word(bus[1], bus[0]), state.x),
        Mode::AbsoluteY => indexed(word(bus[1], bus[0]), state.y),
        Mode::IndexedIndirect => word(bus[3], bus[2]),
        Mode::IndirectIndexed => indexed(word(bus[2], bus[1]), state.y),
        _ => 0,
    }
}

/// The address that the instruction in flight works on, as the ticker knows
/// it in its current cycle, with `bus[at]` the byte on the data bus in the
/// coming cycle: put together from the bytes still to come, from the
/// latches, or latched already.
pub open spec fn address_in_flight(t: CycleTicker, mode: Mode, bus: Seq<u8>, at: int) -> u16 {
    let c = t.cycle.index();
    let index = mode.index(t.state);
    match mode {
        Mode::ZeroPage => if c <= 2 {
            bus[at] as u16
        } else {
            t.addr
        },
        Mode::ZeroPageX | Mode::ZeroPageY => if c <= 2 {
            indexed_in_page_zero(bus[at], index)
        } else if c == 3 {
            indexed_in_page_zero(low(t.addr), index)
        } else {
            t.addr
        },
        Mode::Absolute => if c <= 2 {
            word(bus[at + 1], bus[at])
        } else if c == 3 {
            word(bus[at], low(t.addr))
        } else {
            t.addr
        },
        Mode::AbsoluteX | Mode::AbsoluteY => if c <= 2 {
            indexed(word(bus[at + 1], bus[at]), index)
        } else if c == 3 {
            indexed(word(bus[at], low(t.addr)), index)
        } else if c == 4 && t.crossed {
            t.addr.wrapping_add(0x100)
        } else {
            t.addr
        },
        Mode::IndexedIndirect => if c <= 2 {
            word(bus[at + 3], bus[at + 2])
        } else if c == 3 {
            word(bus[at + 2], bus[at + 1])
        } else if c == 4 {
            word(bus[at + 1], bus[at])
        } else if c == 5 {
            word(bus[at], low(t.addr))
        } else {
            t.addr
        },
        Mode::IndirectIndexed => if c <= 2 {
            indexed(word(bus[at + 2], bus[at + 1]), index)
        } else if c == 3 {
            indexed(word(bus[at + 1], bus[at]), index)
        } else if c == 4 {
            indexed(word(bus[at], low(t.addr)), index)
        } else if c == 5 && t.crossed {
            t.addr.wrapping_add(0x100)
        } else {
            t.addr
        },
        _ => 0,
    }
}

/// The address of an access.
pub open spec fn address_of(access: Access) -> u16 {
    match access {
        Access::Read(addr) => addr,
        Access::Write(addr, _) => addr,
    }
}

/// Adding an index to an address carries into the high byte exactly when
/// the sum of the low byte and the index passes `0xFF`; the address is then
/// one page above the one with the low byte of the sum.
proof fn lemma_index_carry(high_byte: u8, low_byte: u8, index: u8)
    ensures
        indexed(word(high_byte, low_byte), index) == if low_byte + index > 0xff {
            word(high_byte, low_byte.wrapping_add(index)).wrapping_add(0x100)
        } else {
            word(high_byte, low_byte.wrapping_add(index))
        },
{
}

/// Whether the coming clock cycle leaves the address that the instruction
/// works on as it is.
pub open spec fn address_kept(t: CycleTicker, instr: Instruction, bus: Seq<u8>, at: int) -> bool {
    address_in_flight(t.advance(bus[at]).0, instr.mode, bus, at + 1) == address_in_flight(
        t,
        instr.mode,
        bus,
        at,
    )
}

/// A cycle of an instruction on a byte in page zero keeps its address.
#[verifier::rlimit(40)]
proof fn lemma_address_step_zero_page(t: CycleTicker, instr: Instruction, bus: Seq<u8>, at: int)
    requires
        decoded(t.op) == Some(instr),
        finds_operand(instr),
        t.cycle.index() >= 2,
        cycles_left(t, instr, bus, at) >= 2,
        instr.mode is ZeroPage,
    ensures
        address_kept(t, instr, bus, at),
{
    let next = t.advance(bus[at]).0;
    assert(next.addr == t.addr || t.cycle.index() <= 3);
}

/// A cycle of an instruction on an indexed byte in page zero keeps its
/// address.
#[verifier::rlimit(40)]
proof fn lemma_address_step_zero_page_indexed(
    t: CycleTicker,
    instr: Instruction,
    bus: Seq<u8>,
    at: int,
)
    requires
        decoded(t.op) == Some(instr),
        finds_operand(instr),
        t.cycle.index() >= 2,
        cycles_left(t, instr, bus, at) >= 2,
        instr.mode is ZeroPageX || instr.mode is ZeroPageY,
    ensures
        address_kept(t, instr, bus, at),
{
    let next = t.advance(bus[at]).0;
    assert(low(bus[at] as u16) == bus[at]);
    assert(next.addr == t.addr || t.cycle.index() <= 3);
}

/// A cycle of an instruction on a byte at an absolute address keeps its
/// address.
#[verifier::rlimit(40)]
proof fn lemma_address_step_absolute(t: CycleTicker, instr: Instruction, bus: Seq<u8>, at: int)
    requires
        decoded(t.op) == Some(instr),
        finds_operand(instr),
        t.cycle.index() >= 2,
        cycles_left(t, instr, bus, at) >= 2,
        instr.mode is Absolute,
    ensures
        address_kept(t, instr, bus, at),
{
    let next = t.advance(bus[at]).0;
    assert(next.addr == t.addr || t.cycle.index() <= 3);
}

/// A cycle of an instruction on a byte at an indexed absolute address keeps
/// its address.
#[verifier::rlimit(40)]
proof fn lemma_address_step_absolute_indexed(
    t: CycleTicker,
    instr: Instruction,
    bus: Seq<u8>,
    at: int,
)
    requires
        decoded(t.op) == Some(instr),
        finds_operand(instr),
        t.cycle.index() >= 2,
        cycles_left(t, instr, bus, at) >= 2,
        instr.mode is AbsoluteX || instr.mode is AbsoluteY,
    ensures
        address_kept(t, instr, bus, at),
{
    if t.cycle.index() == 3 {
        lemma_index_carry(bus[at], low(t.addr), instr.mode.index(t.state));
    }
}

/// A cycle of an instruction on a byte whose address is stored in page zero
/// at the operand plus X keeps its address.
#[verifier::rlimit(40)]
proof fn lemma_address_step_indexed_indirect(
    t: CycleTicker,
    instr: Instruction,
    bus: Seq<u8>,
    at: int,
)
    requires
        decoded(t.op) == Some(instr),
        finds_operand(instr),
        t.cycle.index() >= 2,
        cycles_left(t, instr, bus, at) >= 2,
        instr.mode is IndexedIndirect,
    ensures
        address_kept(t, instr, bus, at),
{
}

/// A cycle of an instruction on a byte at the address stored in page zero,
/// plus Y, keeps its address.
#[verifier::rlimit(40)]
proof fn lemma_address_step_indirect_indexed(
    t: CycleTicker,
    instr: Instruction,
    bus: Seq<u8>,
    at: int,
)
    requires
        decoded(t.op) == Some(instr),
        finds_operand(instr),
        t.cycle.index() >= 2,
        cycles_left(t, instr, bus, at) >= 2,
        instr.mode is IndirectIndexed,
    ensures
        address_kept(t, instr, bus, at),
{
    if t.cycle.index() == 4 {
        lemma_index_carry(bus[at], low(t.addr), t.state.y);
    }
}

/// A clock cycle that does not complete the instruction does not change the
/// address that the instruction works on.
proof fn lemma_address_step(t: CycleTicker, instr: Instruction, bus: Seq<u8>, at: int)
    requires
        decoded(t.op) == Some(instr),
        finds_operand(instr),
        t.cycle.index() >= 2,
        cycles_left(t, instr, bus, at) >= 2,
    ensures
        address_kept(t, instr, bus, at),
{
    match instr.mode {
        Mode::AbsoluteX | Mode::AbsoluteY => lemma_address_step_absolute_indexed(t, instr, bus, at),
        Mode::IndexedIndirect => lemma_address_step_indexed_indirect(t, instr, bus, at),
        Mode::IndirectIndexed => lemma_address_step_indirect_indexed(t, instr, bus, at),
        Mode::ZeroPageX | Mode::ZeroPageY => {
            lemma_address_step_zero_page_indexed(t, instr, bus, at)
        },
        Mode::Absolute => lemma_address_step_absolute(t, instr, bus, at),
        _ => lemma_address_step_zero_page(t, instr, bus, at),
    }
}

/// In its last cycles, as many as it needs to deal with its byte in memory,
/// an instruction accesses the address that it works on.
#[verifier::rlimit(40)]
proof fn lemma_operand_access(t: CycleTicker, instr: Instruction, bus: Seq<u8>, at: int)
    requires
        decoded(t.op) == Some(instr),
        finds_operand(instr),
        t.cycle.index() >= 2,
        1 <= cycles_left(t, instr, bus, at) <= operand_cycles(instr.op.kind()),
    ensures
        address_of(t.access()) == address_in_flight(t, instr.mode, bus, at),
{
}

/// As long as the instruction is in flight, the address that it works on
/// is the one that it set out for.
proof fn lemma_address_countdown(t: CycleTicker, instr: Instruction, bus: Seq<u8>, k: nat)
    requires
        decoded(t.op) == Some(instr),
        finds_operand(instr),
        t.cycle.index() >= 2,
        k < cycles_left(t, instr, bus, 0),
    ensures
        address_in_flight(run(t, bus, k).0, instr.mode, bus, k as int) == address_in_flight(
            t,
            instr.mode,
            bus,
            0,
        ),
    decreases k,
{
    if k > 0 {
        let before = (k - 1) as nat;
        lemma_address_countdown(t, instr, bus, before);
        lemma_countdown(t, instr, bus, before);
        lemma_address_step(run(t, bus, before).0, instr, bus, before as int);
    }
}

/// An instruction deals with its byte in memory at the address that its
/// addressing mode defines. In its last cycles, one for a read or a store
/// and three for a modification, every access goes to that address: the
/// operand in page zero, the absolute operand, either of them with the index
/// added, or the address that the operand points to in page zero.
pub proof fn lemma_operand_at_effective_address(state: M6502, opcode: u8, bus: Seq<u8>, k: nat)
    requires
        decoded(opcode) matches Some(instr) && finds_operand(instr),
        ({
            let instr = decoded(opcode).unwrap();
            let count = cycle_count(instr, page_crossed(instr, state, bus), false);
            count - 1 - operand_cycles(instr.op.kind()) <= k < count - 1
        }),
    ensures
        address_of(run(CycleTicker::begun(state, opcode), bus, k).0.access()) == effective_address(
            decoded(opcode).unwrap().mode,
            state,
            bus,
        ),
{
    let instr = decoded(opcode).unwrap();
    let t = CycleTicker::begun(state, opcode);
    lemma_countdown(t, instr, bus, k);
    lemma_address_countdown(t, instr, bus, k);
    lemma_operand_access(run(t, bus, k).0, instr, bus, k as int);
}

} // verus!
