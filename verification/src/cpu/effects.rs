//! What no clock cycle of the engine does, and what single cycles of some
//! instructions do to registers and flags.

use super::alu::{binary_add, binary_sub, decimal_add, decimal_sub, low_byte, Arith};
use super::instruction::{decoded, lemma_decoded_encoding, Instruction, Mode, Operation};
use super::m6502::{flag_on, flag_put, M6502};
use super::m6502_driver::{high, Access, CycleTicker, STACK_PAGE};
use vstd::prelude::*;

verus! {

/// After the zero and the negative flag are written, both read as written
/// and the other six bits of the register are as before.
proof fn lemma_nz_flags(flags: u8, zero: bool, negative: bool)
    by (bit_vector)
    ensures
        flag_on(flag_put(flag_put(flags, 0x02, zero), 0x80, negative), 0x02) == zero,
        flag_on(flag_put(flag_put(flags, 0x02, zero), 0x80, negative), 0x80) == negative,
        flag_put(flag_put(flags, 0x02, zero), 0x80, negative) & 0x7d == flags & 0x7d,
{
}

/// After the carry, the zero and the negative flag are written, the three
/// read as written and the other five bits of the register are as before.
proof fn lemma_czn_flags(flags: u8, carry: bool, zero: bool, negative: bool)
    by (bit_vector)
    ensures
        flag_on(flag_put(flag_put(flag_put(flags, 0x01, carry), 0x02, zero), 0x80, negative), 0x01)
            == carry,
        flag_on(flag_put(flag_put(flag_put(flags, 0x01, carry), 0x02, zero), 0x80, negative), 0x02)
            == zero,
        flag_on(flag_put(flag_put(flag_put(flags, 0x01, carry), 0x02, zero), 0x80, negative), 0x80)
            == negative,
        flag_put(flag_put(flag_put(flags, 0x01, carry), 0x02, zero), 0x80, negative) & 0x7c == flags
            & 0x7c,
{
}

/// Writing one of the six flags leaves bits 4 and 5 of the register alone.
proof fn lemma_flag_put_keeps_unused_bits()
    by (bit_vector)
    ensures
        forall|flags: u8, status: bool| #[trigger] flag_put(flags, 0x80, status) & 0x30 == flags & 0x30,
        forall|flags: u8, status: bool| #[trigger] flag_put(flags, 0x40, status) & 0x30 == flags & 0x30,
        forall|flags: u8, status: bool| #[trigger] flag_put(flags, 0x08, status) & 0x30 == flags & 0x30,
        forall|flags: u8, status: bool| #[trigger] flag_put(flags, 0x04, status) & 0x30 == flags & 0x30,
        forall|flags: u8, status: bool| #[trigger] flag_put(flags, 0x02, status) & 0x30 == flags & 0x30,
        forall|flags: u8, status: bool| #[trigger] flag_put(flags, 0x01, status) & 0x30 == flags & 0x30,
        forall|flags: u8, value: u8| #[trigger] ((flags & 0x30) | (value & 0xcf)) & 0x30 == flags & 0x30,
{
}

/// Telling zero and negative of a value changes neither bit 4 nor bit 5 of
/// the flags register, also after one of the six flags was written.
proof fn lemma_nz_keeps_unused_bits(s: M6502, value: u8)
    ensures
        s.with_nz(value).flags & 0x30 == s.flags & 0x30,
        forall|mask: u8, status: bool|
            mask == 0x80 || mask == 0x40 || mask == 0x08 || mask == 0x04 || mask == 0x02 || mask
                == 0x01 ==> {
                &&& (#[trigger] s.with_flag(mask, status)).flags & 0x30 == s.flags & 0x30
                &&& s.with_flag(mask, status).with_nz(value).flags & 0x30 == s.flags & 0x30
            },
{
    lemma_flag_put_keeps_unused_bits();
}

/// Handing over the result of an addition or subtraction changes neither
/// bit 4 nor bit 5 of the flags register.
proof fn lemma_arith_keeps_unused_bits(s: M6502, r: Arith)
    ensures
        s.with_arith(r).flags & 0x30 == s.flags & 0x30,
{
    lemma_flag_put_keeps_unused_bits();
}

/// Loading the six flags from a byte changes neither bit 4 nor bit 5 of the
/// flags register.
proof fn lemma_status_keeps_unused_bits(s: M6502, value: u8)
    ensures
        s.with_status(value).flags & 0x30 == s.flags & 0x30,
{
    lemma_flag_put_keeps_unused_bits();
}

/// No operation that reads a byte changes bit 4 or bit 5 of the flags
/// register.
proof fn lemma_reads_keep_unused_bits(op: Operation, s: M6502, m: u8)
    ensures
        op.reads(s, m).flags & 0x30 == s.flags & 0x30,
{
    match op {
        Operation::Adc => {
            lemma_arith_keeps_unused_bits(s, decimal_add(s.a, m, s.flag_c()));
            lemma_arith_keeps_unused_bits(s, binary_add(s.a, m, s.flag_c()));
        },
        Operation::Sbc => {
            lemma_arith_keeps_unused_bits(s, decimal_sub(s.a, m, s.flag_c()));
            lemma_arith_keeps_unused_bits(s, binary_sub(s.a, m, s.flag_c()));
        },
        Operation::Cmp => lemma_nz_keeps_unused_bits(s, low_byte(s.a - m)),
        Operation::Cpx => lemma_nz_keeps_unused_bits(s, low_byte(s.x - m)),
        Operation::Cpy => lemma_nz_keeps_unused_bits(s, low_byte(s.y - m)),
        Operation::Bit => lemma_flag_put_keeps_unused_bits(),
        Operation::And => lemma_nz_keeps_unused_bits(M6502 { a: s.a & m, ..s }, s.a & m),
        Operation::Ora => lemma_nz_keeps_unused_bits(M6502 { a: s.a | m, ..s }, s.a | m),
        Operation::Eor => lemma_nz_keeps_unused_bits(M6502 { a: s.a ^ m, ..s }, s.a ^ m),
        Operation::Lda => lemma_nz_keeps_unused_bits(M6502 { a: m, ..s }, m),
        Operation::Ldx => lemma_nz_keeps_unused_bits(M6502 { x: m, ..s }, m),
        Operation::Ldy => lemma_nz_keeps_unused_bits(M6502 { y: m, ..s }, m),
        _ => {},
    }
}

/// No operation that modifies a byte changes bit 4 or bit 5 of the flags
/// register.
proof fn lemma_modifies_keep_unused_bits(op: Operation, s: M6502, value: u8)
    ensures
        op.modifies(s, value).1.flags & 0x30 == s.flags & 0x30,
{
    lemma_nz_keeps_unused_bits(s, op.modifies(s, value).0);
}

/// No operation on the registers alone changes bit 4 or bit 5 of the flags
/// register.
proof fn lemma_acts_keep_unused_bits(op: Operation, s: M6502)
    ensures
        op.acts(s).flags & 0x30 == s.flags & 0x30,
{
    let after = op.acts(s);
    match op {
        Operation::Asl | Operation::Lsr | Operation::Rol | Operation::Ror => {
            lemma_modifies_keep_unused_bits(op, s, s.a);
        },
        Operation::Txa | Operation::Tya => {
            lemma_nz_keeps_unused_bits(M6502 { a: after.a, ..s }, after.a);
        },
        Operation::Dex | Operation::Inx | Operation::Tax | Operation::Tsx => {
            lemma_nz_keeps_unused_bits(M6502 { x: after.x, ..s }, after.x);
        },
        Operation::Dey | Operation::Iny | Operation::Tay => {
            lemma_nz_keeps_unused_bits(M6502 { y: after.y, ..s }, after.y);
        },
        _ => {
            lemma_nz_keeps_unused_bits(s, 0);
        },
    }
}

/// No clock cycle changes bit 4 or bit 5 of the flags register: the break
/// bit and the unused bit are no flags, and exist only in the byte that a
/// push puts on the stack.
pub proof fn lemma_unused_bits_stay(t: CycleTicker, data: u8)
    ensures
        t.advance(data).0.state.flags & 0x30 == t.state.flags & 0x30,
{
    if !(t.cycle is Cycle1) {
        if let Some(instr) = decoded(t.op) {
            let after = t.advance_in(instr, data).0.state;
            assert(after.flags & 0x30 == t.state.flags & 0x30) by {
                lemma_reads_keep_unused_bits(instr.op, t.state, data);
                lemma_reads_keep_unused_bits(instr.op, t.pc_next(), data);
                lemma_modifies_keep_unused_bits(instr.op, t.state, t.data);
                lemma_acts_keep_unused_bits(instr.op, t.state);
                lemma_status_keeps_unused_bits(t.pulled(), data);
                lemma_status_keeps_unused_bits(t.state, data);
                lemma_nz_keeps_unused_bits(M6502 { a: data, ..t.state }, data);
                lemma_nz_keeps_unused_bits(t.pushed(), 0);
                assert(after.flags == t.state.flags || after.flags == instr.op.reads(
                    t.state,
                    data,
                ).flags || after.flags == instr.op.reads(t.pc_next(), data).flags || after.flags
                    == instr.op.modifies(t.state, t.data).1.flags || after.flags == instr.op.acts(
                    t.state,
                ).flags || after.flags == t.pulled().with_status(data).flags || after.flags
                    == t.state.with_status(data).flags || after.flags == t.state.after_lda(
                    data,
                ).flags || after.flags == t.pushed().with_flag(M6502::FLAG_I, true).flags);
            }
        }
    }
}

/// INX, INY, DEX and DEY count modulo 256: one above `0xFF` is zero, and
/// one below zero is `0xFF`. The instruction completes in its second cycle;
/// the zero flag tells whether the new value is zero and the negative flag
/// is its bit 7. No other register and no other flag changes.
pub proof fn lemma_index_steps_wrap(state: M6502, op: Operation, data: u8)
    requires
        op is Inx || op is Iny || op is Dex || op is Dey,
    ensures
        ({
            let instr = Instruction { op, mode: Mode::Implied };
            let (next, done) = CycleTicker::begun(state, instr.encoding().unwrap()).advance(data);
            let after = next.state;
            let value = if op is Inx || op is Dex {
                after.x
            } else {
                after.y
            };
            &&& done
            &&& op is Inx ==> after.x == (state.x + 1) % 0x100 && after.y == state.y
            &&& op is Dex ==> after.x == (state.x - 1) % 0x100 && after.y == state.y
            &&& op is Iny ==> after.y == (state.y + 1) % 0x100 && after.x == state.x
            &&& op is Dey ==> after.y == (state.y - 1) % 0x100 && after.x == state.x
            &&& after.flag_z() == (value == 0)
            &&& after.flag_n() == (value >= 0x80)
            &&& after.flags & 0x7d == state.flags & 0x7d
            &&& after.a == state.a && after.sp == state.sp && after.pc == state.pc
        }),
{
    let instr = Instruction { op, mode: Mode::Implied };
    lemma_decoded_encoding(instr);
    let value = match op {
        Operation::Inx => low_byte(state.x + 1),
        Operation::Dex => low_byte(state.x - 1),
        Operation::Iny => low_byte(state.y + 1),
        _ => low_byte(state.y - 1),
    };
    lemma_nz_flags(state.flags, value == 0, value >= 0x80);
}

/// Every push goes to page one and lowers the stack pointer modulo 256: a
/// cycle of BRK, JSR, PHA or PHP that writes, writes at `0x0100` plus the
/// stack pointer, and leaves the stack pointer one lower, or at `0xFF` when
/// it was zero.
pub proof fn lemma_push_stays_in_page_one(t: CycleTicker, data: u8)
    requires
        !(t.cycle is Cycle1),
        decoded(t.op) matches Some(instr) && (instr.op is Brk || instr.op is Jsr || instr.op is Pha
            || instr.op is Php),
        t.access() is Write,
    ensures
        t.access()->Write_0 == STACK_PAGE + t.state.sp,
        high(t.access()->Write_0) == 1,
        t.advance(data).0.state.sp == if t.state.sp == 0 {
            0xff
        } else {
            t.state.sp - 1
        },
{
}

/// Every pull comes from page one and raises the stack pointer modulo 256:
/// a cycle of PLA, PLP, RTI or RTS that reads from the stack, reads at
/// `0x0100` plus the stack pointer, and leaves the stack pointer as it was,
/// or one higher, or at zero when it was `0xFF`.
pub proof fn lemma_pull_stays_in_page_one(t: CycleTicker, data: u8)
    requires
        !(t.cycle is Cycle1),
        decoded(t.op) matches Some(instr) && (instr.op is Pla || instr.op is Plp || instr.op is Rti
            || instr.op is Rts),
        3 <= t.cycle.index() <= 5,
    ensures
        t.access() == Access::Read((STACK_PAGE + t.state.sp) as u16),
        ({
            let after = t.advance(data).0.state.sp;
            after == t.state.sp || after == if t.state.sp == 0xff {
                0
            } else {
                t.state.sp + 1
            }
        }),
{
}

/// CMP never changes a register, and the cycle that completes it compares
/// the accumulator with the byte `data` that it read: carry is set exactly
/// when the accumulator is not below the byte, zero exactly when they are
/// equal, negative is bit 7 of their difference modulo 256, and the other
/// flags stay.
pub proof fn lemma_compare_keeps_accumulator(t: CycleTicker, data: u8)
    requires
        !(t.cycle is Cycle1),
        decoded(t.op) matches Some(instr) && instr.op is Cmp,
    ensures
        ({
            let (next, done) = t.advance(data);
            let a = t.state.a;
            &&& next.state.a == a
            &&& next.state.x == t.state.x
            &&& next.state.y == t.state.y
            &&& next.state.sp == t.state.sp
            &&& !done ==> next.state.flags == t.state.flags
            &&& done ==> {
                &&& next.state.flag_c() == (a >= data)
                &&& next.state.flag_z() == (a == data)
                &&& next.state.flag_n() == ((a - data) % 0x100 >= 0x80)
                &&& next.state.flags & 0x7c == t.state.flags & 0x7c
            }
        }),
{
    let difference = low_byte(t.state.a - data);
    lemma_czn_flags(t.state.flags, t.state.a >= data, difference == 0, difference >= 0x80);
}

} // verus!
