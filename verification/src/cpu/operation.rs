//! What each operation does to the registers with the byte it is handed.

use super::instruction::{Mode, Operation};
use super::m6502::M6502;
use vstd::prelude::*;

verus! {

/// How an instruction uses the byte in memory that its addressing mode finds.
#[derive(Debug, Clone, Copy, PartialEq, Eq, Structural)]
pub enum Kind {
    /// The byte is read and used.
    Read,
    /// A register is written over the byte.
    Write,
    /// The byte is read, changed and written back.
    Modify,
}

impl Operation {
    /// Whether the operation has a sequence of cycles of its own, which its
    /// addressing mode does not tell: the jumps, the returns, the pushes and
    /// the pulls.
    pub open spec fn has_own_sequence(self) -> bool {
        self is Brk || self is Jsr || self is Rti || self is Rts || self is Pha || self is Php
            || self is Pla || self is Plp || self is Jmp
    }

    /// How the operation uses its byte in memory.
    pub open spec fn spec_kind(self) -> Kind {
        match self {
            Operation::Sta | Operation::Stx | Operation::Sty => Kind::Write,
            Operation::Asl
            | Operation::Lsr
            | Operation::Rol
            | Operation::Ror
            | Operation::Inc
            | Operation::Dec => Kind::Modify,
            _ => Kind::Read,
        }
    }

    /// Tells how the operation uses its byte in memory.
    #[verifier::when_used_as_spec(spec_kind)]
    pub fn kind(self) -> (r: Kind)
        ensures
            r == self.spec_kind(),
    {
        match self {
            Operation::Sta | Operation::Stx | Operation::Sty => Kind::Write,
            Operation::Asl
            | Operation::Lsr
            | Operation::Rol
            | Operation::Ror
            | Operation::Inc
            | Operation::Dec => Kind::Modify,
            _ => Kind::Read,
        }
    }

    /// The state after an operation that reads has used the byte `m`. An
    /// operation that reads nothing leaves the state as it is.
    pub open spec fn reads(self, s: M6502, m: u8) -> M6502 {
        match self {
            Operation::Adc => s.after_adc(m),
            Operation::And => s.after_and(m),
            Operation::Bit => s.after_bit(m),
            Operation::Cmp => s.after_compare(s.a, m),
            Operation::Cpx => s.after_compare(s.x, m),
            Operation::Cpy => s.after_compare(s.y, m),
            Operation::Eor => s.after_eor(m),
            Operation::Lda => s.after_lda(m),
            Operation::Ldx => s.after_ldx(m),
            Operation::Ldy => s.after_ldy(m),
            Operation::Ora => s.after_ora(m),
            Operation::Sbc => s.after_sbc(m),
            _ => s,
        }
    }

    /// The byte that a store operation writes: the register it is named
    /// after.
    pub open spec fn stores(self, s: M6502) -> u8 {
        match self {
            Operation::Stx => s.x,
            Operation::Sty => s.y,
            _ => s.a,
        }
    }

    /// The byte that an operation which modifies makes of `value`, and the
    /// state after it. An operation that modifies nothing hands both back.
    pub open spec fn modifies(self, s: M6502, value: u8) -> (u8, M6502) {
        match self {
            Operation::Asl => s.after_asl(value),
            Operation::Lsr => s.after_lsr(value),
            Operation::Rol => s.after_rol(value),
            Operation::Ror => s.after_ror(value),
            Operation::Inc => s.after_inc(value),
            Operation::Dec => s.after_dec(value),
            _ => (value, s),
        }
    }

    /// The state after an operation that works on registers and flags alone.
    /// The shifts and rotations work on the accumulator here.
    pub open spec fn acts(self, s: M6502) -> M6502 {
        match self {
            Operation::Clc => s.with_flag(M6502::FLAG_C, false),
            Operation::Cld => s.with_flag(M6502::FLAG_D, false),
            Operation::Cli => s.with_flag(M6502::FLAG_I, false),
            Operation::Clv => s.with_flag(M6502::FLAG_V, false),
            Operation::Sec => s.with_flag(M6502::FLAG_C, true),
            Operation::Sed => s.with_flag(M6502::FLAG_D, true),
            Operation::Sei => s.with_flag(M6502::FLAG_I, true),
            Operation::Dex => s.after_ldx(s.after_dec(s.x).0),
            Operation::Dey => s.after_ldy(s.after_dec(s.y).0),
            Operation::Inx => s.after_ldx(s.after_inc(s.x).0),
            Operation::Iny => s.after_ldy(s.after_inc(s.y).0),
            Operation::Tax => s.after_ldx(s.a),
            Operation::Tay => s.after_ldy(s.a),
            Operation::Tsx => s.after_ldx(s.sp),
            Operation::Txa => s.after_lda(s.x),
            Operation::Tya => s.after_lda(s.y),
            Operation::Txs => s.after_txs(),
            Operation::Asl | Operation::Lsr | Operation::Rol | Operation::Ror => {
                let (value, after) = self.modifies(s, s.a);
                M6502 { a: value, ..after }
            },
            _ => s,
        }
    }

    /// Whether a branch operation is taken in state `s`. Each tests one flag.
    pub open spec fn branches(self, s: M6502) -> bool {
        match self {
            Operation::Bcc => !s.flag_c(),
            Operation::Bcs => s.flag_c(),
            Operation::Bne => !s.flag_z(),
            Operation::Beq => s.flag_z(),
            Operation::Bpl => !s.flag_n(),
            Operation::Bmi => s.flag_n(),
            Operation::Bvc => !s.flag_v(),
            Operation::Bvs => s.flag_v(),
            _ => false,
        }
    }
}

impl Mode {
    /// The index register that the mode adds to its address, or zero where it
    /// adds none.
    pub open spec fn spec_index(self, s: M6502) -> u8 {
        match self {
            Mode::ZeroPageX | Mode::AbsoluteX | Mode::IndexedIndirect => s.x,
            Mode::ZeroPageY | Mode::AbsoluteY | Mode::IndirectIndexed => s.y,
            _ => 0,
        }
    }

    /// Returns the index register that the mode adds to its address.
    #[verifier::when_used_as_spec(spec_index)]
    pub fn index(self, s: M6502) -> (r: u8)
        ensures
            r == self.spec_index(s),
    {
        match self {
            Mode::ZeroPageX | Mode::AbsoluteX | Mode::IndexedIndirect => s.x,
            Mode::ZeroPageY | Mode::AbsoluteY | Mode::IndirectIndexed => s.y,
            _ => 0,
        }
    }
}

impl M6502 {
    /// Lets an operation that reads use the byte `m`.
    pub fn execute_read(&mut self, op: Operation, m: u8)
        ensures
            *final(self) == op.reads(*old(self), m),
    {
        match op {
            Operation::Adc => self.adc(m),
            Operation::And => self.and(m),
            Operation::Bit => self.bit(m),
            Operation::Cmp => self.compare(self.a, m),
            Operation::Cpx => self.compare(self.x, m),
            Operation::Cpy => self.compare(self.y, m),
            Operation::Eor => self.eor(m),
            Operation::Lda => self.lda(m),
            Operation::Ldx => self.ldx(m),
            Operation::Ldy => self.ldy(m),
            Operation::Ora => self.ora(m),
            Operation::Sbc => self.sbc(m),
            _ => {},
        }
    }

    /// Returns the byte that a store operation writes.
    pub fn store_value(&self, op: Operation) -> (r: u8)
        ensures
            r == op.stores(*self),
    {
        match op {
            Operation::Stx => self.x,
            Operation::Sty => self.y,
            _ => self.a,
        }
    }

    /// Lets an operation that modifies work on `value`, and returns what it
    /// made of it.
    pub fn execute_modify(&mut self, op: Operation, value: u8) -> (r: u8)
        ensures
            (r, *final(self)) == op.modifies(*old(self), value),
    {
        match op {
            Operation::Asl => self.asl(value),
            Operation::Lsr => self.lsr(value),
            Operation::Rol => self.rol(value),
            Operation::Ror => self.ror(value),
            Operation::Inc => self.inc(value),
            Operation::Dec => self.dec(value),
            _ => value,
        }
    }

    /// Performs an operation that works on registers and flags alone.
    pub fn execute(&mut self, op: Operation)
        ensures
            *final(self) == op.acts(*old(self)),
    {
        match op {
            Operation::Clc => self.set_flag_c(false),
            Operation::Cld => self.set_flag_d(false),
            Operation::Cli => self.set_flag_i(false),
            Operation::Clv => self.set_flag_v(false),
            Operation::Sec => self.set_flag_c(true),
            Operation::Sed => self.set_flag_d(true),
            Operation::Sei => self.set_flag_i(true),
            Operation::Dex => self.ldx(self.x.wrapping_sub(1)),
            Operation::Dey => self.ldy(self.y.wrapping_sub(1)),
            Operation::Inx => self.ldx(self.x.wrapping_add(1)),
            Operation::Iny => self.ldy(self.y.wrapping_add(1)),
            Operation::Tax => self.ldx(self.a),
            Operation::Tay => self.ldy(self.a),
            Operation::Tsx => self.ldx(self.sp),
            Operation::Txa => self.lda(self.x),
            Operation::Tya => self.lda(self.y),
            Operation::Txs => {
                self.sp = self.x;
            },
            Operation::Asl | Operation::Lsr | Operation::Rol | Operation::Ror => {
                let value: u8 = self.execute_modify(op, self.a);
                self.a = value;
            },
            _ => {},
        }
    }

    /// Tells whether a branch operation is taken.
    pub fn branch_taken(&self, op: Operation) -> (r: bool)
        ensures
            r == op.branches(*self),
    {
        match op {
            Operation::Bcc => !self.flag_c(),
            Operation::Bcs => self.flag_c(),
            Operation::Bne => !self.flag_z(),
            Operation::Beq => self.flag_z(),
            Operation::Bpl => !self.flag_n(),
            Operation::Bmi => self.flag_n(),
            Operation::Bvc => !self.flag_v(),
            Operation::Bvs => self.flag_v(),
            _ => false,
        }
    }
}

} // verus!
