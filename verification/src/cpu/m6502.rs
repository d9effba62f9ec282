//! The registers and the packed status flags of the processor.

use vstd::prelude::*;

verus! {

/// Whether the bits selected by `mask` hold a one in the packed register `flags`.
pub open spec fn flag_on(flags: u8, mask: u8) -> bool {
    flags & mask != 0
}

/// The packed register `flags` with the bits of `mask` set (`status`) or cleared.
pub open spec fn flag_put(flags: u8, mask: u8, status: bool) -> u8 {
    if status {
        flags | mask
    } else {
        flags & !mask
    }
}

/// Writing a flag touches the bits of its mask and no others, and the flag then reads
/// back as written.
pub proof fn lemma_flag_put(flags: u8, mask: u8, status: bool)
    by (bit_vector)
    ensures
        flag_put(flags, mask, status) & !mask == flags & !mask,
        mask != 0 ==> flag_on(flag_put(flags, mask, status), mask) == status,
        forall|other: u8| other & mask == 0 ==> flag_put(flags, mask, status) & other == flags & other,
{
}

/// Writing the six flags one after the other from the bits of `value` gives the
/// register that keeps its bits 4 and 5 and takes every other bit from `value`.
pub proof fn lemma_status_by_flags(flags: u8, value: u8)
    by (bit_vector)
    ensures
        flag_put(
            flag_put(
                flag_put(
                    flag_put(
                        flag_put(flag_put(flags, 0x80, value & 0x80 != 0), 0x40, value & 0x40 != 0),
                        0x08,
                        value & 0x08 != 0,
                    ),
                    0x04,
                    value & 0x04 != 0,
                ),
                0x02,
                value & 0x02 != 0,
            ),
            0x01,
            value & 0x01 != 0,
        ) == (flags & 0x30) | (value & 0xcf),
{
}

/// The internal state registers of the 6502 chip.
#[derive(Debug, Clone, Copy, PartialEq, Eq, Structural)]
pub struct M6502 {
    /// The accumulator is the processor register used in arithmetic and
    /// logical operations, and push/pop stack operations.
    pub a: u8,
    /// X is a processor register used in memory addressing modes and serves
    /// as an index/offset for memory related operations.
    pub x: u8,
    /// Y is a processor register used in memory addressing modes and serves
    /// as an index/offset for memory related operations.
    pub y: u8,
    /// The stack pointer is the processor register containing the address of
    /// the next free location on the stack. This is the lower 8 bits of the
    /// address with the upper 8 bits always being 0x01.
    pub sp: u8,
    /// The program counter is the processor register containing the address of
    /// the next instruction byte.
    pub pc: u16,
    /// Processor status flags, packed in the order `nv-bdizc` with the most
    /// significant bit first.
    ///
    /// Each bit can be read and written using the methods `flag_x` and
    /// `set_flag_x`, with `x` replaced by the letter of the flag. The
    /// exception is `b`, the break flag, which is only seen when the flags
    /// are pushed onto the stack.
    pub flags: u8,
}

impl Default for M6502 {
    fn default() -> (r: M6502)
        ensures
            r == M6502::reset(),
    {
        M6502 { a: 0, x: 0, y: 0, sp: 0, pc: 0, flags: 0 }
    }
}

impl M6502 {
    /// Bit location of the "Negative" flag: the previous result had bit 7 set.
    pub const FLAG_N: u8 = 0x80;

    /// Bit location of the "Overflow" flag: the previous arithmetic result did
    /// not fit a signed byte.
    pub const FLAG_V: u8 = 0x40;

    /// Bit location of the unused bit, which reads as one on the stack.
    pub const FLAG_U: u8 = 0x20;

    /// Bit location of the "Break" flag, which exists only in the copy of the
    /// flags that is pushed onto the stack: one for an instruction, zero for
    /// an interrupt.
    pub const FLAG_B: u8 = 0x10;

    /// Bit location of the "Decimal" flag: additions and subtractions treat
    /// their operands as binary-coded decimal.
    pub const FLAG_D: u8 = 0x08;

    /// Bit location of the "Interrupt Disable" flag.
    pub const FLAG_I: u8 = 0x04;

    /// Bit location of the "Zero" flag: the previous result was zero.
    pub const FLAG_Z: u8 = 0x02;

    /// Bit location of the "Carry" flag: the ninth bit of the previous result.
    pub const FLAG_C: u8 = 0x01;

    /// The state in which every register and every flag is zero.
    pub open spec fn reset() -> M6502 {
        M6502 { a: 0, x: 0, y: 0, sp: 0, pc: 0, flags: 0 }
    }

    /// This state with the flag bits of `mask` written to `status`.
    pub open spec fn with_flag(self, mask: u8, status: bool) -> M6502 {
        M6502 { flags: flag_put(self.flags, mask, status), ..self }
    }

    /// Returns a new M6502 with every register and flag zero.
    pub fn new() -> (r: M6502)
        ensures
            r == M6502::reset(),
    {
        M6502 { a: 0, x: 0, y: 0, sp: 0, pc: 0, flags: 0 }
    }

    /// Whether the "Negative" flag is set.

    pub open spec fn spec_flag_n(&self) -> bool {
        flag_on(self.flags, Self::FLAG_N)
    }

    /// Returns the current state of the "Negative" flag. See [`Self::FLAG_N`].
    #[verifier::when_used_as_spec(spec_flag_n)]
    pub fn flag_n(&self) -> (r: bool)
        ensures
            r == self.spec_flag_n(),
    {
        self.flags & Self::FLAG_N != 0
    }

    /// Sets the current state of the "Negative" flag and leaves the other
    /// seven bits of the register as they were. See [`Self::FLAG_N`].
    pub fn set_flag_n(&mut self, status: bool)
        ensures
            *final(self) == old(self).with_flag(Self::FLAG_N, status),
            final(self).flag_n() == status,
            final(self).flags & !Self::FLAG_N == old(self).flags & !Self::FLAG_N,
    {
        proof {
            lemma_flag_put(self.flags, Self::FLAG_N, status);
        }
        if status {
            self.flags |= Self::FLAG_N;
        } else {
            self.flags &= !Self::FLAG_N;
        }
    }

    /// Whether the "Overflow" flag is set.

    pub open spec fn spec_flag_v(&self) -> bool {
        flag_on(self.flags, Self::FLAG_V)
    }

    /// Returns the current state of the "Overflow" flag. See [`Self::FLAG_V`].
    #[verifier::when_used_as_spec(spec_flag_v)]
    pub fn flag_v(&self) -> (r: bool)
        ensures
            r == self.spec_flag_v(),
    {
        self.flags & Self::FLAG_V != 0
    }

    /// Sets the current state of the "Overflow" flag and leaves the other
    /// seven bits of the register as they were. See [`Self::FLAG_V`].
    pub fn set_flag_v(&mut self, status: bool)
        ensures
            *final(self) == old(self).with_flag(Self::FLAG_V, status),
            final(self).flag_v() == status,
            final(self).flags & !Self::FLAG_V == old(self).flags & !Self::FLAG_V,
    {
        proof {
            lemma_flag_put(self.flags, Self::FLAG_V, status);
        }
        if status {
            self.flags |= Self::FLAG_V;
        } else {
            self.flags &= !Self::FLAG_V;
        }
    }

    /// Whether the "Decimal" flag is set.

    pub open spec fn spec_flag_d(&self) -> bool {
        flag_on(self.flags, Self::FLAG_D)
    }

    /// Returns the current state of the "Decimal" flag. See [`Self::FLAG_D`].
    #[verifier::when_used_as_spec(spec_flag_d)]
    pub fn flag_d(&self) -> (r: bool)
        ensures
            r == self.spec_flag_d(),
    {
        self.flags & Self::FLAG_D != 0
    }

    /// Sets the current state of the "Decimal" flag and leaves the other
    /// seven bits of the register as they were. See [`Self::FLAG_D`].
    pub fn set_flag_d(&mut self, status: bool)
        ensures
            *final(self) == old(self).with_flag(Self::FLAG_D, status),
            final(self).flag_d() == status,
            final(self).flags & !Self::FLAG_D == old(self).flags & !Self::FLAG_D,
    {
        proof {
            lemma_flag_put(self.flags, Self::FLAG_D, status);
        }
        if status {
            self.flags |= Self::FLAG_D;
        } else {
            self.flags &= !Self::FLAG_D;
        }
    }

    /// Whether the "Interrupt Disable" flag is set.

    pub open spec fn spec_flag_i(&self) -> bool {
        flag_on(self.flags, Self::FLAG_I)
    }

    /// Returns the current state of the "Interrupt Disable" flag. See [`Self::FLAG_I`].
    #[verifier::when_used_as_spec(spec_flag_i)]
    pub fn flag_i(&self) -> (r: bool)
        ensures
            r == self.spec_flag_i(),
    {
        self.flags & Self::FLAG_I != 0
    }

    /// Sets the current state of the "Interrupt Disable" flag and leaves the other
    /// seven bits of the register as they were. See [`Self::FLAG_I`].
    pub fn set_flag_i(&mut self, status: bool)
        ensures
            *final(self) == old(self).with_flag(Self::FLAG_I, status),
            final(self).flag_i() == status,
            final(self).flags & !Self::FLAG_I == old(self).flags & !Self::FLAG_I,
    {
        proof {
            lemma_flag_put(self.flags, Self::FLAG_I, status);
        }
        if status {
            self.flags |= Self::FLAG_I;
        } else {
            self.flags &= !Self::FLAG_I;
        }
    }

    /// Whether the "Zero" flag is set.

    pub open spec fn spec_flag_z(&self) -> bool {
        flag_on(self.flags, Self::FLAG_Z)
    }

    /// Returns the current state of the "Zero" flag. See [`Self::FLAG_Z`].
    #[verifier::when_used_as_spec(spec_flag_z)]
    pub fn flag_z(&self) -> (r: bool)
        ensures
            r == self.spec_flag_z(),
    {
        self.flags & Self::FLAG_Z != 0
    }

    /// Sets the current state of the "Zero" flag and leaves the other
    /// seven bits of the register as they were. See [`Self::FLAG_Z`].
    pub fn set_flag_z(&mut self, status: bool)
        ensures
            *final(self) == old(self).with_flag(Self::FLAG_Z, status),
            final(self).flag_z() == status,
            final(self).flags & !Self::FLAG_Z == old(self).flags & !Self::FLAG_Z,
    {
        proof {
            lemma_flag_put(self.flags, Self::FLAG_Z, status);
        }
        if status {
            self.flags |= Self::FLAG_Z;
        } else {
            self.flags &= !Self::FLAG_Z;
        }
    }

    /// Whether the "Carry" flag is set.

    pub open spec fn spec_flag_c(&self) -> bool {
        flag_on(self.flags, Self::FLAG_C)
    }

    /// Returns the current state of the "Carry" flag. See [`Self::FLAG_C`].
    #[verifier::when_used_as_spec(spec_flag_c)]
    pub fn flag_c(&self) -> (r: bool)
        ensures
            r == self.spec_flag_c(),
    {
        self.flags & Self::FLAG_C != 0
    }

    /// Sets the current state of the "Carry" flag and leaves the other
    /// seven bits of the register as they were. See [`Self::FLAG_C`].
    pub fn set_flag_c(&mut self, status: bool)
        ensures
            *final(self) == old(self).with_flag(Self::FLAG_C, status),
            final(self).flag_c() == status,
            final(self).flags & !Self::FLAG_C == old(self).flags & !Self::FLAG_C,
    {
        proof {
            lemma_flag_put(self.flags, Self::FLAG_C, status);
        }
        if status {
            self.flags |= Self::FLAG_C;
        } else {
            self.flags &= !Self::FLAG_C;
        }
    }

    /// The byte that stands for the flags on the stack: the six flags, the
    /// unused bit as one, and the break bit as given (one for BRK and PHP,
    /// zero for a hardware interrupt).
    pub open spec fn spec_status_byte(&self, brk: bool) -> u8 {
        flag_put(self.flags | Self::FLAG_U, Self::FLAG_B, brk)
    }

    /// Packs the flags for the stack. See [`Self::FLAG_B`].
    #[verifier::when_used_as_spec(spec_status_byte)]
    pub fn status_byte(&self, brk: bool) -> (r: u8)
        ensures
            r == self.spec_status_byte(brk),
    {
        let packed: u8 = self.flags | Self::FLAG_U;
        if brk {
            packed | Self::FLAG_B
        } else {
            packed & !Self::FLAG_B
        }
    }

    /// This state with the six flags taken from `value`, a byte pulled from
    /// the stack. Bits 4 and 5 of the register are no flags and stay.
    pub open spec fn with_status(self, value: u8) -> M6502 {
        M6502 { flags: (self.flags & 0x30) | (value & 0xcf), ..self }
    }

    /// Loads the six flags from a byte pulled from the stack, one flag at a
    /// time, so that the break bit and the unused bit of `value` are dropped.
    pub fn set_status(&mut self, value: u8)
        ensures
            *final(self) == old(self).with_status(value),
    {
        proof {
            lemma_status_by_flags(self.flags, value);
        }
        self.set_flag_n(value & Self::FLAG_N != 0);
        self.set_flag_v(value & Self::FLAG_V != 0);
        self.set_flag_d(value & Self::FLAG_D != 0);
        self.set_flag_i(value & Self::FLAG_I != 0);
        self.set_flag_z(value & Self::FLAG_Z != 0);
        self.set_flag_c(value & Self::FLAG_C != 0);
    }
}

} // verus!
