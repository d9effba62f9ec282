//! The registers of a 6502 packaged with its memory.

use crate::cpu::M6502;
use crate::memory::Memory;
use vstd::prelude::*;

verus! {

/// A 6502 microcontroller: the registers of the processor together with the
/// memory attached to it.
pub struct Mcu6502<M: Memory> {
    /// The accumulator is the processor register used in arithmetic and
    /// logical operations, and push/pop stack operations.
    a: u8,
    /// X is a processor register used in memory addressing modes and serves
    /// as an index/offset for memory related operations.
    x: u8,
    /// Y is a processor register used in memory addressing modes and serves
    /// as an index/offset for memory related operations.
    y: u8,
    /// The stack pointer is the processor register containing the address of
    /// the next free location on the stack. This is the lower 8 bits of the
    /// address with the upper 8 bits always being 0x01.
    sp: u8,
    /// The program counter is the processor register containing the address of
    /// the next instruction.
    pc: u16,
    /// Processor status flags change as the results of running various
    /// operations and may be used to modify the behaviour of later instructions.
    flags: u8,
    /// The memory attached to this processor. All memory related operations
    /// will read and write to this memory.
    mem: M,
}

impl<M: Memory> Mcu6502<M> {
    /// The registers and flags of the processor.
    pub closed spec fn registers(&self) -> M6502 {
        M6502 { a: self.a, x: self.x, y: self.y, sp: self.sp, pc: self.pc, flags: self.flags }
    }

    /// The memory attached to the processor.
    pub closed spec fn memory(&self) -> M {
        self.mem
    }

    /// Attaches `mem` to a processor whose registers and flags are all zero.
    pub fn new(mem: M) -> (r: Mcu6502<M>)
        ensures
            r.registers() == M6502::reset(),
            r.memory() == mem,
    {
        Mcu6502 { a: 0, x: 0, y: 0, sp: 0, pc: 0, flags: 0, mem }
    }

    /// Returns the accumulator.
    pub fn reg_a(&self) -> (r: u8)
        ensures
            r == self.registers().a,
    {
        self.a
    }

    /// Sets the accumulator and nothing else.
    pub fn set_reg_a(&mut self, a: u8)
        ensures
            final(self).registers() == (M6502 { a, ..old(self).registers() }),
            final(self).memory() == old(self).memory(),
    {
        self.a = a;
    }

    /// Returns the X register.
    pub fn reg_x(&self) -> (r: u8)
        ensures
            r == self.registers().x,
    {
        self.x
    }

    /// Sets the X register and nothing else.
    pub fn set_reg_x(&mut self, x: u8)
        ensures
            final(self).registers() == (M6502 { x, ..old(self).registers() }),
            final(self).memory() == old(self).memory(),
    {
        self.x = x;
    }

    /// Returns the Y register.
    pub fn reg_y(&self) -> (r: u8)
        ensures
            r == self.registers().y,
    {
        self.y
    }

    /// Sets the Y register and nothing else.
    pub fn set_reg_y(&mut self, y: u8)
        ensures
            final(self).registers() == (M6502 { y, ..old(self).registers() }),
            final(self).memory() == old(self).memory(),
    {
        self.y = y;
    }

    /// Returns the stack pointer.
    pub fn reg_sp(&self) -> (r: u8)
        ensures
            r == self.registers().sp,
    {
        self.sp
    }

    /// Sets the stack pointer and nothing else.
    pub fn set_reg_sp(&mut self, sp: u8)
        ensures
            final(self).registers() == (M6502 { sp, ..old(self).registers() }),
            final(self).memory() == old(self).memory(),
    {
        self.sp = sp;
    }

    /// Returns the program counter.
    pub fn reg_pc(&self) -> (r: u16)
        ensures
            r == self.registers().pc,
    {
        self.pc
    }

    /// Sets the program counter and nothing else.
    pub fn set_reg_pc(&mut self, pc: u16)
        ensures
            final(self).registers() == (M6502 { pc, ..old(self).registers() }),
            final(self).memory() == old(self).memory(),
    {
        self.pc = pc;
    }

    /// Returns the packed status flags.
    pub fn flags(&self) -> (r: u8)
        ensures
            r == self.registers().flags,
    {
        self.flags
    }

    /// Sets the packed status flags and nothing else.
    pub fn set_flags(&mut self, flags: u8)
        ensures
            final(self).registers() == (M6502 { flags, ..old(self).registers() }),
            final(self).memory() == old(self).memory(),
    {
        self.flags = flags;
    }

    /// Returns the attached memory.
    pub fn mem(&self) -> (r: &M)
        ensures
            *r == self.memory(),
    {
        &self.mem
    }

    /// Returns the attached memory for changing it. The registers stay as
    /// they are, and the memory is left as the borrower leaves it.
    pub fn mem_mut(&mut self) -> (r: &mut M)
        ensures
            *r == old(self).memory(),
            final(self).memory() == *final(r),
            final(self).registers() == old(self).registers(),
    {
        &mut self.mem
    }
}

} // verus!
