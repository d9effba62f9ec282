//! The instruction set: operations, addressing modes and their opcodes.

use vstd::prelude::*;

verus! {

/// What an instruction does, whatever way it finds its operand.
#[derive(Debug, Clone, Copy, PartialEq, Eq, Structural)]
pub enum Operation {
    /// Add memory to the accumulator with carry.
    Adc,
    /// Bitwise AND of memory and the accumulator.
    And,
    /// Shift left by one bit.
    Asl,
    /// Branch if the carry flag is clear.
    Bcc,
    /// Branch if the carry flag is set.
    Bcs,
    /// Branch if the zero flag is set.
    Beq,
    /// Test the bits of memory against the accumulator.
    Bit,
    /// Branch if the negative flag is set.
    Bmi,
    /// Branch if the zero flag is clear.
    Bne,
    /// Branch if the negative flag is clear.
    Bpl,
    /// Force an interrupt.
    Brk,
    /// Branch if the overflow flag is clear.
    Bvc,
    /// Branch if the overflow flag is set.
    Bvs,
    /// Clear the carry flag.
    Clc,
    /// Clear the decimal flag.
    Cld,
    /// Clear the interrupt disable flag.
    Cli,
    /// Clear the overflow flag.
    Clv,
    /// Compare memory with the accumulator.
    Cmp,
    /// Compare memory with X.
    Cpx,
    /// Compare memory with Y.
    Cpy,
    /// Decrement memory by one.
    Dec,
    /// Decrement X by one.
    Dex,
    /// Decrement Y by one.
    Dey,
    /// Bitwise exclusive OR of memory and the accumulator.
    Eor,
    /// Increment memory by one.
    Inc,
    /// Increment X by one.
    Inx,
    /// Increment Y by one.
    Iny,
    /// Jump to a new location.
    Jmp,
    /// Jump to a subroutine, saving the return address.
    Jsr,
    /// Load the accumulator from memory.
    Lda,
    /// Load X from memory.
    Ldx,
    /// Load Y from memory.
    Ldy,
    /// Shift right by one bit.
    Lsr,
    /// No operation.
    Nop,
    /// Bitwise OR of memory and the accumulator.
    Ora,
    /// Push the accumulator onto the stack.
    Pha,
    /// Push the flags onto the stack.
    Php,
    /// Pull the accumulator from the stack.
    Pla,
    /// Pull the flags from the stack.
    Plp,
    /// Rotate left by one bit through the carry.
    Rol,
    /// Rotate right by one bit through the carry.
    Ror,
    /// Return from an interrupt.
    Rti,
    /// Return from a subroutine.
    Rts,
    /// Subtract memory from the accumulator with borrow.
    Sbc,
    /// Set the carry flag.
    Sec,
    /// Set the decimal flag.
    Sed,
    /// Set the interrupt disable flag.
    Sei,
    /// Store the accumulator in memory.
    Sta,
    /// Store X in memory.
    Stx,
    /// Store Y in memory.
    Sty,
    /// Transfer the accumulator to X.
    Tax,
    /// Transfer the accumulator to Y.
    Tay,
    /// Transfer the stack pointer to X.
    Tsx,
    /// Transfer X to the accumulator.
    Txa,
    /// Transfer X to the stack pointer.
    Txs,
    /// Transfer Y to the accumulator.
    Tya,
}

/// The way an instruction finds the memory address or register it works on.
#[derive(Debug, Clone, Copy, PartialEq, Eq, Structural)]
pub enum Mode {
    /// The instruction names no operand.
    Implied,
    /// The operand is the accumulator.
    Accumulator,
    /// The operand is the byte that follows the opcode.
    Immediate,
    /// The operand is in page zero, at the address that follows the opcode.
    ZeroPage,
    /// As `ZeroPage`, with X added to the address within page zero.
    ZeroPageX,
    /// As `ZeroPage`, with Y added to the address within page zero.
    ZeroPageY,
    /// The operand is at the 16-bit address that follows the opcode.
    Absolute,
    /// As `Absolute`, with X added to the address.
    AbsoluteX,
    /// As `Absolute`, with Y added to the address.
    AbsoluteY,
    /// The operand is the address stored at the 16-bit address that follows
    /// the opcode.
    Indirect,
    /// The operand is at the address stored in page zero at the byte that
    /// follows the opcode plus X.
    IndexedIndirect,
    /// The operand is at the address stored in page zero at the byte that
    /// follows the opcode, plus Y.
    IndirectIndexed,
    /// The operand is a signed offset from the address of the next
    /// instruction.
    Relative,
}

/// One instruction of the processor: an operation and the way it is
/// addressed. Only the pairs with an [`encoding`](Instruction::encoding) are
/// instructions of the chip.
#[derive(Debug, Clone, Copy, PartialEq, Eq, Structural)]
pub struct Instruction {
    pub op: Operation,
    pub mode: Mode,
}

impl Instruction {
    /// The opcode byte of this instruction in the chip's instruction set, or
    /// `None` where the chip has no such instruction.
    pub open spec fn encoding(self) -> Option<u8> {
        match self.op {
            Operation::Adc => match self.mode {
                Mode::Immediate => Some(0x69u8),
                Mode::ZeroPage => Some(0x65u8),
                Mode::ZeroPageX => Some(0x75u8),
                Mode::Absolute => Some(0x6du8),
                Mode::AbsoluteX => Some(0x7du8),
                Mode::AbsoluteY => Some(0x79u8),
                Mode::IndexedIndirect => Some(0x61u8),
                Mode::IndirectIndexed => Some(0x71u8),
                _ => None,
            },
            Operation::And => match self.mode {
                Mode::Immediate => Some(0x29u8),
                Mode::ZeroPage => Some(0x25u8),
                Mode::ZeroPageX => Some(0x35u8),
                Mode::Absolute => Some(0x2du8),
                Mode::AbsoluteX => Some(0x3du8),
                Mode::AbsoluteY => Some(0x39u8),
                Mode::IndexedIndirect => Some(0x21u8),
                Mode::IndirectIndexed => Some(0x31u8),
                _ => None,
            },
            Operation::Asl => match self.mode {
                Mode::Accumulator => Some(0x0au8),
                Mode::ZeroPage => Some(0x06u8),
                Mode::ZeroPageX => Some(0x16u8),
                Mode::Absolute => Some(0x0eu8),
                Mode::AbsoluteX => Some(0x1eu8),
                _ => None,
            },
            Operation::Bcc => match self.mode {
                Mode::Relative => Some(0x90u8),
                _ => None,
            },
            Operation::Bcs => match self.mode {
                Mode::Relative => Some(0xb0u8),
                _ => None,
            },
            Operation::Beq => match self.mode {
                Mode::Relative => Some(0xf0u8),
                _ => None,
            },
            Operation::Bit => match self.mode {
                Mode::ZeroPage => Some(0x24u8),
                Mode::Absolute => Some(0x2cu8),
                _ => None,
            },
            Operation::Bmi => match self.mode {
                Mode::Relative => Some(0x30u8),
                _ => None,
            },
            Operation::Bne => match self.mode {
                Mode::Relative => Some(0xd0u8),
                _ => None,
            },
            Operation::Bpl => match self.mode {
                Mode::Relative => Some(0x10u8),
                _ => None,
            },
            Operation::Brk => match self.mode {
                Mode::Implied => Some(0x00u8),
                _ => None,
            },
            Operation::Bvc => match self.mode {
                Mode::Relative => Some(0x50u8),
                _ => None,
            },
            Operation::Bvs => match self.mode {
                Mode::Relative => Some(0x70u8),
                _ => None,
            },
            Operation::Clc => match self.mode {
                Mode::Implied => Some(0x18u8),
                _ => None,
            },
            Operation::Cld => match self.mode {
                Mode::Implied => Some(0xd8u8),
                _ => None,
            },
            Operation::Cli => match self.mode {
                Mode::Implied => Some(0x58u8),
                _ => None,
            },
            Operation::Clv => match self.mode {
                Mode::Implied => Some(0xb8u8),
                _ => None,
            },
            Operation::Cmp => match self.mode {
                Mode::Immediate => Some(0xc9u8),
                Mode::ZeroPage => Some(0xc5u8),
                Mode::ZeroPageX => Some(0xd5u8),
                Mode::Absolute => Some(0xcdu8),
                Mode::AbsoluteX => Some(0xddu8),
                Mode::AbsoluteY => Some(0xd9u8),
                Mode::IndexedIndirect => Some(0xc1u8),
                Mode::IndirectIndexed => Some(0xd1u8),
                _ => None,
            },
            Operation::Cpx => match self.mode {
                Mode::Immediate => Some(0xe0u8),
                Mode::ZeroPage => Some(0xe4u8),
                Mode::Absolute => Some(0xecu8),
                _ => None,
            },
            Operation::Cpy => match self.mode {
                Mode::Immediate => Some(0xc0u8),
                Mode::ZeroPage => Some(0xc4u8),
                Mode::Absolute => Some(0xccu8),
                _ => None,
            },
            Operation::Dec => match self.mode {
                Mode::ZeroPage => Some(0xc6u8),
                Mode::ZeroPageX => Some(0xd6u8),
                Mode::Absolute => Some(0xceu8),
                Mode::AbsoluteX => Some(0xdeu8),
                _ => None,
            },
            Operation::Dex => match self.mode {
                Mode::Implied => Some(0xcau8),
                _ => None,
            },
            Operation::Dey => match self.mode {
                Mode::Implied => Some(0x88u8),
                _ => None,
            },
            Operation::Eor => match self.mode {
                Mode::Immediate => Some(0x49u8),
                Mode::ZeroPage => Some(0x45u8),
                Mode::ZeroPageX => Some(0x55u8),
                Mode::Absolute => Some(0x4du8),
                Mode::AbsoluteX => Some(0x5du8),
                Mode::AbsoluteY => Some(0x59u8),
                Mode::IndexedIndirect => Some(0x41u8),
                Mode::IndirectIndexed => Some(0x51u8),
                _ => None,
            },
            Operation::Inc => match self.mode {
                Mode::ZeroPage => Some(0xe6u8),
                Mode::ZeroPageX => Some(0xf6u8),
                Mode::Absolute => Some(0xeeu8),
                Mode::AbsoluteX => Some(0xfeu8),
                _ => None,
            },
            Operation::Inx => match self.mode {
                Mode::Implied => Some(0xe8u8),
                _ => None,
            },
            Operation::Iny => match self.mode {
                Mode::Implied => Some(0xc8u8),
                _ => None,
            },
            Operation::Jmp => match self.mode {
                Mode::Absolute => Some(0x4cu8),
                Mode::Indirect => Some(0x6cu8),
                _ => None,
            },
            Operation::Jsr => match self.mode {
                Mode::Absolute => Some(0x20u8),
                _ => None,
            },
            Operation::Lda => match self.mode {
                Mode::Immediate => Some(0xa9u8),
                Mode::ZeroPage => Some(0xa5u8),
                Mode::ZeroPageX => Some(0xb5u8),
                Mode::Absolute => Some(0xadu8),
                Mode::AbsoluteX => Some(0xbdu8),
                Mode::AbsoluteY => Some(0xb9u8),
                Mode::IndexedIndirect => Some(0xa1u8),
                Mode::IndirectIndexed => Some(0xb1u8),
                _ => None,
            },
            Operation::Ldx => match self.mode {
                Mode::Immediate => Some(0xa2u8),
                Mode::ZeroPage => Some(0xa6u8),
                Mode::ZeroPageY => Some(0xb6u8),
                Mode::Absolute => Some(0xaeu8),
                Mode::AbsoluteY => Some(0xbeu8),
                _ => None,
            },
            Operation::Ldy => match self.mode {
                Mode::Immediate => Some(0xa0u8),
                Mode::ZeroPage => Some(0xa4u8),
                Mode::ZeroPageX => Some(0xb4u8),
                Mode::Absolute => Some(0xacu8),
                Mode::AbsoluteX => Some(0xbcu8),
                _ => None,
            },
            Operation::Lsr => match self.mode {
                Mode::Accumulator => Some(0x4au8),
                Mode::ZeroPage => Some(0x46u8),
                Mode::ZeroPageX => Some(0x56u8),
                Mode::Absolute => Some(0x4eu8),
                Mode::AbsoluteX => Some(0x5eu8),
                _ => None,
            },
            Operation::Nop => match self.mode {
                Mode::Implied => Some(0xeau8),
                _ => None,
            },
            Operation::Ora => match self.mode {
                Mode::Immediate => Some(0x09u8),
                Mode::ZeroPage => Some(0x05u8),
                Mode::ZeroPageX => Some(0x15u8),
                Mode::Absolute => Some(0x0du8),
                Mode::AbsoluteX => Some(0x1du8),
                Mode::AbsoluteY => Some(0x19u8),
                Mode::IndexedIndirect => Some(0x01u8),
                Mode::IndirectIndexed => Some(0x11u8),
                _ => None,
            },
            Operation::Pha => match self.mode {
                Mode::Implied => Some(0x48u8),
                _ => None,
            },
            Operation::Php => match self.mode {
                Mode::Implied => Some(0x08u8),
                _ => None,
            },
            Operation::Pla => match self.mode {
                Mode::Implied => Some(0x68u8),
                _ => None,
            },
            Operation::Plp => match self.mode {
                Mode::Implied => Some(0x28u8),
                _ => None,
            },
            Operation::Rol => match self.mode {
                Mode::Accumulator => Some(0x2au8),
                Mode::ZeroPage => Some(0x26u8),
                Mode::ZeroPageX => Some(0x36u8),
                Mode::Absolute => Some(0x2eu8),
                Mode::AbsoluteX => Some(0x3eu8),
                _ => None,
            },
            Operation::Ror => match self.mode {
                Mode::Accumulator => Some(0x6au8),
                Mode::ZeroPage => Some(0x66u8),
                Mode::ZeroPageX => Some(0x76u8),
                Mode::Absolute => Some(0x6eu8),
                Mode::AbsoluteX => Some(0x7eu8),
                _ => None,
            },
            Operation::Rti => match self.mode {
                Mode::Implied => Some(0x40u8),
                _ => None,
            },
            Operation::Rts => match self.mode {
                Mode::Implied => Some(0x60u8),
                _ => None,
            },
            Operation::Sbc => match self.mode {
                Mode::Immediate => Some(0xe9u8),
                Mode::ZeroPage => Some(0xe5u8),
                Mode::ZeroPageX => Some(0xf5u8),
                Mode::Absolute => Some(0xedu8),
                Mode::AbsoluteX => Some(0xfdu8),
                Mode::AbsoluteY => Some(0xf9u8),
                Mode::IndexedIndirect => Some(0xe1u8),
                Mode::IndirectIndexed => Some(0xf1u8),
                _ => None,
            },
            Operation::Sec => match self.mode {
                Mode::Implied => Some(0x38u8),
                _ => None,
            },
            Operation::Sed => match self.mode {
                Mode::Implied => Some(0xf8u8),
                _ => None,
            },
            Operation::Sei => match self.mode {
                Mode::Implied => Some(0x78u8),
                _ => None,
            },
            Operation::Sta => match self.mode {
                Mode::ZeroPage => Some(0x85u8),
                Mode::ZeroPageX => Some(0x95u8),
                Mode::Absolute => Some(0x8du8),
                Mode::AbsoluteX => Some(0x9du8),
                Mode::AbsoluteY => Some(0x99u8),
                Mode::IndexedIndirect => Some(0x81u8),
                Mode::IndirectIndexed => Some(0x91u8),
                _ => None,
            },
            Operation::Stx => match self.mode {
                Mode::ZeroPage => Some(0x86u8),
                Mode::ZeroPageY => Some(0x96u8),
                Mode::Absolute => Some(0x8eu8),
                _ => None,
            },
            Operation::Sty => match self.mode {
                Mode::ZeroPage => Some(0x84u8),
                Mode::ZeroPageX => Some(0x94u8),
                Mode::Absolute => Some(0x8cu8),
                _ => None,
            },
            Operation::Tax => match self.mode {
                Mode::Implied => Some(0xaau8),
                _ => None,
            },
            Operation::Tay => match self.mode {
                Mode::Implied => Some(0xa8u8),
                _ => None,
            },
            Operation::Tsx => match self.mode {
                Mode::Implied => Some(0xbau8),
                _ => None,
            },
            Operation::Txa => match self.mode {
                Mode::Implied => Some(0x8au8),
                _ => None,
            },
            Operation::Txs => match self.mode {
                Mode::Implied => Some(0x9au8),
                _ => None,
            },
            Operation::Tya => match self.mode {
                Mode::Implied => Some(0x98u8),
                _ => None,
            },
        }
    }
}

/// The instruction that the opcode byte stands for, or `None` where the byte
/// is no opcode of the chip.
pub open spec fn decoded(opcode: u8) -> Option<Instruction> {
    if exists|i: Instruction| i.encoding() == Some(opcode) {
        Some(choose|i: Instruction| i.encoding() == Some(opcode))
    } else {
        None
    }
}

/// No two instructions share an opcode byte.
pub proof fn lemma_encoding_injective(i: Instruction, j: Instruction)
    requires
        i.encoding() is Some,
        i.encoding() == j.encoding(),
    ensures
        i == j,
{
}

/// An instruction of the chip is what its opcode byte decodes to.
pub proof fn lemma_decoded_encoding(i: Instruction)
    requires
        i.encoding() is Some,
    ensures
        decoded(i.encoding().unwrap()) == Some(i),
{
    let opcode = i.encoding().unwrap();
    let found = choose|j: Instruction| j.encoding() == Some(opcode);
    lemma_encoding_injective(i, found);
}

/// Looks the opcode byte up in the instruction set. It returns the one
/// instruction that is encoded by the byte, and `None` for each of the bytes
/// that the chip leaves undefined.
pub fn decode(opcode: u8) -> (r: Option<Instruction>)
    ensures
        r == decoded(opcode),
        r is Some <==> exists|i: Instruction| i.encoding() == Some(opcode),
        forall|i: Instruction| r == Some(i) <==> i.encoding() == Some(opcode),
{
    let r = match opcode {
        0x00 => Some(Instruction { op: Operation::Brk, mode: Mode::Implied }),
        0x01 => Some(Instruction { op: Operation::Ora, mode: Mode::IndexedIndirect }),
        0x05 => Some(Instruction { op: Operation::Ora, mode: Mode::ZeroPage }),
        0x06 => Some(Instruction { op: Operation::Asl, mode: Mode::ZeroPage }),
        0x08 => Some(Instruction { op: Operation::Php, mode: Mode::Implied }),
        0x09 => Some(Instruction { op: Operation::Ora, mode: Mode::Immediate }),
        0x0a => Some(Instruction { op: Operation::Asl, mode: Mode::Accumulator }),
        0x0d => Some(Instruction { op: Operation::Ora, mode: Mode::Absolute }),
        0x0e => Some(Instruction { op: Operation::Asl, mode: Mode::Absolute }),
        0x10 => Some(Instruction { op: Operation::Bpl, mode: Mode::Relative }),
        0x11 => Some(Instruction { op: Operation::Ora, mode: Mode::IndirectIndexed }),
        0x15 => Some(Instruction { op: Operation::Ora, mode: Mode::ZeroPageX }),
        0x16 => Some(Instruction { op: Operation::Asl, mode: Mode::ZeroPageX }),
        0x18 => Some(Instruction { op: Operation::Clc, mode: Mode::Implied }),
        0x19 => Some(Instruction { op: Operation::Ora, mode: Mode::AbsoluteY }),
        0x1d => Some(Instruction { op: Operation::Ora, mode: Mode::AbsoluteX }),
        0x1e => Some(Instruction { op: Operation::Asl, mode: Mode::AbsoluteX }),
        0x20 => Some(Instruction { op: Operation::Jsr, mode: Mode::Absolute }),
        0x21 => Some(Instruction { op: Operation::And, mode: Mode::IndexedIndirect }),
        0x24 => Some(Instruction { op: Operation::Bit, mode: Mode::ZeroPage }),
        0x25 => Some(Instruction { op: Operation::And, mode: Mode::ZeroPage }),
        0x26 => Some(Instruction { op: Operation::Rol, mode: Mode::ZeroPage }),
        0x28 => Some(Instruction { op: Operation::Plp, mode: Mode::Implied }),
        0x29 => Some(Instruction { op: Operation::And, mode: Mode::Immediate }),
        0x2a => Some(Instruction { op: Operation::Rol, mode: Mode::Accumulator }),
        0x2c => Some(Instruction { op: Operation::Bit, mode: Mode::Absolute }),
        0x2d => Some(Instruction { op: Operation::And, mode: Mode::Absolute }),
        0x2e => Some(Instruction { op: Operation::Rol, mode: Mode::Absolute }),
        0x30 => Some(Instruction { op: Operation::Bmi, mode: Mode::Relative }),
        0x31 => Some(Instruction { op: Operation::And, mode: Mode::IndirectIndexed }),
        0x35 => Some(Instruction { op: Operation::And, mode: Mode::ZeroPageX }),
        0x36 => Some(Instruction { op: Operation::Rol, mode: Mode::ZeroPageX }),
        0x38 => Some(Instruction { op: Operation::Sec, mode: Mode::Implied }),
        0x39 => Some(Instruction { op: Operation::And, mode: Mode::AbsoluteY }),
        0x3d => Some(Instruction { op: Operation::And, mode: Mode::AbsoluteX }),
        0x3e => Some(Instruction { op: Operation::Rol, mode: Mode::AbsoluteX }),
        0x40 => Some(Instruction { op: Operation::Rti, mode: Mode::Implied }),
        0x41 => Some(Instruction { op: Operation::Eor, mode: Mode::IndexedIndirect }),
        0x45 => Some(Instruction { op: Operation::Eor, mode: Mode::ZeroPage }),
        0x46 => Some(Instruction { op: Operation::Lsr, mode: Mode::ZeroPage }),
        0x48 => Some(Instruction { op: Operation::Pha, mode: Mode::Implied }),
        0x49 => Some(Instruction { op: Operation::Eor, mode: Mode::Immediate }),
        0x4a => Some(Instruction { op: Operation::Lsr, mode: Mode::Accumulator }),
        0x4c => Some(Instruction { op: Operation::Jmp, mode: Mode::Absolute }),
        0x4d => Some(Instruction { op: Operation::Eor, mode: Mode::Absolute }),
        0x4e => Some(Instruction { op: Operation::Lsr, mode: Mode::Absolute }),
        0x50 => Some(Instruction { op: Operation::Bvc, mode: Mode::Relative }),
        0x51 => Some(Instruction { op: Operation::Eor, mode: Mode::IndirectIndexed }),
        0x55 => Some(Instruction { op: Operation::Eor, mode: Mode::ZeroPageX }),
        0x56 => Some(Instruction { op: Operation::Lsr, mode: Mode::ZeroPageX }),
        0x58 => Some(Instruction { op: Operation::Cli, mode: Mode::Implied }),
        0x59 => Some(Instruction { op: Operation::Eor, mode: Mode::AbsoluteY }),
        0x5d => Some(Instruction { op: Operation::Eor, mode: Mode::AbsoluteX }),
        0x5e => Some(Instruction { op: Operation::Lsr, mode: Mode::AbsoluteX }),
        0x60 => Some(Instruction { op: Operation::Rts, mode: Mode::Implied }),
        0x61 => Some(Instruction { op: Operation::Adc, mode: Mode::IndexedIndirect }),
        0x65 => Some(Instruction { op: Operation::Adc, mode: Mode::ZeroPage }),
        0x66 => Some(Instruction { op: Operation::Ror, mode: Mode::ZeroPage }),
        0x68 => Some(Instruction { op: Operation::Pla, mode: Mode::Implied }),
        0x69 => Some(Instruction { op: Operation::Adc, mode: Mode::Immediate }),
        0x6a => Some(Instruction { op: Operation::Ror, mode: Mode::Accumulator }),
        0x6c => Some(Instruction { op: Operation::Jmp, mode: Mode::Indirect }),
        0x6d => Some(Instruction { op: Operation::Adc, mode: Mode::Absolute }),
        0x6e => Some(Instruction { op: Operation::Ror, mode: Mode::Absolute }),
        0x70 => Some(Instruction { op: Operation::Bvs, mode: Mode::Relative }),
        0x71 => Some(Instruction { op: Operation::Adc, mode: Mode::IndirectIndexed }),
        0x75 => Some(Instruction { op: Operation::Adc, mode: Mode::ZeroPageX }),
        0x76 => Some(Instruction { op: Operation::Ror, mode: Mode::ZeroPageX }),
        0x78 => Some(Instruction { op: Operation::Sei, mode: Mode::Implied }),
        0x79 => Some(Instruction { op: Operation::Adc, mode: Mode::AbsoluteY }),
        0x7d => Some(Instruction { op: Operation::Adc, mode: Mode::AbsoluteX }),
        0x7e => Some(Instruction { op: Operation::Ror, mode: Mode::AbsoluteX }),
        0x81 => Some(Instruction { op: Operation::Sta, mode: Mode::IndexedIndirect }),
        0x84 => Some(Instruction { op: Operation::Sty, mode: Mode::ZeroPage }),
        0x85 => Some(Instruction { op: Operation::Sta, mode: Mode::ZeroPage }),
        0x86 => Some(Instruction { op: Operation::Stx, mode: Mode::ZeroPage }),
        0x88 => Some(Instruction { op: Operation::Dey, mode: Mode::Implied }),
        0x8a => Some(Instruction { op: Operation::Txa, mode: Mode::Implied }),
        0x8c => Some(Instruction { op: Operation::Sty, mode: Mode::Absolute }),
        0x8d => Some(Instruction { op: Operation::Sta, mode: Mode::Absolute }),
        0x8e => Some(Instruction { op: Operation::Stx, mode: Mode::Absolute }),
        0x90 => Some(Instruction { op: Operation::Bcc, mode: Mode::Relative }),
        0x91 => Some(Instruction { op: Operation::Sta, mode: Mode::IndirectIndexed }),
        0x94 => Some(Instruction { op: Operation::Sty, mode: Mode::ZeroPageX }),
        0x95 => Some(Instruction { op: Operation::Sta, mode: Mode::ZeroPageX }),
        0x96 => Some(Instruction { op: Operation::Stx, mode: Mode::ZeroPageY }),
        0x98 => Some(Instruction { op: Operation::Tya, mode: Mode::Implied }),
        0x99 => Some(Instruction { op: Operation::Sta, mode: Mode::AbsoluteY }),
        0x9a => Some(Instruction { op: Operation::Txs, mode: Mode::Implied }),
        0x9d => Some(Instruction { op: Operation::Sta, mode: Mode::AbsoluteX }),
        0xa0 => Some(Instruction { op: Operation::Ldy, mode: Mode::Immediate }),
        0xa1 => Some(Instruction { op: Operation::Lda, mode: Mode::IndexedIndirect }),
        0xa2 => Some(Instruction { op: Operation::Ldx, mode: Mode::Immediate }),
        0xa4 => Some(Instruction { op: Operation::Ldy, mode: Mode::ZeroPage }),
        0xa5 => Some(Instruction { op: Operation::Lda, mode: Mode::ZeroPage }),
        0xa6 => Some(Instruction { op: Operation::Ldx, mode: Mode::ZeroPage }),
        0xa8 => Some(Instruction { op: Operation::Tay, mode: Mode::Implied }),
        0xa9 => Some(Instruction { op: Operation::Lda, mode: Mode::Immediate }),
        0xaa => Some(Instruction { op: Operation::Tax, mode: Mode::Implied }),
        0xac => Some(Instruction { op: Operation::Ldy, mode: Mode::Absolute }),
        0xad => Some(Instruction { op: Operation::Lda, mode: Mode::Absolute }),
        0xae => Some(Instruction { op: Operation::Ldx, mode: Mode::Absolute }),
        0xb0 => Some(Instruction { op: Operation::Bcs, mode: Mode::Relative }),
        0xb1 => Some(Instruction { op: Operation::Lda, mode: Mode::IndirectIndexed }),
        0xb4 => Some(Instruction { op: Operation::Ldy, mode: Mode::ZeroPageX }),
        0xb5 => Some(Instruction { op: Operation::Lda, mode: Mode::ZeroPageX }),
        0xb6 => Some(Instruction { op: Operation::Ldx, mode: Mode::ZeroPageY }),
        0xb8 => Some(Instruction { op: Operation::Clv, mode: Mode::Implied }),
        0xb9 => Some(Instruction { op: Operation::Lda, mode: Mode::AbsoluteY }),
        0xba => Some(Instruction { op: Operation::Tsx, mode: Mode::Implied }),
        0xbc => Some(Instruction { op: Operation::Ldy, mode: Mode::AbsoluteX }),
        0xbd => Some(Instruction { op: Operation::Lda, mode: Mode::AbsoluteX }),
        0xbe => Some(Instruction { op: Operation::Ldx, mode: Mode::AbsoluteY }),
        0xc0 => Some(Instruction { op: Operation::Cpy, mode: Mode::Immediate }),
        0xc1 => Some(Instruction { op: Operation::Cmp, mode: Mode::IndexedIndirect }),
        0xc4 => Some(Instruction { op: Operation::Cpy, mode: Mode::ZeroPage }),
        0xc5 => Some(Instruction { op: Operation::Cmp, mode: Mode::ZeroPage }),
        0xc6 => Some(Instruction { op: Operation::Dec, mode: Mode::ZeroPage }),
        0xc8 => Some(Instruction { op: Operation::Iny, mode: Mode::Implied }),
        0xc9 => Some(Instruction { op: Operation::Cmp, mode: Mode::Immediate }),
        0xca => Some(Instruction { op: Operation::Dex, mode: Mode::Implied }),
        0xcc => Some(Instruction { op: Operation::Cpy, mode: Mode::Absolute }),
        0xcd => Some(Instruction { op: Operation::Cmp, mode: Mode::Absolute }),
        0xce => Some(Instruction { op: Operation::Dec, mode: Mode::Absolute }),
        0xd0 => Some(Instruction { op: Operation::Bne, mode: Mode::Relative }),
        0xd1 => Some(Instruction { op: Operation::Cmp, mode: Mode::IndirectIndexed }),
        0xd5 => Some(Instruction { op: Operation::Cmp, mode: Mode::ZeroPageX }),
        0xd6 => Some(Instruction { op: Operation::Dec, mode: Mode::ZeroPageX }),
        0xd8 => Some(Instruction { op: Operation::Cld, mode: Mode::Implied }),
        0xd9 => Some(Instruction { op: Operation::Cmp, mode: Mode::AbsoluteY }),
        0xdd => Some(Instruction { op: Operation::Cmp, mode: Mode::AbsoluteX }),
        0xde => Some(Instruction { op: Operation::Dec, mode: Mode::AbsoluteX }),
        0xe0 => Some(Instruction { op: Operation::Cpx, mode: Mode::Immediate }),
        0xe1 => Some(Instruction { op: Operation::Sbc, mode: Mode::IndexedIndirect }),
        0xe4 => Some(Instruction { op: Operation::Cpx, mode: Mode::ZeroPage }),
        0xe5 => Some(Instruction { op: Operation::Sbc, mode: Mode::ZeroPage }),
        0xe6 => Some(Instruction { op: Operation::Inc, mode: Mode::ZeroPage }),
        0xe8 => Some(Instruction { op: Operation::Inx, mode: Mode::Implied }),
        0xe9 => Some(Instruction { op: Operation::Sbc, mode: Mode::Immediate }),
        0xea => Some(Instruction { op: Operation::Nop, mode: Mode::Implied }),
        0xec => Some(Instruction { op: Operation::Cpx, mode: Mode::Absolute }),
        0xed => Some(Instruction { op: Operation::Sbc, mode: Mode::Absolute }),
        0xee => Some(Instruction { op: Operation::Inc, mode: Mode::Absolute }),
        0xf0 => Some(Instruction { op: Operation::Beq, mode: Mode::Relative }),
        0xf1 => Some(Instruction { op: Operation::Sbc, mode: Mode::IndirectIndexed }),
        0xf5 => Some(Instruction { op: Operation::Sbc, mode: Mode::ZeroPageX }),
        0xf6 => Some(Instruction { op: Operation::Inc, mode: Mode::ZeroPageX }),
        0xf8 => Some(Instruction { op: Operation::Sed, mode: Mode::Implied }),
        0xf9 => Some(Instruction { op: Operation::Sbc, mode: Mode::AbsoluteY }),
        0xfd => Some(Instruction { op: Operation::Sbc, mode: Mode::AbsoluteX }),
        0xfe => Some(Instruction { op: Operation::Inc, mode: Mode::AbsoluteX }),
        _ => None,
    };
    proof {
        match r {
            Some(found) => {
                assert(found.encoding() == Some(opcode));
                assert forall|i: Instruction| i.encoding() == Some(opcode) implies i == found by {
                    lemma_encoding_injective(found, i);
                }
            },
            None => {
                assert forall|i: Instruction| i.encoding() != Some(opcode) by {
                    assert(i.encoding() != Some(opcode));
                }
            },
        }
    }
    r
}

} // verus!
