use mos6502::cpu::m6502_driver::{branch_target, high, low, stack_address, word, ClockCycle};
use mos6502::cpu::{decode, Instruction, Kind, Mode, Operation};

#[test]
fn the_chip_has_151_opcodes() {
    let defined = (0..=255u8).filter(|&opcode| decode(opcode).is_some()).count();
    assert_eq!(defined, 151);
}

#[test]
fn no_two_opcodes_decode_to_one_instruction() {
    let found: Vec<Instruction> = (0..=255u8).filter_map(decode).collect();
    for (i, a) in found.iter().enumerate() {
        for b in &found[i + 1..] {
            assert_ne!(a, b);
        }
    }
}

#[test]
fn opcodes_decode_to_their_instruction() {
    let cases = [
        (0x00u8, Operation::Brk, Mode::Implied),
        (0xea, Operation::Nop, Mode::Implied),
        (0xa9, Operation::Lda, Mode::Immediate),
        (0xa5, Operation::Lda, Mode::ZeroPage),
        (0xb5, Operation::Lda, Mode::ZeroPageX),
        (0xb6, Operation::Ldx, Mode::ZeroPageY),
        (0xad, Operation::Lda, Mode::Absolute),
        (0xbd, Operation::Lda, Mode::AbsoluteX),
        (0xb9, Operation::Lda, Mode::AbsoluteY),
        (0xa1, Operation::Lda, Mode::IndexedIndirect),
        (0xb1, Operation::Lda, Mode::IndirectIndexed),
        (0x6c, Operation::Jmp, Mode::Indirect),
        (0x4c, Operation::Jmp, Mode::Absolute),
        (0x0a, Operation::Asl, Mode::Accumulator),
        (0xd0, Operation::Bne, Mode::Relative),
        (0xc9, Operation::Cmp, Mode::Immediate),
        (0x20, Operation::Jsr, Mode::Absolute),
        (0x96, Operation::Stx, Mode::ZeroPageY),
        (0xfe, Operation::Inc, Mode::AbsoluteX),
        (0xf1, Operation::Sbc, Mode::IndirectIndexed),
    ];
    for (opcode, op, mode) in cases {
        assert_eq!(decode(opcode), Some(Instruction { op, mode }), "opcode {:#04x}", opcode);
    }
}

#[test]
fn undefined_bytes_decode_to_nothing() {
    for opcode in [0x02u8, 0x03, 0x04, 0x0b, 0x1a, 0x3a, 0x80, 0x89, 0x9c, 0x9e, 0xcb, 0xeb, 0xff] {
        assert_eq!(decode(opcode), None, "opcode {:#04x}", opcode);
    }
}

#[test]
fn operations_are_reads_writes_or_modifications() {
    assert_eq!(Operation::Lda.kind(), Kind::Read);
    assert_eq!(Operation::Cmp.kind(), Kind::Read);
    assert_eq!(Operation::Adc.kind(), Kind::Read);
    assert_eq!(Operation::Sta.kind(), Kind::Write);
    assert_eq!(Operation::Stx.kind(), Kind::Write);
    assert_eq!(Operation::Sty.kind(), Kind::Write);
    for op in [Operation::Asl, Operation::Lsr, Operation::Rol, Operation::Ror, Operation::Inc, Operation::Dec] {
        assert_eq!(op.kind(), Kind::Modify);
    }
}

#[test]
fn words_are_made_of_a_high_and_a_low_byte() {
    assert_eq!(word(0x12, 0x34), 0x1234);
    assert_eq!(word(0xff, 0xff), 0xffff);
    assert_eq!(word(0x00, 0x00), 0x0000);
    assert_eq!((high(0xabcd), low(0xabcd)), (0xab, 0xcd));
    for value in [0x0000u16, 0x00ff, 0x0100, 0x7fff, 0x8000, 0xffff] {
        assert_eq!(word(high(value), low(value)), value);
    }
}

#[test]
fn the_stack_lives_in_page_one() {
    assert_eq!(stack_address(0x00), 0x0100);
    assert_eq!(stack_address(0xff), 0x01ff);
    assert_eq!(stack_address(0x80), 0x0180);
}

#[test]
fn branch_offsets_are_signed() {
    assert_eq!(branch_target(0x0202, 0x05), 0x0207);
    assert_eq!(branch_target(0x0202, 0x7f), 0x0281);
    assert_eq!(branch_target(0x0202, 0x80), 0x0182);
    assert_eq!(branch_target(0x0202, 0xff), 0x0201);
    assert_eq!(branch_target(0x0202, 0x00), 0x0202);
    assert_eq!(branch_target(0xffff, 0x01), 0x0000);
    assert_eq!(branch_target(0x0000, 0xff), 0xffff);
}

#[test]
fn clock_cycles_count_from_one_to_seven() {
    let cycles = [
        ClockCycle::Cycle1,
        ClockCycle::Cycle2,
        ClockCycle::Cycle3,
        ClockCycle::Cycle4,
        ClockCycle::Cycle5,
        ClockCycle::Cycle6,
        ClockCycle::Cycle7,
    ];
    for (i, cycle) in cycles.iter().enumerate() {
        assert_eq!(cycle.number() as usize, i + 1);
        assert_eq!(cycle.next(), cycles[(i + 1).min(6)]);
    }
}

#[test]
fn modes_name_their_index_register() {
    let state = mos6502::cpu::M6502 { a: 1, x: 2, y: 3, sp: 4, pc: 5, flags: 6 };
    assert_eq!(Mode::ZeroPageX.index(state), 2);
    assert_eq!(Mode::AbsoluteX.index(state), 2);
    assert_eq!(Mode::IndexedIndirect.index(state), 2);
    assert_eq!(Mode::ZeroPageY.index(state), 3);
    assert_eq!(Mode::AbsoluteY.index(state), 3);
    assert_eq!(Mode::IndirectIndexed.index(state), 3);
    assert_eq!(Mode::Absolute.index(state), 0);
    assert_eq!(Mode::Immediate.index(state), 0);
}
