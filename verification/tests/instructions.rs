use mos6502::cpu::m6502_driver::{tick_cycle, ClockCycle, CycleTicker, IllegalOpcode, Interrupt};
use mos6502::cpu::M6502;

const ORIGIN: u16 = 0x0200;

/// A full address space with `program` at `ORIGIN`.
fn memory_with(program: &[u8]) -> Vec<u8> {
    let mut mem = vec![0u8; 0x1_0000];
    mem[ORIGIN as usize..ORIGIN as usize + program.len()].copy_from_slice(program);
    mem
}

/// A zeroed state whose program counter is at `ORIGIN`.
fn state_at_origin() -> M6502 {
    let mut state = M6502::new();
    state.pc = ORIGIN;
    state
}

/// Runs the instruction at the program counter to its end and returns the
/// number of clock cycles it took, the opcode fetch included.
fn step(state: &mut M6502, mem: &mut Vec<u8>) -> u32 {
    let opcode = mem[state.pc as usize];
    let mut fetched = *state;
    fetched.pc = fetched.pc.wrapping_add(1);
    let mut cpu = CycleTicker::new(fetched, opcode);
    let mut cycles = 1;
    loop {
        cycles += 1;
        assert!(cycles <= 7, "opcode {:#04x} did not complete", opcode);
        if tick_cycle(&mut cpu, mem).unwrap() {
            break;
        }
    }
    assert_eq!(cpu.cycle, ClockCycle::Cycle1);
    assert_eq!((cpu.addr, cpu.data, cpu.crossed, cpu.interrupt), (0, 0, false, None));
    *state = cpu.state;
    cycles
}

#[test]
fn lda_immediate_loads_and_sets_zero_and_negative() {
    let mut mem = memory_with(&[0xa9, 0x00, 0xa9, 0x80, 0xa9, 0x7f]);
    let mut s = state_at_origin();
    assert_eq!(step(&mut s, &mut mem), 2);
    assert_eq!((s.a, s.flag_z(), s.flag_n(), s.pc), (0x00, true, false, 0x0202));
    step(&mut s, &mut mem);
    assert_eq!((s.a, s.flag_z(), s.flag_n(), s.pc), (0x80, false, true, 0x0204));
    step(&mut s, &mut mem);
    assert_eq!((s.a, s.flag_z(), s.flag_n(), s.pc), (0x7f, false, false, 0x0206));
}

#[test]
fn inx_wraps_from_ff_to_zero() {
    let mut mem = memory_with(&[0xe8]);
    let mut s = state_at_origin();
    s.x = 0xff;
    assert_eq!(step(&mut s, &mut mem), 2);
    assert_eq!(s.x, 0x00);
    assert!(s.flag_z());
    assert!(!s.flag_n());
    assert_eq!(s.pc, 0x0201);
}

#[test]
fn register_increments_and_decrements_wrap() {
    let mut mem = memory_with(&[0xc8, 0xca, 0x88, 0xe8]);
    let mut s = state_at_origin();
    s.y = 0xff;
    s.x = 0x00;
    step(&mut s, &mut mem);
    assert_eq!((s.y, s.flag_z(), s.flag_n()), (0x00, true, false));
    step(&mut s, &mut mem);
    assert_eq!((s.x, s.flag_z(), s.flag_n()), (0xff, false, true));
    step(&mut s, &mut mem);
    assert_eq!((s.y, s.flag_z(), s.flag_n()), (0xff, false, true));
    step(&mut s, &mut mem);
    assert_eq!((s.x, s.flag_z(), s.flag_n()), (0x00, true, false));
}

#[test]
fn inc_and_dec_wrap_the_byte_in_memory() {
    let mut mem = memory_with(&[0xe6, 0x10, 0xc6, 0x10, 0xc6, 0x10]);
    mem[0x10] = 0xff;
    let mut s = state_at_origin();
    assert_eq!(step(&mut s, &mut mem), 5);
    assert_eq!((mem[0x10], s.flag_z(), s.flag_n()), (0x00, true, false));
    step(&mut s, &mut mem);
    assert_eq!((mem[0x10], s.flag_z(), s.flag_n()), (0xff, false, true));
    step(&mut s, &mut mem);
    assert_eq!((mem[0x10], s.flag_z(), s.flag_n()), (0xfe, false, true));
}

#[test]
fn push_at_sp_zero_writes_page_one_and_wraps() {
    let mut mem = memory_with(&[0x48]);
    let mut s = state_at_origin();
    s.a = 0x42;
    s.sp = 0x00;
    assert_eq!(step(&mut s, &mut mem), 3);
    assert_eq!(s.sp, 0xff);
    assert_eq!(mem[0x0100], 0x42);
    assert_eq!(mem[0x00ff], 0x00);
    assert_eq!(mem[0x0000], 0x00);
}

#[test]
fn pull_at_sp_ff_reads_the_bottom_of_page_one() {
    let mut mem = memory_with(&[0x68]);
    mem[0x0100] = 0x99;
    mem[0x0200 - 1] = 0x11;
    let mut s = state_at_origin();
    s.sp = 0xff;
    assert_eq!(step(&mut s, &mut mem), 4);
    assert_eq!((s.a, s.sp), (0x99, 0x00));
    assert!(s.flag_n());
    assert!(!s.flag_z());
}

#[test]
fn php_pushes_the_break_bit_and_the_unused_bit() {
    let mut mem = memory_with(&[0x08]);
    let mut s = state_at_origin();
    s.sp = 0xff;
    s.flags = 0x81;
    assert_eq!(step(&mut s, &mut mem), 3);
    assert_eq!(mem[0x01ff], 0xb1);
    assert_eq!(s.flags, 0x81);
    assert_eq!(s.sp, 0xfe);
    assert_eq!(s.status_byte(true), 0xb1);
    assert_eq!(s.status_byte(false), 0xa1);
}

#[test]
fn plp_takes_the_six_flags_only() {
    let mut mem = memory_with(&[0x28, 0x28]);
    mem[0x0180] = 0xff;
    mem[0x0181] = 0x30;
    let mut s = state_at_origin();
    s.sp = 0x7f;
    assert_eq!(step(&mut s, &mut mem), 4);
    assert_eq!(s.flags, 0xcf);
    assert_eq!(s.sp, 0x80);
    step(&mut s, &mut mem);
    assert_eq!(s.flags, 0x00);
}

#[test]
fn jsr_pushes_the_return_address_minus_one_and_rts_returns() {
    let mut mem = memory_with(&[0x20, 0x34, 0x12, 0xea]);
    mem[0x1234] = 0x60;
    let mut s = state_at_origin();
    s.sp = 0xff;
    assert_eq!(step(&mut s, &mut mem), 6);
    assert_eq!(s.pc, 0x1234);
    assert_eq!(s.sp, 0xfd);
    assert_eq!((mem[0x01ff], mem[0x01fe]), (0x02, 0x02));
    assert_eq!(step(&mut s, &mut mem), 6);
    assert_eq!(s.pc, 0x0203);
    assert_eq!(s.sp, 0xff);
}

#[test]
fn jsr_and_rts_wrap_the_stack_pointer() {
    let mut mem = memory_with(&[0x20, 0x00, 0x30]);
    mem[0x3000] = 0x60;
    let mut s = state_at_origin();
    s.sp = 0x00;
    step(&mut s, &mut mem);
    assert_eq!(s.sp, 0xfe);
    assert_eq!((mem[0x0100], mem[0x01ff]), (0x02, 0x02));
    step(&mut s, &mut mem);
    assert_eq!((s.pc, s.sp), (0x0203, 0x00));
}

#[test]
fn brk_pushes_pc_and_flags_and_takes_the_vector() {
    let mut mem = memory_with(&[0x00, 0xff]);
    mem[0xfffe] = 0x78;
    mem[0xffff] = 0x56;
    let mut s = state_at_origin();
    s.sp = 0xff;
    s.flags = 0x43;
    assert_eq!(step(&mut s, &mut mem), 7);
    assert_eq!(s.pc, 0x5678);
    assert_eq!(s.sp, 0xfc);
    assert_eq!((mem[0x01ff], mem[0x01fe], mem[0x01fd]), (0x02, 0x02, 0x73));
    assert!(s.flag_i());
    assert_eq!(s.flags, 0x47);
}

#[test]
fn rti_pulls_flags_then_pc() {
    let mut mem = memory_with(&[0x40]);
    mem[0x01fd] = 0xf3;
    mem[0x01fe] = 0x02;
    mem[0x01ff] = 0x03;
    let mut s = state_at_origin();
    s.sp = 0xfc;
    assert_eq!(step(&mut s, &mut mem), 6);
    assert_eq!(s.pc, 0x0302);
    assert_eq!(s.sp, 0xff);
    assert_eq!(s.flags, 0xc3);
}

#[test]
fn brk_then_rti_comes_back_behind_the_padding_byte() {
    let mut mem = memory_with(&[0x00, 0xea, 0xea]);
    mem[0xfffe] = 0x00;
    mem[0xffff] = 0x40;
    mem[0x4000] = 0x40;
    let mut s = state_at_origin();
    s.sp = 0xff;
    s.flags = 0x81;
    step(&mut s, &mut mem);
    assert_eq!(s.pc, 0x4000);
    step(&mut s, &mut mem);
    assert_eq!((s.pc, s.sp, s.flags), (0x0202, 0xff, 0x81));
}

#[test]
fn jmp_absolute_and_indirect() {
    let mut mem = memory_with(&[0x4c, 0x00, 0x30]);
    mem[0x3000] = 0x6c;
    mem[0x3001] = 0x20;
    mem[0x3002] = 0x40;
    mem[0x4020] = 0xcd;
    mem[0x4021] = 0xab;
    let mut s = state_at_origin();
    assert_eq!(step(&mut s, &mut mem), 3);
    assert_eq!(s.pc, 0x3000);
    assert_eq!(step(&mut s, &mut mem), 5);
    assert_eq!(s.pc, 0xabcd);
}

#[test]
fn jmp_indirect_does_not_leave_the_page_of_its_pointer() {
    let mut mem = memory_with(&[0x6c, 0xff, 0x10]);
    mem[0x10ff] = 0x34;
    mem[0x1000] = 0x12;
    mem[0x1100] = 0x99;
    let mut s = state_at_origin();
    step(&mut s, &mut mem);
    assert_eq!(s.pc, 0x1234);
}

#[test]
fn compare_leaves_the_register_and_sets_carry_zero_negative() {
    let pairs: [(u8, u8); 12] = [
        (0x00, 0x00),
        (0x42, 0x42),
        (0xff, 0xff),
        (0x00, 0x01),
        (0x01, 0x00),
        (0x00, 0xff),
        (0xff, 0x00),
        (0x7f, 0x80),
        (0x80, 0x7f),
        (0x80, 0x00),
        (0x00, 0x80),
        (0x10, 0x20),
    ];
    for (a, m) in pairs {
        for flags in [0x00u8, 0xcf] {
            let mut mem = memory_with(&[0xc9, m]);
            let mut s = state_at_origin();
            s.a = a;
            s.flags = flags;
            assert_eq!(step(&mut s, &mut mem), 2);
            assert_eq!(s.a, a);
            assert_eq!(s.flag_c(), a >= m);
            assert_eq!(s.flag_z(), a == m);
            assert_eq!(s.flag_n(), a.wrapping_sub(m) & 0x80 != 0);
            assert_eq!(s.flags & 0x7c, flags & 0x7c);
        }
    }
}

#[test]
fn cpx_and_cpy_compare_their_registers() {
    let mut mem = memory_with(&[0xe0, 0x10, 0xc0, 0x30]);
    let mut s = state_at_origin();
    s.x = 0x20;
    s.y = 0x20;
    s.a = 0x77;
    step(&mut s, &mut mem);
    assert_eq!((s.flag_c(), s.flag_z(), s.flag_n()), (true, false, false));
    step(&mut s, &mut mem);
    assert_eq!((s.flag_c(), s.flag_z(), s.flag_n()), (false, false, true));
    assert_eq!((s.a, s.x, s.y), (0x77, 0x20, 0x20));
}

/// Runs ADC or SBC immediate and returns the accumulator and the flags
/// carry, overflow, zero and negative.
fn arith(opcode: u8, a: u8, m: u8, carry: bool, decimal: bool) -> (u8, bool, bool, bool, bool) {
    let mut mem = memory_with(&[opcode, m]);
    let mut s = state_at_origin();
    s.a = a;
    s.set_flag_c(carry);
    s.set_flag_d(decimal);
    assert_eq!(step(&mut s, &mut mem), 2);
    assert_eq!(s.flag_d(), decimal);
    (s.a, s.flag_c(), s.flag_v(), s.flag_z(), s.flag_n())
}

#[test]
fn adc_in_binary() {
    assert_eq!(arith(0x69, 0x50, 0x10, false, false), (0x60, false, false, false, false));
    assert_eq!(arith(0x69, 0x50, 0x50, false, false), (0xa0, false, true, false, true));
    assert_eq!(arith(0x69, 0x50, 0x90, false, false), (0xe0, false, false, false, true));
    assert_eq!(arith(0x69, 0x50, 0xd0, false, false), (0x20, true, false, false, false));
    assert_eq!(arith(0x69, 0xd0, 0x10, false, false), (0xe0, false, false, false, true));
    assert_eq!(arith(0x69, 0xd0, 0x50, false, false), (0x20, true, false, false, false));
    assert_eq!(arith(0x69, 0xd0, 0x90, false, false), (0x60, true, true, false, false));
    assert_eq!(arith(0x69, 0xd0, 0xd0, false, false), (0xa0, true, false, false, true));
    assert_eq!(arith(0x69, 0xff, 0x00, true, false), (0x00, true, false, true, false));
    assert_eq!(arith(0x69, 0x7f, 0x00, true, false), (0x80, false, true, false, true));
    assert_eq!(arith(0x69, 0xff, 0xff, true, false), (0xff, true, false, false, true));
}

#[test]
fn sbc_in_binary() {
    assert_eq!(arith(0xe9, 0x50, 0xf0, true, false), (0x60, false, false, false, false));
    assert_eq!(arith(0xe9, 0x50, 0xb0, true, false), (0xa0, false, true, false, true));
    assert_eq!(arith(0xe9, 0x50, 0x70, true, false), (0xe0, false, false, false, true));
    assert_eq!(arith(0xe9, 0x50, 0x30, true, false), (0x20, true, false, false, false));
    assert_eq!(arith(0xe9, 0xd0, 0xf0, true, false), (0xe0, false, false, false, true));
    assert_eq!(arith(0xe9, 0xd0, 0xb0, true, false), (0x20, true, false, false, false));
    assert_eq!(arith(0xe9, 0xd0, 0x70, true, false), (0x60, true, true, false, false));
    assert_eq!(arith(0xe9, 0xd0, 0x30, true, false), (0xa0, true, false, false, true));
    assert_eq!(arith(0xe9, 0x00, 0x00, false, false), (0xff, false, false, false, true));
    assert_eq!(arith(0xe9, 0x42, 0x42, true, false), (0x00, true, false, true, false));
    assert_eq!(arith(0xe9, 0x80, 0x00, false, false), (0x7f, true, true, false, false));
}

#[test]
fn adc_in_decimal() {
    assert_eq!(arith(0x69, 0x12, 0x34, false, true).0, 0x46);
    assert_eq!(arith(0x69, 0x15, 0x26, false, true).0, 0x41);
    assert_eq!(arith(0x69, 0x58, 0x46, true, true), (0x05, true, true, false, true));
    assert_eq!(arith(0x69, 0x81, 0x92, false, true), (0x73, true, true, false, false));
    assert_eq!(arith(0x69, 0x99, 0x01, false, true), (0x00, true, false, false, true));
    assert_eq!(arith(0x69, 0x00, 0x00, false, true), (0x00, false, false, true, false));
    assert_eq!(arith(0x69, 0x79, 0x00, true, true), (0x80, false, true, false, true));
    assert_eq!(arith(0x69, 0x24, 0x56, false, true), (0x80, false, true, false, true));
    assert_eq!(arith(0x69, 0x93, 0x82, false, true), (0x75, true, true, false, false));
    assert_eq!(arith(0x69, 0x89, 0x76, false, true), (0x65, true, false, false, false));
    assert_eq!(arith(0x69, 0x80, 0xf0, false, true), (0xd0, true, true, false, false));
    assert_eq!(arith(0x69, 0x2f, 0x4f, false, true), (0x74, false, false, false, false));
}

#[test]
fn sbc_in_decimal() {
    assert_eq!(arith(0xe9, 0x46, 0x12, true, true), (0x34, true, false, false, false));
    assert_eq!(arith(0xe9, 0x40, 0x13, true, true), (0x27, true, false, false, false));
    assert_eq!(arith(0xe9, 0x32, 0x02, false, true), (0x29, true, false, false, false));
    assert_eq!(arith(0xe9, 0x12, 0x21, true, true), (0x91, false, false, false, true));
    assert_eq!(arith(0xe9, 0x21, 0x34, true, true), (0x87, false, false, false, true));
    assert_eq!(arith(0xe9, 0x00, 0x00, false, true), (0x99, false, false, false, true));
    assert_eq!(arith(0xe9, 0x00, 0x01, true, true), (0x99, false, false, false, true));
    assert_eq!(arith(0xe9, 0x0a, 0x00, true, true), (0x0a, true, false, false, false));
    assert_eq!(arith(0xe9, 0x0b, 0x00, false, true), (0x0a, true, false, false, false));
    assert_eq!(arith(0xe9, 0x9a, 0x00, true, true), (0x9a, true, false, false, true));
    assert_eq!(arith(0xe9, 0x9b, 0x00, false, true), (0x9a, true, false, false, true));
}

#[test]
fn logic_operations_work_on_the_accumulator() {
    let mut mem = memory_with(&[0x29, 0x0f, 0x09, 0x80, 0x49, 0xff, 0x49, 0x70]);
    let mut s = state_at_origin();
    s.a = 0x3c;
    step(&mut s, &mut mem);
    assert_eq!((s.a, s.flag_z(), s.flag_n()), (0x0c, false, false));
    step(&mut s, &mut mem);
    assert_eq!((s.a, s.flag_z(), s.flag_n()), (0x8c, false, true));
    step(&mut s, &mut mem);
    assert_eq!((s.a, s.flag_z(), s.flag_n()), (0x73, false, false));
    step(&mut s, &mut mem);
    assert_eq!((s.a, s.flag_z(), s.flag_n()), (0x03, false, false));
}

#[test]
fn bit_tests_without_changing_the_accumulator() {
    let mut mem = memory_with(&[0x24, 0x10, 0x2c, 0x00, 0x30]);
    mem[0x10] = 0xc0;
    mem[0x3000] = 0x0f;
    let mut s = state_at_origin();
    s.a = 0x0f;
    assert_eq!(step(&mut s, &mut mem), 3);
    assert_eq!((s.a, s.flag_z(), s.flag_n(), s.flag_v()), (0x0f, true, true, true));
    assert_eq!(step(&mut s, &mut mem), 4);
    assert_eq!((s.a, s.flag_z(), s.flag_n(), s.flag_v()), (0x0f, false, false, false));
}

#[test]
fn shifts_and_rotations_of_the_accumulator() {
    let mut mem = memory_with(&[0x0a, 0x4a, 0x2a, 0x6a, 0x6a, 0x2a]);
    let mut s = state_at_origin();
    s.a = 0x81;
    assert_eq!(step(&mut s, &mut mem), 2);
    assert_eq!((s.a, s.flag_c(), s.flag_z(), s.flag_n()), (0x02, true, false, false));
    step(&mut s, &mut mem);
    assert_eq!((s.a, s.flag_c(), s.flag_z(), s.flag_n()), (0x01, false, false, false));
    s.set_flag_c(true);
    s.a = 0x80;
    step(&mut s, &mut mem);
    assert_eq!((s.a, s.flag_c(), s.flag_z(), s.flag_n()), (0x01, true, false, false));
    step(&mut s, &mut mem);
    assert_eq!((s.a, s.flag_c(), s.flag_z(), s.flag_n()), (0x80, true, false, true));
    s.set_flag_c(false);
    s.a = 0x01;
    step(&mut s, &mut mem);
    assert_eq!((s.a, s.flag_c(), s.flag_z(), s.flag_n()), (0x00, true, true, false));
    s.a = 0x7f;
    step(&mut s, &mut mem);
    assert_eq!((s.a, s.flag_c(), s.flag_z(), s.flag_n()), (0xff, false, false, true));
}

#[test]
fn shifts_and_rotations_of_memory() {
    let mut mem = memory_with(&[0x06, 0x10, 0x46, 0x11, 0x26, 0x12, 0x66, 0x13]);
    mem[0x10] = 0xc0;
    mem[0x11] = 0x03;
    mem[0x12] = 0x40;
    mem[0x13] = 0x02;
    let mut s = state_at_origin();
    s.a = 0x55;
    assert_eq!(step(&mut s, &mut mem), 5);
    assert_eq!((mem[0x10], s.flag_c(), s.flag_n()), (0x80, true, true));
    step(&mut s, &mut mem);
    assert_eq!((mem[0x11], s.flag_c(), s.flag_z()), (0x01, true, false));
    step(&mut s, &mut mem);
    assert_eq!((mem[0x12], s.flag_c(), s.flag_n()), (0x81, false, true));
    step(&mut s, &mut mem);
    assert_eq!((mem[0x13], s.flag_c(), s.flag_z()), (0x01, false, false));
    assert_eq!(s.a, 0x55);
}

#[test]
fn transfers_set_flags_except_txs() {
    let mut mem = memory_with(&[0xaa, 0xa8, 0x9a, 0xba, 0x8a, 0x98]);
    let mut s = state_at_origin();
    s.a = 0x80;
    step(&mut s, &mut mem);
    assert_eq!((s.x, s.flag_n(), s.flag_z()), (0x80, true, false));
    step(&mut s, &mut mem);
    assert_eq!(s.y, 0x80);
    s.x = 0x00;
    let before = s.flags;
    step(&mut s, &mut mem);
    assert_eq!((s.sp, s.flags), (0x00, before));
    s.sp = 0x7f;
    step(&mut s, &mut mem);
    assert_eq!((s.x, s.flag_n(), s.flag_z()), (0x7f, false, false));
    s.x = 0x00;
    step(&mut s, &mut mem);
    assert_eq!((s.a, s.flag_z()), (0x00, true));
    step(&mut s, &mut mem);
    assert_eq!((s.a, s.flag_n()), (0x80, true));
}

#[test]
fn flag_instructions_set_and_clear_one_flag() {
    let mut mem = memory_with(&[0x38, 0xf8, 0x78, 0x18, 0xd8, 0x58, 0xb8, 0xea]);
    let mut s = state_at_origin();
    s.flags = 0x40;
    step(&mut s, &mut mem);
    assert_eq!(s.flags, 0x41);
    step(&mut s, &mut mem);
    assert_eq!(s.flags, 0x49);
    step(&mut s, &mut mem);
    assert_eq!(s.flags, 0x4d);
    step(&mut s, &mut mem);
    assert_eq!(s.flags, 0x4c);
    step(&mut s, &mut mem);
    assert_eq!(s.flags, 0x44);
    step(&mut s, &mut mem);
    assert_eq!(s.flags, 0x40);
    step(&mut s, &mut mem);
    assert_eq!(s.flags, 0x00);
    let before = s;
    assert_eq!(step(&mut s, &mut mem), 2);
    assert_eq!(s, M6502 { pc: before.pc + 1, ..before });
}

#[test]
fn stores_write_their_register_and_no_flag() {
    let mut mem = memory_with(&[0x85, 0x10, 0x8e, 0x00, 0x30, 0x94, 0x20, 0x9d, 0xf0, 0x30]);
    let mut s = state_at_origin();
    s.a = 0x00;
    s.x = 0x22;
    s.y = 0x33;
    s.flags = 0x81;
    mem[0x10] = 0xff;
    assert_eq!(step(&mut s, &mut mem), 3);
    assert_eq!(mem[0x10], 0x00);
    assert_eq!(step(&mut s, &mut mem), 4);
    assert_eq!(mem[0x3000], 0x22);
    assert_eq!(step(&mut s, &mut mem), 4);
    assert_eq!(mem[0x42], 0x33);
    s.a = 0x5a;
    assert_eq!(step(&mut s, &mut mem), 5);
    assert_eq!(mem[0x3112], 0x5a);
    assert_eq!(s.flags, 0x81);
}

#[test]
fn branches_follow_their_flag() {
    let cases: [(u8, u8, bool); 8] = [
        (0x90, M6502::FLAG_C, false),
        (0xb0, M6502::FLAG_C, true),
        (0xd0, M6502::FLAG_Z, false),
        (0xf0, M6502::FLAG_Z, true),
        (0x10, M6502::FLAG_N, false),
        (0x30, M6502::FLAG_N, true),
        (0x50, M6502::FLAG_V, false),
        (0x70, M6502::FLAG_V, true),
    ];
    for (opcode, mask, when_set) in cases {
        for set in [false, true] {
            let mut mem = memory_with(&[opcode, 0x05]);
            let mut s = state_at_origin();
            s.flags = if set { mask } else { !mask };
            step(&mut s, &mut mem);
            let taken = set == when_set;
            assert_eq!(s.pc, if taken { 0x0207 } else { 0x0202 });
        }
    }
}

#[test]
fn branches_go_backwards_and_across_pages() {
    let mut mem = memory_with(&[0xd0, 0xfb]);
    let mut s = state_at_origin();
    step(&mut s, &mut mem);
    assert_eq!(s.pc, 0x01fd);
    let mut mem = memory_with(&[0xd0, 0x80]);
    let mut s = state_at_origin();
    step(&mut s, &mut mem);
    assert_eq!(s.pc, 0x0182);
    let mut mem = vec![0u8; 0x1_0000];
    mem[0xfffd] = 0xd0;
    mem[0xfffe] = 0x7f;
    let mut s = M6502::new();
    s.pc = 0xfffd;
    step(&mut s, &mut mem);
    assert_eq!(s.pc, 0x007e);
}

#[test]
fn zero_page_indexing_stays_in_page_zero() {
    let mut mem = memory_with(&[0xb5, 0xf0, 0xb6, 0xff]);
    mem[0x0010] = 0x11;
    mem[0x0110] = 0x99;
    mem[0x0001] = 0x22;
    let mut s = state_at_origin();
    s.x = 0x20;
    s.y = 0x02;
    assert_eq!(step(&mut s, &mut mem), 4);
    assert_eq!(s.a, 0x11);
    assert_eq!(step(&mut s, &mut mem), 4);
    assert_eq!(s.x, 0x22);
}

#[test]
fn absolute_indexing_reaches_the_next_page() {
    let mut mem = memory_with(&[0xbd, 0xf0, 0x30, 0xb9, 0xff, 0xff]);
    mem[0x3110] = 0x77;
    mem[0x0001] = 0x66;
    let mut s = state_at_origin();
    s.x = 0x20;
    s.y = 0x02;
    step(&mut s, &mut mem);
    assert_eq!(s.a, 0x77);
    step(&mut s, &mut mem);
    assert_eq!(s.a, 0x66);
}

#[test]
fn indexed_indirect_wraps_its_pointer_in_page_zero() {
    let mut mem = memory_with(&[0xa1, 0xf0, 0x81, 0xf0]);
    mem[0x00ff] = 0x00;
    mem[0x0000] = 0x30;
    mem[0x0100] = 0x99;
    mem[0x3000] = 0x5a;
    let mut s = state_at_origin();
    s.x = 0x0f;
    assert_eq!(step(&mut s, &mut mem), 6);
    assert_eq!(s.a, 0x5a);
    s.a = 0xa5;
    assert_eq!(step(&mut s, &mut mem), 6);
    assert_eq!(mem[0x3000], 0xa5);
}

#[test]
fn indirect_indexed_adds_y_to_the_stored_address() {
    let mut mem = memory_with(&[0xb1, 0xff, 0x91, 0x40]);
    mem[0x00ff] = 0xf0;
    mem[0x0000] = 0x30;
    mem[0x0100] = 0x99;
    mem[0x3110] = 0x5a;
    mem[0x0040] = 0x00;
    mem[0x0041] = 0x50;
    let mut s = state_at_origin();
    s.y = 0x20;
    assert_eq!(step(&mut s, &mut mem), 6);
    assert_eq!(s.a, 0x5a);
    assert_eq!(step(&mut s, &mut mem), 6);
    assert_eq!(mem[0x5020], 0x5a);
}

#[test]
fn loads_of_x_and_y() {
    let mut mem = memory_with(&[0xa2, 0x80, 0xa0, 0x00, 0xae, 0x00, 0x30, 0xbc, 0x00, 0x30]);
    mem[0x3000] = 0x12;
    mem[0x3012] = 0x34;
    let mut s = state_at_origin();
    step(&mut s, &mut mem);
    assert_eq!((s.x, s.flag_n()), (0x80, true));
    step(&mut s, &mut mem);
    assert_eq!((s.y, s.flag_z()), (0x00, true));
    step(&mut s, &mut mem);
    assert_eq!(s.x, 0x12);
    step(&mut s, &mut mem);
    assert_eq!(s.y, 0x34);
}

#[test]
fn the_program_counter_wraps_at_the_end_of_memory() {
    let mut mem = vec![0u8; 0x1_0000];
    mem[0xffff] = 0xa9;
    mem[0x0000] = 0x42;
    let mut s = M6502::new();
    s.pc = 0xffff;
    step(&mut s, &mut mem);
    assert_eq!((s.a, s.pc), (0x42, 0x0001));
}

#[test]
fn an_undefined_opcode_is_reported_and_changes_nothing() {
    let mut mem = memory_with(&[0x02, 0x00]);
    let before = mem.clone();
    let mut s = state_at_origin();
    s.pc = 0x0201;
    let mut cpu = CycleTicker::new(s, 0x02);
    let untouched = cpu;
    assert_eq!(tick_cycle(&mut cpu, &mut mem), Err(IllegalOpcode { opcode: 0x02 }));
    assert_eq!(cpu, untouched);
    assert_eq!(mem, before);
    assert_eq!(tick_cycle(&mut cpu, &mut mem), Err(IllegalOpcode { opcode: 0x02 }));
    for opcode in [0x03u8, 0x1a, 0x80, 0x9e, 0xff, 0xeb, 0x04] {
        let mut cpu = CycleTicker::new(s, opcode);
        assert_eq!(tick_cycle(&mut cpu, &mut mem), Err(IllegalOpcode { opcode }));
    }
}

#[test]
fn a_completed_ticker_fetches_the_next_opcode_itself() {
    let mut mem = memory_with(&[0xa9, 0x10, 0xaa, 0x02]);
    let mut cpu = CycleTicker::new(state_at_origin(), 0xea);
    cpu.cycle = ClockCycle::Cycle1;
    assert_eq!(tick_cycle(&mut cpu, &mut mem), Ok(false));
    assert_eq!((cpu.op, cpu.cycle, cpu.state.pc), (0xa9, ClockCycle::Cycle2, 0x0201));
    assert_eq!(tick_cycle(&mut cpu, &mut mem), Ok(true));
    assert_eq!((cpu.state.a, cpu.cycle, cpu.state.pc), (0x10, ClockCycle::Cycle1, 0x0202));
    assert_eq!(tick_cycle(&mut cpu, &mut mem), Ok(false));
    assert_eq!(tick_cycle(&mut cpu, &mut mem), Ok(true));
    assert_eq!(cpu.state.x, 0x10);
    assert_eq!(tick_cycle(&mut cpu, &mut mem), Ok(false));
    assert_eq!(cpu.op, 0x02);
    assert_eq!(tick_cycle(&mut cpu, &mut mem), Err(IllegalOpcode { opcode: 0x02 }));
}

#[test]
fn an_instruction_can_be_resumed_from_a_copy_at_any_cycle() {
    let mut mem = memory_with(&[0xfe, 0xf0, 0x30]);
    mem[0x3100] = 0x41;
    let mut s = state_at_origin();
    s.x = 0x10;
    s.pc = 0x0201;
    let mut cpu = CycleTicker::new(s, 0xfe);
    for _ in 0..3 {
        assert_eq!(tick_cycle(&mut cpu, &mut mem), Ok(false));
    }
    let snapshot = cpu;
    let mut resumed = snapshot;
    let mut other = mem.clone();
    while !tick_cycle(&mut cpu, &mut mem).unwrap() {}
    while !tick_cycle(&mut resumed, &mut other).unwrap() {}
    assert_eq!(cpu, resumed);
    assert_eq!(mem, other);
    assert_eq!(mem[0x3100], 0x42);
}

/// Takes the hardware interrupt and returns the state after its sequence
/// and the number of clock cycles it took, the first one included.
fn take(interrupt: Interrupt, state: M6502, mem: &mut Vec<u8>) -> (M6502, u32) {
    let mut cpu = CycleTicker::interrupt(state, interrupt);
    assert_eq!((cpu.op, cpu.cycle, cpu.interrupt), (0x00, ClockCycle::Cycle2, Some(interrupt)));
    let mut cycles = 1;
    loop {
        cycles += 1;
        assert!(cycles <= 7);
        if tick_cycle(&mut cpu, mem).unwrap() {
            break;
        }
    }
    assert_eq!((cpu.cycle, cpu.interrupt), (ClockCycle::Cycle1, None));
    (cpu.state, cycles)
}

#[test]
fn an_interrupt_request_pushes_pc_and_flags_with_the_break_bit_clear() {
    let mut mem = memory_with(&[0xea]);
    mem[0xfffe] = 0x00;
    mem[0xffff] = 0x80;
    mem[0xfffa] = 0x00;
    mem[0xfffb] = 0x90;
    let mut s = state_at_origin();
    s.sp = 0xff;
    s.flags = 0xc1;
    let (after, cycles) = take(Interrupt::Irq, s, &mut mem);
    assert_eq!(cycles, 7);
    assert_eq!(after.pc, 0x8000);
    assert_eq!(after.sp, 0xfc);
    assert_eq!((mem[0x01ff], mem[0x01fe], mem[0x01fd]), (0x02, 0x00, 0xe1));
    assert_eq!(after.flags, 0xc5);
    assert_eq!((after.a, after.x, after.y), (s.a, s.x, s.y));
}

#[test]
fn the_interrupt_that_cannot_be_disabled_takes_its_own_vector() {
    let mut mem = memory_with(&[0xea]);
    mem[0xfffe] = 0x00;
    mem[0xffff] = 0x80;
    mem[0xfffa] = 0x34;
    mem[0xfffb] = 0x90;
    let mut s = state_at_origin();
    s.sp = 0x01;
    s.flags = 0x04;
    let (after, cycles) = take(Interrupt::Nmi, s, &mut mem);
    assert_eq!(cycles, 7);
    assert_eq!(after.pc, 0x9034);
    assert_eq!(after.sp, 0xfe);
    assert_eq!((mem[0x0101], mem[0x0100], mem[0x01ff]), (0x02, 0x00, 0x24));
    assert_eq!(after.flags, 0x04);
}

#[test]
fn rti_resumes_the_interrupted_program() {
    let mut mem = memory_with(&[0xa9, 0x42]);
    mem[0xfffe] = 0x00;
    mem[0xffff] = 0x80;
    mem[0x8000] = 0x40;
    let mut s = state_at_origin();
    s.sp = 0xff;
    s.flags = 0x81;
    let (mut s, _) = take(Interrupt::Irq, s, &mut mem);
    assert!(s.flag_i());
    assert_eq!(step(&mut s, &mut mem), 6);
    assert_eq!((s.pc, s.sp, s.flags), (0x0200, 0xff, 0x81));
    step(&mut s, &mut mem);
    assert_eq!(s.a, 0x42);
}

#[test]
fn a_loop_that_sums_one_to_ten_runs_cycle_by_cycle() {
    // LDA #0; LDX #10; loop: CLC; STX $10; ADC $10; DEX; BNE loop; STA $11
    let program = [
        0xa9, 0x00, 0xa2, 0x0a, 0x18, 0x86, 0x10, 0x65, 0x10, 0xca, 0xd0, 0xf8, 0x85, 0x11,
    ];
    let mut mem = memory_with(&program);
    let mut cpu = CycleTicker::new(state_at_origin(), 0xea);
    cpu.cycle = ClockCycle::Cycle1;
    let end = ORIGIN + program.len() as u16;
    let mut cycles = 0;
    while cpu.state.pc != end || cpu.cycle != ClockCycle::Cycle1 {
        tick_cycle(&mut cpu, &mut mem).unwrap();
        cycles += 1;
        assert!(cycles < 1000);
    }
    assert_eq!(mem[0x11], 55);
    assert_eq!(cpu.state.a, 55);
    assert_eq!(cpu.state.x, 0);
    assert_eq!(cycles, 2 + 2 + 10 * (2 + 3 + 3 + 2) + 9 * 3 + 2 + 3);
}

#[test]
fn decimal_mode_counts_like_a_clock() {
    // SED; CLC; LDA #$58; ADC #$01; ADC #$01; SEC; SBC #$01
    let mut mem = memory_with(&[0xf8, 0x18, 0xa9, 0x58, 0x69, 0x01, 0x69, 0x01, 0x38, 0xe9, 0x01]);
    let mut s = state_at_origin();
    for _ in 0..4 {
        step(&mut s, &mut mem);
    }
    assert_eq!(s.a, 0x59);
    step(&mut s, &mut mem);
    assert_eq!((s.a, s.flag_c()), (0x60, false));
    step(&mut s, &mut mem);
    step(&mut s, &mut mem);
    assert_eq!((s.a, s.flag_c()), (0x59, true));
}
