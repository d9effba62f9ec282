use mos6502::cpu::M6502;

#[test]
fn a_new_state_is_all_zero() {
    let state = M6502::new();
    assert_eq!(state, M6502 { a: 0, x: 0, y: 0, sp: 0, pc: 0, flags: 0 });
    assert_eq!(M6502::default(), state);
}

#[test]
fn flag_masks_follow_the_packed_layout() {
    assert_eq!(M6502::FLAG_N, 0x80);
    assert_eq!(M6502::FLAG_V, 0x40);
    assert_eq!(M6502::FLAG_U, 0x20);
    assert_eq!(M6502::FLAG_B, 0x10);
    assert_eq!(M6502::FLAG_D, 0x08);
    assert_eq!(M6502::FLAG_I, 0x04);
    assert_eq!(M6502::FLAG_Z, 0x02);
    assert_eq!(M6502::FLAG_C, 0x01);
}

/// The six flags: mask, setter and getter.
fn flags() -> [(u8, fn(&mut M6502, bool), fn(&M6502) -> bool); 6] {
    [
        (0x80, M6502::set_flag_n, M6502::flag_n),
        (0x40, M6502::set_flag_v, M6502::flag_v),
        (0x08, M6502::set_flag_d, M6502::flag_d),
        (0x04, M6502::set_flag_i, M6502::flag_i),
        (0x02, M6502::set_flag_z, M6502::flag_z),
        (0x01, M6502::set_flag_c, M6502::flag_c),
    ]
}

#[test]
fn a_flag_setter_changes_no_other_bit() {
    // A linear congruential sequence stands in for random register values.
    let mut seed: u32 = 0x1234_5678;
    for _ in 0..200 {
        seed = seed.wrapping_mul(1_664_525).wrapping_add(1_013_904_223);
        let initial = (seed >> 24) as u8;
        for (mask, set, get) in flags() {
            for status in [false, true] {
                let mut state = M6502 { a: 1, x: 2, y: 3, sp: 4, pc: 5, flags: initial };
                set(&mut state, status);
                assert_eq!(state.flags & !mask, initial & !mask);
                assert_eq!(state.flags & mask != 0, status);
                assert_eq!(get(&state), status);
                assert_eq!((state.a, state.x, state.y, state.sp, state.pc), (1, 2, 3, 4, 5));
            }
        }
    }
}

#[test]
fn every_register_value_keeps_its_other_bits() {
    for initial in 0..=255u8 {
        for (mask, set, get) in flags() {
            let mut state = M6502::new();
            state.flags = initial;
            assert_eq!(get(&state), initial & mask != 0);
            set(&mut state, true);
            assert_eq!(state.flags, initial | mask);
            set(&mut state, false);
            assert_eq!(state.flags, initial & !mask);
        }
    }
}

#[test]
fn the_status_byte_has_the_unused_bit_and_the_given_break_bit() {
    for flags in 0..=255u8 {
        let mut state = M6502::new();
        state.flags = flags;
        assert_eq!(state.status_byte(true), flags | 0x30);
        assert_eq!(state.status_byte(false), (flags | 0x20) & !0x10);
        assert_eq!(state.flags, flags);
    }
}

#[test]
fn set_status_loads_six_flags_and_keeps_bits_four_and_five() {
    for flags in [0x00u8, 0x10, 0x20, 0x30, 0xff, 0x5a] {
        for value in 0..=255u8 {
            let mut state = M6502::new();
            state.flags = flags;
            state.set_status(value);
            assert_eq!(state.flags, (flags & 0x30) | (value & 0xcf));
        }
    }
}
