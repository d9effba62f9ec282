use mos6502::memory::{Memory, Ram, RangeOverflow, Rom};

#[test]
fn ram_round_trips_a_write() {
    let mut bytes = [0u8; 0x100];
    let mut ram = Ram::new(&mut bytes);
    ram.write(0x10, 0x42);
    assert_eq!(ram.read(0x10), 0x42);
    assert_eq!(ram.get(0x10), Some(0x42));
}

#[test]
fn ram_get_past_the_end_is_absent() {
    let mut bytes = [0u8; 0x100];
    let mut ram = Ram::new(&mut bytes);
    assert_eq!(ram.get(0xffff), None);
    assert_eq!(ram.get(0x100), None);
    assert_eq!(ram.get(0xff), Some(0));
    assert_eq!(ram.read(0xffff), 0);
}

#[test]
fn ram_writes_past_the_end_are_dropped() {
    let mut bytes = [7u8; 4];
    {
        let mut ram = Ram::new(&mut bytes);
        ram.write(4, 0xaa);
        ram.set(0xffff, 0xbb);
        assert_eq!(ram.get(4), None);
    }
    assert_eq!(bytes, [7u8; 4]);
}

#[test]
fn ram_changes_reach_the_borrowed_bytes() {
    let mut bytes = [0u8; 4];
    {
        let mut ram = Ram::new(&mut bytes);
        ram.set(1, 0x11);
        ram.write(2, 0x22);
    }
    assert_eq!(bytes, [0, 0x11, 0x22, 0]);
}

#[test]
fn rom_rejects_every_write() {
    let bytes: Vec<u8> = (0..=255u8).collect();
    let mut rom = Rom::new(&bytes);
    for addr in 0..0x100u16 {
        rom.write(addr, 0xaa);
        assert_eq!(rom.get(addr), Some(addr as u8));
        rom.set(addr, 0xaa);
        assert_eq!(rom.get(addr), Some(addr as u8));
        assert_eq!(rom.read(addr), addr as u8);
    }
    assert_eq!(rom.get(0x100), None);
    assert_eq!(rom.read(0x100), 0);
}

#[test]
fn rom_slices_write_nothing() {
    let bytes = [1u8, 2, 3, 4];
    let mut rom = Rom::new(&bytes);
    assert_eq!(rom.set_slice(0, &[9, 9]), Ok(()));
    assert_eq!(rom.write_slice(2, &[9, 9]), Ok(()));
    let mut seen = [0u8; 4];
    assert_eq!(rom.read_slice(0, &mut seen), Ok(()));
    assert_eq!(seen, [1, 2, 3, 4]);
    assert_eq!(rom.set_slice(0xffff, &[9, 9]), Err(RangeOverflow { addr: 0xffff, len: 2 }));
    assert_eq!(rom.write_slice(0xffff, &[9, 9]), Err(RangeOverflow { addr: 0xffff, len: 2 }));
}

#[test]
fn vec_is_read_write_memory() {
    let mut mem: Vec<u8> = vec![0; 16];
    Memory::set(&mut mem, 3, 0x33);
    mem.write(4, 0x44);
    assert_eq!(Memory::get(&mem, 3), Some(0x33));
    assert_eq!(mem.read(4), 0x44);
    assert_eq!(Memory::get(&mem, 16), None);
    assert_eq!(mem.read(16), 0);
    mem.write(16, 1);
    assert_eq!(mem.len(), 16);
}

#[test]
fn boxed_memory_is_the_memory_inside() {
    let mut mem: Box<Vec<u8>> = Box::new(vec![0; 8]);
    mem.write(7, 0x77);
    assert_eq!(mem.read(7), 0x77);
    assert_eq!(Memory::get(&mem, 8), None);
}

#[test]
fn slices_apply_the_scalar_operation_to_each_address() {
    let mut mem: Vec<u8> = vec![0; 8];
    assert_eq!(mem.set_slice(2, &[1, 2, 3]), Ok(()));
    assert_eq!(mem, vec![0, 0, 1, 2, 3, 0, 0, 0]);
    assert_eq!(mem.write_slice(6, &[8, 9, 10]), Ok(()));
    assert_eq!(mem, vec![0, 0, 1, 2, 3, 0, 8, 9]);
    let mut seen = [0xffu8; 4];
    assert_eq!(mem.read_slice(5, &mut seen), Ok(()));
    assert_eq!(seen, [0, 8, 9, 0]);
    let mut found = [Some(0xffu8); 4];
    assert_eq!(mem.get_slice(6, &mut found), Ok(()));
    assert_eq!(found, [Some(8), Some(9), None, None]);
}

#[test]
fn slices_that_pass_the_last_address_are_rejected() {
    let mut mem: Vec<u8> = vec![0; 0x1_0000];
    let data = [1u8, 2, 3];
    assert_eq!(mem.set_slice(0xfffe, &data), Err(RangeOverflow { addr: 0xfffe, len: 3 }));
    assert_eq!(mem.write_slice(0xfffe, &data), Err(RangeOverflow { addr: 0xfffe, len: 3 }));
    let mut seen = [0xeeu8; 3];
    assert_eq!(mem.read_slice(0xfffe, &mut seen), Err(RangeOverflow { addr: 0xfffe, len: 3 }));
    assert_eq!(seen, [0xee; 3]);
    let mut found = [Some(0xeeu8); 3];
    assert_eq!(mem.get_slice(0xfffe, &mut found), Err(RangeOverflow { addr: 0xfffe, len: 3 }));
    assert_eq!(found, [Some(0xee); 3]);
    assert!(mem.iter().all(|&b| b == 0));
    assert_eq!(mem.set_slice(0xfffe, &data[..2]), Ok(()));
    assert_eq!(mem[0xfffe], 1);
    assert_eq!(mem[0xffff], 2);
    assert_eq!(mem[0], 0);
    assert_eq!(mem.write_slice(0xffff, &[]), Ok(()));
}

#[test]
fn ram_and_rom_can_be_indexed_and_seen_as_bytes() {
    let mut bytes = [1u8, 2, 3];
    let mut ram = Ram::new(&mut bytes);
    ram.write(0, 7);
    assert_eq!(ram[0], 7);
    assert_eq!(ram[2], 3);
    assert_eq!(ram.as_ref(), &[7, 2, 3]);
    ram.as_mut()[1] = 8;
    assert_eq!(ram.get(1), Some(8));
    let image = [4u8, 5, 6];
    let rom = Rom::new(&image);
    assert_eq!(rom[1], 5);
    assert_eq!(rom.as_ref(), &[4, 5, 6]);
}

#[test]
fn byte_ranges_are_memories() {
    let image = [1u8, 2, 3];
    let mut shared: &[u8] = &image;
    Memory::set(&mut shared, 0, 9);
    shared.write(1, 9);
    assert_eq!(Memory::get(&shared, 0), Some(1));
    assert_eq!(shared.read(1), 2);
    assert_eq!(shared.read(3), 0);
    assert_eq!(Memory::get(&shared, 3), None);

    let mut buffer = [1u8, 2, 3];
    let mut unique: &mut [u8] = &mut buffer;
    Memory::set(&mut unique, 0, 9);
    unique.write(1, 8);
    unique.write(3, 7);
    assert_eq!(Memory::get(&unique, 0), Some(9));
    assert_eq!(unique.read(1), 8);
    assert_eq!(Memory::get(&unique, 3), None);
    assert_eq!(buffer, [9, 8, 3]);

    let mut boxed: Box<[u8]> = vec![1u8, 2, 3].into_boxed_slice();
    Memory::set(&mut boxed, 2, 9);
    boxed.write(3, 7);
    assert_eq!(boxed.read(2), 9);
    assert_eq!(Memory::get(&boxed, 3), None);
    assert_eq!(boxed.len(), 3);
}
