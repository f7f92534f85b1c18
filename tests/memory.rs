use chip8::memory::{check_legal_mem_access, Memory, MemoryFault};

#[test]
fn memory_test_read_write_valid() {
    let mut mem = Memory::new();
    mem.write_byte(0x200, 0xff).unwrap();
    assert_eq!(Ok(0xff), mem.read_byte(0x200));
    mem.write_word(0x400, 0xf1f3).unwrap();
    assert_eq!(Ok(0xf1f3), mem.read_word(0x400));
    assert_eq!(Ok(0xf1), mem.read_byte(0x400));
    assert_eq!(Ok(0xf3), mem.read_byte(0x401));
    mem.write_byte(0xfff, 0xff).unwrap();
}

#[test]
fn memory_test_write_data_valid() {
    let mut mem = Memory::new();
    mem.write_data(0x0, &[0xf1, 0x1e, 0x5a, 0x1f]).unwrap();
    assert_eq!(Ok(0xf1), mem.read_byte(0x0));
    assert_eq!(Ok(0x1e), mem.read_byte(0x01));
    assert_eq!(Ok(0x5a), mem.read_byte(0x02));
    assert_eq!(Ok(0x1f), mem.read_byte(0x03));
}

#[test]
fn test_read_write_valid() {
    let mut mem = Memory::new();
    mem.write_byte(0x200, 0xff).unwrap();
    assert_eq!(Ok(0xff), mem.read_byte(0x200));
    mem.write_word(0x400, 0xf1f3).unwrap();
    assert_eq!(Ok(0xf1f3), mem.read_word(0x400));
    assert_eq!(Ok(0xf1), mem.read_byte(0x400));
    assert_eq!(Ok(0xf3), mem.read_byte(0x401));
    mem.write_byte(0xfff, 0xff).unwrap();
}

#[test]
fn test_write_data_valid() {
    let mut mem = Memory::new();
    mem.write_data(0x0, &[0xf1, 0x1e, 0x5a, 0x1f]).unwrap();
    assert_eq!(Ok(0xf1), mem.read_byte(0x0));
    assert_eq!(Ok(0x1e), mem.read_byte(0x01));
    assert_eq!(Ok(0x5a), mem.read_byte(0x02));
    assert_eq!(Ok(0x1f), mem.read_byte(0x03));
}

#[test]
fn read_byte_out_of_bounds_faults() {
    let mem = Memory::new();
    assert_eq!(
        Err(MemoryFault { address: 0x1000, num_bytes: 1 }),
        mem.read_byte(0x1000)
    );
}

#[test]
fn write_word_out_of_bounds_faults() {
    let mut mem = Memory::new();
    assert_eq!(
        Err(MemoryFault { address: 0x1000, num_bytes: 2 }),
        mem.write_word(0x1000, 0x12)
    );
    // a word that straddles the end
    assert_eq!(
        Err(MemoryFault { address: 0xfff, num_bytes: 2 }),
        mem.write_word(0xfff, 0x1234)
    );
    assert_eq!(Err(MemoryFault { address: 0xfff, num_bytes: 2 }), mem.read_word(0xfff));
    assert_eq!(Ok(0), mem.read_byte(0xfff));
}

#[test]
fn range_accesses_fault_past_the_end() {
    let mut mem = Memory::new();
    assert_eq!(
        Err(MemoryFault { address: 0xffe, num_bytes: 3 }),
        mem.read_data(0xffe, 3)
    );
    assert_eq!(
        Err(MemoryFault { address: 0xffe, num_bytes: 3 }),
        mem.write_data(0xffe, &[1, 2, 3])
    );
    let mut dest = [0u8; 4];
    assert_eq!(
        Err(MemoryFault { address: 0xffd, num_bytes: 4 }),
        mem.copy_into(&mut dest, 0xffd, 4)
    );
    assert_eq!([0u8; 4], dest);
    assert_eq!(Ok(vec![0, 0]), mem.read_data(0xffe, 2));
}

#[test]
fn check_legal_mem_access_bounds() {
    assert_eq!(Ok(()), check_legal_mem_access(0, 4096));
    assert_eq!(Ok(()), check_legal_mem_access(0xfff, 1));
    assert_eq!(Ok(()), check_legal_mem_access(0x1000, 0));
    assert_eq!(
        Err(MemoryFault { address: 0, num_bytes: 4097 }),
        check_legal_mem_access(0, 4097)
    );
    assert_eq!(
        Err(MemoryFault { address: 0xffff, num_bytes: 1 }),
        check_legal_mem_access(0xffff, 1)
    );
}

#[test]
fn write_then_read_round_trips() {
    let mut mem = Memory::new();
    let data: Vec<u8> = (0..=255u8).collect();
    mem.write_data(0xf00, &data).unwrap();
    assert_eq!(Ok(data.clone()), mem.read_data(0xf00, 256));
    mem.write_word(0xffe, 0xbeef).unwrap();
    assert_eq!(Ok(0xbeef), mem.read_word(0xffe));
    let mut dest = [0xaau8; 6];
    mem.copy_into(&mut dest, 0xf10, 4).unwrap();
    assert_eq!([0x10, 0x11, 0x12, 0x13, 0xaa, 0xaa], dest);
}

#[test]
fn new_memory_holds_glyphs() {
    let mem = Memory::new();
    assert_eq!(Ok(vec![0xF0, 0x90, 0x90, 0x90, 0xF0]), mem.read_data(0, 5));
    assert_eq!(Ok(vec![0xF0, 0x80, 0xF0, 0x80, 0x80]), mem.read_data(75, 5));
    assert_eq!(Ok(0), mem.read_byte(80));
    assert_eq!(Ok(0), mem.read_byte(0x200));
}

#[test]
fn load_rom_rejects_oversized_programs() {
    let mut mem = Memory::new();
    assert_eq!(Ok(()), mem.load_rom(&vec![7u8; 4096 - 512]));
    assert_eq!(Ok(7), mem.read_byte(0xfff));
    let mut mem = Memory::new();
    assert_eq!(
        Err(MemoryFault { address: 0x200, num_bytes: 4096 - 512 + 1 }),
        mem.load_rom(&vec![7u8; 4096 - 512 + 1])
    );
    assert_eq!(Ok(0), mem.read_byte(0x200));
}
