use chip8::cpu::Fault;
use chip8::machine::Chip8;
use chip8::memory::MemoryFault;

#[test]
fn runs_a_small_program() {
    let mut chip8 = Chip8::new();
    chip8.load_rom(&[0x60, 0x05, 0x70, 0x03, 0x00, 0xEE]).unwrap();
    assert_eq!(Ok(()), chip8.cpu_cycle());
    assert_eq!(5, chip8.cpu.v[0]);
    assert_eq!(0x202, chip8.cpu.pc);
    assert_eq!(Ok(()), chip8.cpu_cycle());
    assert_eq!(8, chip8.cpu.v[0]);
    assert_eq!(0x204, chip8.cpu.pc);
}

#[test]
fn unknown_opcode_faults() {
    let mut chip8 = Chip8::new();
    chip8.load_rom(&[0xFF, 0xFF]).unwrap();
    assert_eq!(Err(Fault::UnknownOpcode(0xFFFF)), chip8.cpu_cycle());
}

#[test]
fn fetch_past_the_end_faults() {
    let mut chip8 = Chip8::new();
    chip8.cpu.pc = 0xFFF;
    assert_eq!(
        Err(Fault::Memory(MemoryFault { address: 0xFFF, num_bytes: 2 })),
        chip8.cpu_cycle()
    );
    assert_eq!(0xFFF, chip8.cpu.pc);
}

#[test]
fn recursion_overflows_the_stack() {
    let mut chip8 = Chip8::new();
    chip8.load_rom(&[0x22, 0x00]).unwrap();
    for _ in 0..16 {
        assert_eq!(Ok(()), chip8.cpu_cycle());
    }
    assert_eq!(Err(Fault::StackOverflow), chip8.cpu_cycle());
}

#[test]
fn key_wait_spans_cycles() {
    let mut chip8 = Chip8::new();
    chip8.load_rom(&[0xF3, 0x0A]).unwrap();
    chip8.cpu_cycle().unwrap();
    chip8.cpu_cycle().unwrap();
    assert_eq!(0x200, chip8.cpu.pc);
    chip8.keypad.set_down(0xC, true);
    chip8.cpu_cycle().unwrap();
    assert_eq!(0x202, chip8.cpu.pc);
    assert_eq!(0xC, chip8.cpu.v[3]);
}

#[test]
fn pause_gates_cycles_and_timers() {
    let mut chip8 = Chip8::new();
    chip8.load_rom(&[0x60, 0x05]).unwrap();
    chip8.cpu.dt = 3;
    chip8.pause();
    assert!(chip8.paused);
    assert_eq!(Ok(()), chip8.cpu_cycle());
    chip8.timers_tick();
    assert_eq!(0x200, chip8.cpu.pc);
    assert_eq!(3, chip8.cpu.dt);
    chip8.resume();
    assert_eq!(Ok(()), chip8.cpu_cycle());
    chip8.timers_tick();
    assert_eq!(0x202, chip8.cpu.pc);
    assert_eq!(2, chip8.cpu.dt);
}

#[test]
fn oversized_program_is_rejected() {
    let mut chip8 = Chip8::new();
    assert_eq!(
        Err(MemoryFault { address: 0x200, num_bytes: 3585 }),
        chip8.load_rom(&vec![0u8; 3585])
    );
}
