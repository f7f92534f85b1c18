use chip8::cpu::{Cpu, Fault};
use chip8::framebuffer::FrameBuffer;
use chip8::instr::Instr;
use chip8::keypad::Keypad;
use chip8::memory::{Memory, MemoryFault};

struct Rig {
    cpu: Cpu,
    frame_buffer: FrameBuffer,
    mem: Memory,
    keypad: Keypad,
}

fn rig() -> Rig {
    Rig {
        cpu: Cpu::new(),
        frame_buffer: FrameBuffer::default(),
        mem: Memory::new(),
        keypad: Keypad::default(),
    }
}

fn run(r: &mut Rig, instr: Instr) -> Result<(), Fault> {
    r.cpu.exec(instr, &mut r.frame_buffer, &mut r.mem, &r.keypad)
}

#[allow(non_snake_case)]
#[test]
fn cpu_test_exec_LdBVx() {
    let mut frame_buffer = FrameBuffer::default();
    let mut cpu = Cpu::new();
    let mut mem = Memory::new();
    let mut keypad = Keypad::default();
    cpu.i = 0x210;
    cpu.v[0] = 139;
    let instr = Instr::LdBVx(0);
    cpu.exec(instr, &mut frame_buffer, &mut mem, &mut keypad).unwrap();
    assert_eq!(Ok(1), mem.read_byte(cpu.i));
    assert_eq!(Ok(3), mem.read_byte(cpu.i + 1));
    assert_eq!(Ok(9), mem.read_byte(cpu.i + 2))
}

#[test]
fn new_cpu_is_reset() {
    let cpu = Cpu::new();
    assert_eq!(0x200, cpu.pc);
    assert_eq!([0u8; 16], cpu.v);
    assert_eq!(0, cpu.i);
    assert_eq!(0, cpu.dt);
    assert_eq!(0, cpu.st);
    assert!(cpu.stack.is_empty());
}

#[test]
fn add_with_carry() {
    let mut r = rig();
    r.cpu.v[1] = 0xFF;
    r.cpu.v[2] = 0x01;
    run(&mut r, Instr::AddVxVy(1, 2)).unwrap();
    assert_eq!(0x00, r.cpu.v[1]);
    assert_eq!(1, r.cpu.v[15]);
    r.cpu.v[1] = 0x10;
    r.cpu.v[2] = 0x20;
    run(&mut r, Instr::AddVxVy(1, 2)).unwrap();
    assert_eq!(0x30, r.cpu.v[1]);
    assert_eq!(0, r.cpu.v[15]);
}

#[test]
fn subtract_with_borrow() {
    let mut r = rig();
    r.cpu.v[1] = 0x01;
    r.cpu.v[2] = 0x02;
    run(&mut r, Instr::SubVxVy(1, 2)).unwrap();
    assert_eq!(0xFF, r.cpu.v[1]);
    assert_eq!(0, r.cpu.v[15]);
    r.cpu.v[1] = 0x05;
    r.cpu.v[2] = 0x05;
    run(&mut r, Instr::SubVxVy(1, 2)).unwrap();
    assert_eq!(0x00, r.cpu.v[1]);
    assert_eq!(1, r.cpu.v[15]);
    r.cpu.v[1] = 0x02;
    r.cpu.v[2] = 0x01;
    run(&mut r, Instr::SubnVxVy(1, 2)).unwrap();
    assert_eq!(0xFF, r.cpu.v[1]);
    assert_eq!(0, r.cpu.v[15]);
}

#[test]
fn shifts_set_the_flag_from_the_operand() {
    let mut r = rig();
    r.cpu.v[3] = 0b1000_0011;
    run(&mut r, Instr::ShrVx(3)).unwrap();
    assert_eq!(0b0100_0001, r.cpu.v[3]);
    assert_eq!(1, r.cpu.v[15]);
    r.cpu.v[3] = 0b1000_0010;
    run(&mut r, Instr::ShlVx(3)).unwrap();
    assert_eq!(0b0000_0100, r.cpu.v[3]);
    assert_eq!(1, r.cpu.v[15]);
    r.cpu.v[3] = 0b0100_0000;
    run(&mut r, Instr::ShlVx(3)).unwrap();
    assert_eq!(0b1000_0000, r.cpu.v[3]);
    assert_eq!(0, r.cpu.v[15]);
}

#[test]
fn add_immediate_wraps_without_flag() {
    let mut r = rig();
    r.cpu.v[4] = 0xFE;
    r.cpu.v[15] = 7;
    run(&mut r, Instr::AddVxKK(4, 3)).unwrap();
    assert_eq!(1, r.cpu.v[4]);
    assert_eq!(7, r.cpu.v[15]);
}

#[test]
fn logic_and_loads() {
    let mut r = rig();
    run(&mut r, Instr::LdVxKK(1, 0b1100)).unwrap();
    run(&mut r, Instr::LdVxKK(2, 0b1010)).unwrap();
    run(&mut r, Instr::LdVxVy(3, 1)).unwrap();
    run(&mut r, Instr::OrVxVy(3, 2)).unwrap();
    assert_eq!(0b1110, r.cpu.v[3]);
    run(&mut r, Instr::LdVxVy(3, 1)).unwrap();
    run(&mut r, Instr::AndVxVy(3, 2)).unwrap();
    assert_eq!(0b1000, r.cpu.v[3]);
    run(&mut r, Instr::LdVxVy(3, 1)).unwrap();
    run(&mut r, Instr::XorVxVy(3, 2)).unwrap();
    assert_eq!(0b0110, r.cpu.v[3]);
}

#[test]
fn random_byte_is_masked() {
    let mut r = rig();
    r.cpu.v[5] = 0xAA;
    run(&mut r, Instr::RndVxKK(5, 0x00)).unwrap();
    assert_eq!(0, r.cpu.v[5]);
    run(&mut r, Instr::RndVxKK(5, 0x0F)).unwrap();
    assert_eq!(0, r.cpu.v[5] & 0xF0);
}

#[test]
fn exec_with_uses_the_given_random_byte() {
    let mut r = rig();
    r.cpu
        .exec_with(Instr::RndVxKK(5, 0x3C), 0xF5, &mut r.frame_buffer, &mut r.mem, &r.keypad)
        .unwrap();
    assert_eq!(0x34, r.cpu.v[5]);
}

#[test]
fn skips() {
    let mut r = rig();
    r.cpu.v[1] = 9;
    run(&mut r, Instr::SeVxKK(1, 9)).unwrap();
    assert_eq!(0x202, r.cpu.pc);
    run(&mut r, Instr::SneVxKK(1, 9)).unwrap();
    assert_eq!(0x202, r.cpu.pc);
    run(&mut r, Instr::SeVxVy(1, 2)).unwrap();
    assert_eq!(0x202, r.cpu.pc);
    run(&mut r, Instr::SneVxVy(1, 2)).unwrap();
    assert_eq!(0x204, r.cpu.pc);
}

#[test]
fn key_skips() {
    let mut r = rig();
    r.cpu.v[0] = 0xA;
    run(&mut r, Instr::SkpVx(0)).unwrap();
    assert_eq!(0x200, r.cpu.pc);
    run(&mut r, Instr::SknpVx(0)).unwrap();
    assert_eq!(0x202, r.cpu.pc);
    r.keypad.set_down(0xA, true);
    run(&mut r, Instr::SkpVx(0)).unwrap();
    assert_eq!(0x204, r.cpu.pc);
    run(&mut r, Instr::SknpVx(0)).unwrap();
    assert_eq!(0x204, r.cpu.pc);
    // a key code past the keypad is never down
    r.cpu.v[0] = 0x20;
    run(&mut r, Instr::SkpVx(0)).unwrap();
    assert_eq!(0x204, r.cpu.pc);
}

#[test]
fn key_wait_rewinds_until_a_key_is_down() {
    let mut r = rig();
    r.cpu.pc = 0x302;
    run(&mut r, Instr::LdVxK(4)).unwrap();
    assert_eq!(0x300, r.cpu.pc);
    r.keypad.set_down(7, true);
    r.keypad.set_down(12, true);
    r.cpu.pc = 0x302;
    run(&mut r, Instr::LdVxK(4)).unwrap();
    assert_eq!(0x302, r.cpu.pc);
    assert_eq!(7, r.cpu.v[4]);
}

#[test]
fn jumps_calls_and_returns() {
    let mut r = rig();
    run(&mut r, Instr::Jp(0x345)).unwrap();
    assert_eq!(0x345, r.cpu.pc);
    run(&mut r, Instr::Call(0x500)).unwrap();
    assert_eq!(0x500, r.cpu.pc);
    assert_eq!(vec![0x345], r.cpu.stack);
    run(&mut r, Instr::Ret).unwrap();
    assert_eq!(0x345, r.cpu.pc);
    assert!(r.cpu.stack.is_empty());
    // a return with no pending call changes nothing
    run(&mut r, Instr::Ret).unwrap();
    assert_eq!(0x345, r.cpu.pc);
    r.cpu.v[0] = 0x10;
    run(&mut r, Instr::JpV0(0x300)).unwrap();
    assert_eq!(0x310, r.cpu.pc);
}

#[test]
fn call_overflow_faults() {
    let mut r = rig();
    for k in 0..16u16 {
        run(&mut r, Instr::Call(0x400 + 2 * k)).unwrap();
    }
    assert_eq!(16, r.cpu.stack.len());
    let pc = r.cpu.pc;
    assert_eq!(Err(Fault::StackOverflow), run(&mut r, Instr::Call(0x600)));
    assert_eq!(pc, r.cpu.pc);
    assert_eq!(16, r.cpu.stack.len());
}

#[test]
fn timers_and_address_register() {
    let mut r = rig();
    r.cpu.v[2] = 42;
    run(&mut r, Instr::LdDTVx(2)).unwrap();
    run(&mut r, Instr::LdSTVx(2)).unwrap();
    assert_eq!(42, r.cpu.dt);
    assert_eq!(42, r.cpu.st);
    run(&mut r, Instr::LdVxDT(3)).unwrap();
    assert_eq!(42, r.cpu.v[3]);
    run(&mut r, Instr::LdI(0x123)).unwrap();
    run(&mut r, Instr::AddIVx(2)).unwrap();
    assert_eq!(0x123 + 42, r.cpu.i);
    r.cpu.v[2] = 0xB;
    run(&mut r, Instr::LdFVx(2)).unwrap();
    assert_eq!(55, r.cpu.i);
}

#[test]
fn timer_decay_stops_at_zero() {
    let mut cpu = Cpu::new();
    cpu.dt = 5;
    cpu.st = 1;
    for _ in 0..5 {
        cpu.update_timers();
    }
    assert_eq!(0, cpu.dt);
    assert_eq!(0, cpu.st);
    cpu.update_timers();
    assert_eq!(0, cpu.dt);
    assert_eq!(0, cpu.st);
}

#[test]
fn register_store_and_load() {
    let mut r = rig();
    for k in 0..16 {
        r.cpu.v[k] = k as u8 + 1;
    }
    r.cpu.i = 0x300;
    run(&mut r, Instr::LdIVx(3)).unwrap();
    assert_eq!(Ok(vec![1, 2, 3, 4, 0]), r.mem.read_data(0x300, 5));
    r.mem.write_data(0x400, &[9, 8, 7]).unwrap();
    r.cpu.i = 0x400;
    run(&mut r, Instr::LdVxI(2)).unwrap();
    assert_eq!([9, 8, 7, 4], r.cpu.v[0..4]);
}

#[test]
fn memory_instructions_fault_out_of_bounds() {
    let mut r = rig();
    r.cpu.i = 0xFFE;
    assert_eq!(
        Err(Fault::Memory(MemoryFault { address: 0xFFE, num_bytes: 3 })),
        run(&mut r, Instr::LdBVx(0))
    );
    assert_eq!(
        Err(Fault::Memory(MemoryFault { address: 0xFFE, num_bytes: 4 })),
        run(&mut r, Instr::LdIVx(3))
    );
    assert_eq!(
        Err(Fault::Memory(MemoryFault { address: 0xFFE, num_bytes: 4 })),
        run(&mut r, Instr::LdVxI(3))
    );
    assert_eq!(
        Err(Fault::Memory(MemoryFault { address: 0xFFE, num_bytes: 5 })),
        run(&mut r, Instr::DrwVxVyN(0, 1, 5))
    );
}

#[test]
fn draw_instruction_sets_collision_flag() {
    let mut r = rig();
    r.cpu.v[0] = 0xA;
    run(&mut r, Instr::LdFVx(0)).unwrap();
    r.cpu.v[1] = 62;
    r.cpu.v[2] = 30;
    run(&mut r, Instr::DrwVxVyN(1, 2, 5)).unwrap();
    assert_eq!(0, r.cpu.v[15]);
    assert!(r.frame_buffer.has_changed());
    assert_eq!(1, r.frame_buffer.get_pixel(62, 30));
    assert_eq!(1, r.frame_buffer.get_pixel(1, 30));
    assert_eq!(1, r.frame_buffer.get_pixel(62, 2));
    run(&mut r, Instr::DrwVxVyN(1, 2, 5)).unwrap();
    assert_eq!(1, r.cpu.v[15]);
    assert!(r.frame_buffer.get_buffer().iter().all(|p| *p == 0));
    r.frame_buffer.set_pixel(5, 5, 1);
    run(&mut r, Instr::Cls).unwrap();
    assert!(r.frame_buffer.get_buffer().iter().all(|p| *p == 0));
}
