//! Registers, program counter, call stack and timers, and the execution of
//! one instruction against memory, display and keypad.
use vstd::prelude::*;
use crate::framebuffer::{draw_spec, FrameBuffer, Screen, BUFFER_LEN};
use crate::instr::{decode, Instr};
use crate::keypad::{first_down, Keypad, KEY_COUNT};
use crate::memory::{access_ok, word_at, write_spec, Memory, MemoryFault};

verus! {

/// Address of the first instruction executed.
pub const PC_START: u16 = 0x200;

/// Maximum number of pending calls.
pub const STACK_SIZE: usize = 16;

/// Number of general-purpose registers.
pub const REGISTER_COUNT: usize = 16;

/// The register that receives carry, borrow, shift-out and collision flags.
pub const FLAG: usize = 15;

/// Number of bytes of one instruction.
pub const INSTR_WIDTH: u16 = 2;

/// Number of bytes of one glyph sprite.
pub const GLYPH_LEN: u16 = 5;

/// Relies on rand::random::<u8> (a byte from the thread-local generator):
/// any value may come back.
#[verifier::external_body]
fn random_byte() -> u8 {
    rand::random::<u8>()
}

/// A fault that stops the machine.
#[derive(Debug, Clone, Copy, PartialEq, Eq, Structural)]
pub enum Fault {
    /// An access outside the address space.
    Memory(MemoryFault),
    /// An opcode that matches no instruction pattern.
    UnknownOpcode(u16),
    /// A call with `STACK_SIZE` calls already pending.
    StackOverflow,
}

/// Everything an instruction can read or change, but the keypad.
pub struct MachineState {
    pub pc: u16,
    pub v: Seq<u8>,
    pub i: u16,
    pub dt: u8,
    pub st: u8,
    pub stack: Seq<u16>,
    pub mem: Seq<u8>,
    pub screen: Screen,
}

/// `a + b` on 16 bits, wrapping.
pub open spec fn add16(a: int, b: int) -> u16 {
    ((a + b) % 0x10000) as u16
}

/// `a - b` on 16 bits, wrapping.
pub open spec fn sub16(a: int, b: int) -> u16 {
    ((a - b + 0x10000) % 0x10000) as u16
}

/// `a + b` on 8 bits, wrapping.
pub open spec fn add8(a: int, b: int) -> u8 {
    ((a + b) % 0x100) as u8
}

/// `a - b` on 8 bits, wrapping.
pub open spec fn sub8(a: int, b: int) -> u8 {
    ((a - b + 0x100) % 0x100) as u8
}

/// 1 where `b` holds, else 0.
pub open spec fn flag(b: bool) -> u8 {
    if b {
        1
    } else {
        0
    }
}

/// The hundreds, tens and ones digits of `n`.
pub open spec fn bcd(n: u8) -> Seq<u8> {
    seq![n / 100, (n % 100) / 10, n % 10]
}

/// Whether key `k` exists and is down.
pub open spec fn key_down(keys: Seq<bool>, k: u8) -> bool {
    k < KEY_COUNT && keys[k as int]
}

/// `s` with the next instruction skipped where `cond` holds.
pub open spec fn skip_if(s: MachineState, cond: bool) -> MachineState {
    if cond {
        MachineState { pc: add16(s.pc as int, INSTR_WIDTH as int), ..s }
    } else {
        s
    }
}

/// `s` with register `x` set to `b`.
pub open spec fn set_v(s: MachineState, x: int, b: u8) -> MachineState {
    MachineState { v: s.v.update(x, b), ..s }
}

/// The fault of an access of `num_bytes` bytes at `address`.
pub open spec fn mem_fault(address: u16, num_bytes: int) -> Fault {
    Fault::Memory(MemoryFault { address, num_bytes: num_bytes as usize })
}

/// The state after executing `instr` in `s` with keypad `keys`, where `rnd`
/// is the random byte drawn, and whether it faulted. A faulting instruction
/// changes nothing.
pub open spec fn exec_spec(s: MachineState, instr: Instr, keys: Seq<bool>, rnd: u8) -> (
    MachineState,
    Result<(), Fault>,
) {
    let v = s.v;
    match instr {
        Instr::Cls => (
            MachineState {
                screen: Screen { pixels: Seq::new(BUFFER_LEN as nat, |j: int| 0u8), changed: true },
                ..s
            },
            Ok(()),
        ),
        Instr::Ret => if s.stack.len() == 0 {
            (s, Ok(()))
        } else {
            (MachineState { pc: s.stack.last(), stack: s.stack.drop_last(), ..s }, Ok(()))
        },
        Instr::Sys(_) => (s, Ok(())),
        Instr::Jp(nnn) => (MachineState { pc: nnn, ..s }, Ok(())),
        Instr::Call(nnn) => if s.stack.len() >= STACK_SIZE {
            (s, Err(Fault::StackOverflow))
        } else {
            (MachineState { pc: nnn, stack: s.stack.push(s.pc), ..s }, Ok(()))
        },
        Instr::SeVxKK(x, kk) => (skip_if(s, v[x as int] == kk), Ok(())),
        Instr::SneVxKK(x, kk) => (skip_if(s, v[x as int] != kk), Ok(())),
        Instr::SeVxVy(x, y) => (skip_if(s, v[x as int] == v[y as int]), Ok(())),
        Instr::SneVxVy(x, y) => (skip_if(s, v[x as int] != v[y as int]), Ok(())),
        Instr::LdVxKK(x, kk) => (set_v(s, x as int, kk), Ok(())),
        Instr::AddVxKK(x, kk) => (set_v(s, x as int, add8(v[x as int] as int, kk as int)), Ok(())),
        Instr::LdVxVy(x, y) => (set_v(s, x as int, v[y as int]), Ok(())),
        Instr::OrVxVy(x, y) => (set_v(s, x as int, v[x as int] | v[y as int]), Ok(())),
        Instr::AndVxVy(x, y) => (set_v(s, x as int, v[x as int] & v[y as int]), Ok(())),
        Instr::XorVxVy(x, y) => (set_v(s, x as int, v[x as int] ^ v[y as int]), Ok(())),
        Instr::AddVxVy(x, y) => {
            let (a, b) = (v[x as int] as int, v[y as int] as int);
            (set_v(set_v(s, x as int, add8(a, b)), FLAG as int, flag(a + b > 0xFF)), Ok(()))
        },
        Instr::SubVxVy(x, y) => {
            let (a, b) = (v[x as int] as int, v[y as int] as int);
            (set_v(set_v(s, x as int, sub8(a, b)), FLAG as int, flag(a >= b)), Ok(()))
        },
        Instr::SubnVxVy(x, y) => {
            let (a, b) = (v[x as int] as int, v[y as int] as int);
            (set_v(set_v(s, x as int, sub8(b, a)), FLAG as int, flag(b >= a)), Ok(()))
        },
        Instr::ShrVx(x) => {
            let a = v[x as int];
            (set_v(set_v(s, FLAG as int, a % 2), x as int, a / 2), Ok(()))
        },
        Instr::ShlVx(x) => {
            let a = v[x as int];
            (set_v(set_v(s, FLAG as int, a / 128), x as int, add8(a as int, a as int)), Ok(()))
        },
        Instr::LdI(nnn) => (MachineState { i: nnn, ..s }, Ok(())),
        Instr::JpV0(nnn) => (MachineState { pc: add16(nnn as int, v[0] as int), ..s }, Ok(())),
        Instr::RndVxKK(x, kk) => (set_v(s, x as int, kk & rnd), Ok(())),
        Instr::DrwVxVyN(x, y, n) => if !access_ok(s.i as int, n as int) {
            (s, Err(mem_fault(s.i, n as int)))
        } else {
            let sprite = s.mem.subrange(s.i as int, s.i + n);
            let (pixels, hit) = draw_spec(s.screen.pixels, v[x as int], v[y as int], sprite);
            (
                set_v(
                    MachineState { screen: Screen { pixels, changed: true }, ..s },
                    FLAG as int,
                    flag(hit),
                ),
                Ok(()),
            )
        },
        Instr::SkpVx(x) => (skip_if(s, key_down(keys, v[x as int])), Ok(())),
        Instr::SknpVx(x) => (skip_if(s, !key_down(keys, v[x as int])), Ok(())),
        Instr::LdVxDT(x) => (set_v(s, x as int, s.dt), Ok(())),
        Instr::LdVxK(x) => match first_down(keys) {
            Some(k) => (set_v(s, x as int, k), Ok(())),
            None => (MachineState { pc: sub16(s.pc as int, INSTR_WIDTH as int), ..s }, Ok(())),
        },
        Instr::LdDTVx(x) => (MachineState { dt: v[x as int], ..s }, Ok(())),
        Instr::LdSTVx(x) => (MachineState { st: v[x as int], ..s }, Ok(())),
        Instr::AddIVx(x) => (MachineState { i: add16(s.i as int, v[x as int] as int), ..s }, Ok(())),
        Instr::LdFVx(x) => (MachineState { i: (v[x as int] * GLYPH_LEN) as u16, ..s }, Ok(())),
        Instr::LdBVx(x) => if !access_ok(s.i as int, 3) {
            (s, Err(mem_fault(s.i, 3)))
        } else {
            (MachineState { mem: write_spec(s.mem, s.i as int, bcd(v[x as int])), ..s }, Ok(()))
        },
        Instr::LdIVx(x) => if !access_ok(s.i as int, x + 1) {
            (s, Err(mem_fault(s.i, x + 1)))
        } else {
            (MachineState { mem: write_spec(s.mem, s.i as int, v.take(x + 1)), ..s }, Ok(()))
        },
        Instr::LdVxI(x) => if !access_ok(s.i as int, x + 1) {
            (s, Err(mem_fault(s.i, x + 1)))
        } else {
            (
                MachineState { v: write_spec(v, 0, s.mem.subrange(s.i as int, s.i + x + 1)), ..s },
                Ok(()),
            )
        },
    }
}

/// One cycle from `s`: fetch the word at the program counter, advance past
/// it, decode it and execute it; `rnd` is the random byte drawn, if one is.
pub open spec fn cycle_spec(s: MachineState, keys: Seq<bool>, rnd: u8) -> (
    MachineState,
    Result<(), Fault>,
) {
    if !access_ok(s.pc as int, INSTR_WIDTH as int) {
        (s, Err(mem_fault(s.pc, INSTR_WIDTH as int)))
    } else {
        let op = word_at(s.mem, s.pc as int);
        let fetched = MachineState { pc: add16(s.pc as int, INSTR_WIDTH as int), ..s };
        match decode(op) {
            None => (fetched, Err(Fault::UnknownOpcode(op))),
            Some(instr) => exec_spec(fetched, instr, keys, rnd),
        }
    }
}

/// The processor.
pub struct Cpu {
    /// Program counter.
    pub pc: u16,
    /// General-purpose registers V0 to VF.
    pub v: [u8; REGISTER_COUNT],
    /// Address register.
    pub i: u16,
    /// Delay timer.
    pub dt: u8,
    /// Sound timer.
    pub st: u8,
    /// Return addresses of the pending calls, innermost last.
    pub stack: Vec<u16>,
}

/// The state that `cpu`, `fb` and `mem` hold together.
pub open spec fn machine_state(cpu: Cpu, fb: FrameBuffer, mem: Memory) -> MachineState {
    MachineState {
        pc: cpu.pc,
        v: cpu.v@,
        i: cpu.i,
        dt: cpu.dt,
        st: cpu.st,
        stack: cpu.stack@,
        mem: mem@,
        screen: fb@,
    }
}

/// The timer value one tick after `t`: one less, but never below zero.
pub open spec fn tick(t: u8) -> u8 {
    if t > 0 {
        (t - 1) as u8
    } else {
        0
    }
}

impl Cpu {
    /// At most `STACK_SIZE` calls are pending.
    pub open spec fn wf(&self) -> bool {
        self.stack@.len() <= STACK_SIZE
    }

    /// A processor at reset: program counter at `PC_START`, everything else zero.
    pub fn new() -> (r: Self)
        ensures
            r.wf(),
            r.pc == PC_START,
            r.v@ == Seq::new(REGISTER_COUNT as nat, |j: int| 0u8),
            r.i == 0,
            r.dt == 0,
            r.st == 0,
            r.stack@ == Seq::<u16>::empty(),
    {
        let r = Cpu {
            pc: PC_START,
            v: [0u8; REGISTER_COUNT],
            i: 0,
            dt: 0,
            st: 0,
            stack: Vec::new(),
        };
        assert(r.v@ =~= Seq::new(REGISTER_COUNT as nat, |j: int| 0u8));
        r
    }

    /// Skips the next instruction.
    fn skip(&mut self)
        ensures
            *final(self) == (Cpu { pc: add16(old(self).pc as int, INSTR_WIDTH as int), ..*old(self) }),
    {
        self.pc = self.pc.wrapping_add(INSTR_WIDTH);
    }

    /// Executes a jump, call, return, `Sys` or display clear.
    fn exec_flow(
        &mut self,
        instr: Instr,
        rnd: u8,
        frame_buffer: &mut FrameBuffer,
        mem: &mut Memory,
        keypad: &Keypad,
    ) -> (r: Result<(), Fault>)
        requires
            old(self).wf(),
            old(frame_buffer).wf(),
            old(mem).wf(),
            instr.wf(),
            instr is Cls || instr is Ret || instr is Sys || instr is Jp || instr is Call || instr is JpV0,
        ensures
            final(self).wf(),
            final(frame_buffer).wf(),
            final(mem).wf(),
            (machine_state(*final(self), *final(frame_buffer), *final(mem)), r) == exec_spec(
                machine_state(*old(self), *old(frame_buffer), *old(mem)),
                instr,
                keypad@,
                rnd,
            ),
    {
        match instr {
            Instr::Cls => {
                frame_buffer.clear();
            },
            Instr::Ret => {
                if let Some(address) = self.stack.pop() {
                    self.pc = address;
                }
            },
            Instr::Sys(_) => {},
            Instr::Jp(nnn) => {
                self.pc = nnn;
            },
            Instr::Call(nnn) => {
                if self.stack.len() >= STACK_SIZE {
                    return Err(Fault::StackOverflow);
                }
                self.stack.push(self.pc);
                self.pc = nnn;
            },
            Instr::JpV0(nnn) => {
                self.pc = nnn.wrapping_add(self.v[0] as u16);
            },
            _ => {},
        }
        Ok(())
    }

    /// Executes a conditional skip or the wait for a key.
    fn exec_skip(
        &mut self,
        instr: Instr,
        rnd: u8,
        frame_buffer: &mut FrameBuffer,
        mem: &mut Memory,
        keypad: &Keypad,
    ) -> (r: Result<(), Fault>)
        requires
            old(self).wf(),
            old(frame_buffer).wf(),
            old(mem).wf(),
            instr.wf(),
            instr is SeVxKK || instr is SneVxKK || instr is SeVxVy || instr is SneVxVy || instr is SkpVx || instr is SknpVx || instr is LdVxK,
        ensures
            final(self).wf(),
            final(frame_buffer).wf(),
            final(mem).wf(),
            (machine_state(*final(self), *final(frame_buffer), *final(mem)), r) == exec_spec(
                machine_state(*old(self), *old(frame_buffer), *old(mem)),
                instr,
                keypad@,
                rnd,
            ),
    {
        match instr {
            Instr::SeVxKK(x, kk) => {
                if self.v[x] == kk {
                    self.skip();
                }
            },
            Instr::SneVxKK(x, kk) => {
                if self.v[x] != kk {
                    self.skip();
                }
            },
            Instr::SeVxVy(x, y) => {
                if self.v[x] == self.v[y] {
                    self.skip();
                }
            },
            Instr::SneVxVy(x, y) => {
                if self.v[x] != self.v[y] {
                    self.skip();
                }
            },
            Instr::SkpVx(x) => {
                let k = self.v[x];
                if (k as usize) < KEY_COUNT && keypad.is_down(k) {
                    self.skip();
                }
            },
            Instr::SknpVx(x) => {
                let k = self.v[x];
                if !((k as usize) < KEY_COUNT && keypad.is_down(k)) {
                    self.skip();
                }
            },
            Instr::LdVxK(x) => {
                if let Some(k) = keypad.get_down_key() {
                    self.v[x] = k;
                } else {
                    self.pc = self.pc.wrapping_sub(INSTR_WIDTH);
                }
            },
            _ => {},
        }
        Ok(())
    }

    /// Executes a register load, an immediate addition or a bitwise operation.
    fn exec_load(
        &mut self,
        instr: Instr,
        rnd: u8,
        frame_buffer: &mut FrameBuffer,
        mem: &mut Memory,
        keypad: &Keypad,
    ) -> (r: Result<(), Fault>)
        requires
            old(self).wf(),
            old(frame_buffer).wf(),
            old(mem).wf(),
            instr.wf(),
            instr is LdVxKK || instr is AddVxKK || instr is LdVxVy || instr is OrVxVy || instr is AndVxVy || instr is XorVxVy || instr is RndVxKK || instr is LdVxDT,
        ensures
            final(self).wf(),
            final(frame_buffer).wf(),
            final(mem).wf(),
            (machine_state(*final(self), *final(frame_buffer), *final(mem)), r) == exec_spec(
                machine_state(*old(self), *old(frame_buffer), *old(mem)),
                instr,
                keypad@,
                rnd,
            ),
    {
        match instr {
            Instr::LdVxKK(x, kk) => {
                self.v[x] = kk;
            },
            Instr::AddVxKK(x, kk) => {
                self.v[x] = self.v[x].wrapping_add(kk);
            },
            Instr::LdVxVy(x, y) => {
                self.v[x] = self.v[y];
            },
            Instr::OrVxVy(x, y) => {
                self.v[x] = self.v[x] | self.v[y];
            },
            Instr::AndVxVy(x, y) => {
                self.v[x] = self.v[x] & self.v[y];
            },
            Instr::XorVxVy(x, y) => {
                self.v[x] = self.v[x] ^ self.v[y];
            },
            Instr::RndVxKK(x, kk) => {
                self.v[x] = kk & rnd;
            },
            Instr::LdVxDT(x) => {
                self.v[x] = self.dt;
            },
            _ => {},
        }
        Ok(())
    }

    /// Executes an addition that sets the carry flag.
    fn exec_add(
        &mut self,
        instr: Instr,
        rnd: u8,
        frame_buffer: &mut FrameBuffer,
        mem: &mut Memory,
        keypad: &Keypad,
    ) -> (r: Result<(), Fault>)
        requires
            old(self).wf(),
            old(frame_buffer).wf(),
            old(mem).wf(),
            instr.wf(),
            instr is AddVxVy,
        ensures
            final(self).wf(),
            final(frame_buffer).wf(),
            final(mem).wf(),
            (machine_state(*final(self), *final(frame_buffer), *final(mem)), r) == exec_spec(
                machine_state(*old(self), *old(frame_buffer), *old(mem)),
                instr,
                keypad@,
                rnd,
            ),
    {
        match instr {
            Instr::AddVxVy(x, y) => {
                let (a, b) = (self.v[x], self.v[y]);
                self.v[x] = a.wrapping_add(b);
                self.v[FLAG] = if a as u16 + b as u16 > 0xFF { 1 } else { 0 };
            },
            _ => {},
        }
        Ok(())
    }

    /// Executes a subtraction that sets the no-borrow flag.
    fn exec_sub(
        &mut self,
        instr: Instr,
        rnd: u8,
        frame_buffer: &mut FrameBuffer,
        mem: &mut Memory,
        keypad: &Keypad,
    ) -> (r: Result<(), Fault>)
        requires
            old(self).wf(),
            old(frame_buffer).wf(),
            old(mem).wf(),
            instr.wf(),
            instr is SubVxVy || instr is SubnVxVy,
        ensures
            final(self).wf(),
            final(frame_buffer).wf(),
            final(mem).wf(),
            (machine_state(*final(self), *final(frame_buffer), *final(mem)), r) == exec_spec(
                machine_state(*old(self), *old(frame_buffer), *old(mem)),
                instr,
                keypad@,
                rnd,
            ),
    {
        match instr {
            Instr::SubVxVy(x, y) => {
                let (a, b) = (self.v[x], self.v[y]);
                self.v[x] = a.wrapping_sub(b);
                self.v[FLAG] = if a >= b { 1 } else { 0 };
            },
            Instr::SubnVxVy(x, y) => {
                let (a, b) = (self.v[x], self.v[y]);
                self.v[x] = b.wrapping_sub(a);
                self.v[FLAG] = if b >= a { 1 } else { 0 };
            },
            _ => {},
        }
        Ok(())
    }

    /// Executes a shift that sets the shifted-out bit as flag.
    fn exec_shift(
        &mut self,
        instr: Instr,
        rnd: u8,
        frame_buffer: &mut FrameBuffer,
        mem: &mut Memory,
        keypad: &Keypad,
    ) -> (r: Result<(), Fault>)
        requires
            old(self).wf(),
            old(frame_buffer).wf(),
            old(mem).wf(),
            instr.wf(),
            instr is ShrVx || instr is ShlVx,
        ensures
            final(self).wf(),
            final(frame_buffer).wf(),
            final(mem).wf(),
            (machine_state(*final(self), *final(frame_buffer), *final(mem)), r) == exec_spec(
                machine_state(*old(self), *old(frame_buffer), *old(mem)),
                instr,
                keypad@,
                rnd,
            ),
    {
        match instr {
            Instr::ShrVx(x) => {
                let a = self.v[x];
                self.v[FLAG] = a % 2;
                self.v[x] = a / 2;
            },
            Instr::ShlVx(x) => {
                let a = self.v[x];
                self.v[FLAG] = a / 128;
                self.v[x] = a.wrapping_add(a);
            },
            _ => {},
        }
        Ok(())
    }

    /// Executes a timer load or an address register update.
    fn exec_timer_i(
        &mut self,
        instr: Instr,
        rnd: u8,
        frame_buffer: &mut FrameBuffer,
        mem: &mut Memory,
        keypad: &Keypad,
    ) -> (r: Result<(), Fault>)
        requires
            old(self).wf(),
            old(frame_buffer).wf(),
            old(mem).wf(),
            instr.wf(),
            instr is LdI || instr is LdDTVx || instr is LdSTVx || instr is AddIVx || instr is LdFVx,
        ensures
            final(self).wf(),
            final(frame_buffer).wf(),
            final(mem).wf(),
            (machine_state(*final(self), *final(frame_buffer), *final(mem)), r) == exec_spec(
                machine_state(*old(self), *old(frame_buffer), *old(mem)),
                instr,
                keypad@,
                rnd,
            ),
    {
        match instr {
            Instr::LdI(nnn) => {
                self.i = nnn;
            },
            Instr::LdDTVx(x) => {
                self.dt = self.v[x];
            },
            Instr::LdSTVx(x) => {
                self.st = self.v[x];
            },
            Instr::AddIVx(x) => {
                self.i = self.i.wrapping_add(self.v[x] as u16);
            },
            Instr::LdFVx(x) => {
                self.i = self.v[x] as u16 * GLYPH_LEN;
            },
            _ => {},
        }
        Ok(())
    }

    /// Executes a sprite draw.
    fn exec_draw(
        &mut self,
        instr: Instr,
        rnd: u8,
        frame_buffer: &mut FrameBuffer,
        mem: &mut Memory,
        keypad: &Keypad,
    ) -> (r: Result<(), Fault>)
        requires
            old(self).wf(),
            old(frame_buffer).wf(),
            old(mem).wf(),
            instr.wf(),
            instr is DrwVxVyN,
        ensures
            final(self).wf(),
            final(frame_buffer).wf(),
            final(mem).wf(),
            (machine_state(*final(self), *final(frame_buffer), *final(mem)), r) == exec_spec(
                machine_state(*old(self), *old(frame_buffer), *old(mem)),
                instr,
                keypad@,
                rnd,
            ),
    {
        match instr {
            Instr::DrwVxVyN(x, y, n) => {
                match mem.read_data(self.i, n as u16) {
                    Err(f) => {
                        return Err(Fault::Memory(f));
                    },
                    Ok(sprite) => {
                        let coll = frame_buffer.draw(self.v[x], self.v[y], sprite.as_slice());
                        frame_buffer.set_changed(true);
                        self.v[FLAG] = if coll { 1 } else { 0 };
                    },
                }
            },
            _ => {},
        }
        Ok(())
    }

    /// Executes a BCD store or a register transfer to or from memory.
    fn exec_store(
        &mut self,
        instr: Instr,
        rnd: u8,
        frame_buffer: &mut FrameBuffer,
        mem: &mut Memory,
        keypad: &Keypad,
    ) -> (r: Result<(), Fault>)
        requires
            old(self).wf(),
            old(frame_buffer).wf(),
            old(mem).wf(),
            instr.wf(),
            instr is LdBVx || instr is LdIVx || instr is LdVxI,
        ensures
            final(self).wf(),
            final(frame_buffer).wf(),
            final(mem).wf(),
            (machine_state(*final(self), *final(frame_buffer), *final(mem)), r) == exec_spec(
                machine_state(*old(self), *old(frame_buffer), *old(mem)),
                instr,
                keypad@,
                rnd,
            ),
    {
        match instr {
            Instr::LdBVx(x) => {
                let num = self.v[x];
                let digits: [u8; 3] = [num / 100, (num % 100) / 10, num % 10];
                assert(digits@ =~= bcd(num));
                if let Err(f) = mem.write_data(self.i, digits.as_slice()) {
                    return Err(Fault::Memory(f));
                }
            },
            Instr::LdIVx(x) => {
                let regs = vstd::slice::slice_subrange(self.v.as_slice(), 0, x + 1);
                if let Err(f) = mem.write_data(self.i, regs) {
                    return Err(Fault::Memory(f));
                }
            },
            Instr::LdVxI(x) => {
                if let Err(f) = mem.copy_into(&mut self.v, self.i, (x + 1) as u16) {
                    return Err(Fault::Memory(f));
                }
            },
            _ => {},
        }
        Ok(())
    }

    /// Executes `instr` against display, memory and keypad, with `rnd` as the
    /// random byte of `RndVxKK`.
    pub fn exec_with(
        &mut self,
        instr: Instr,
        rnd: u8,
        frame_buffer: &mut FrameBuffer,
        mem: &mut Memory,
        keypad: &Keypad,
    ) -> (r: Result<(), Fault>)
        requires
            old(self).wf(),
            old(frame_buffer).wf(),
            old(mem).wf(),
            instr.wf(),
        ensures
            final(self).wf(),
            final(frame_buffer).wf(),
            final(mem).wf(),
            (machine_state(*final(self), *final(frame_buffer), *final(mem)), r) == exec_spec(
                machine_state(*old(self), *old(frame_buffer), *old(mem)),
                instr,
                keypad@,
                rnd,
            ),
    {
        match instr {
            Instr::Cls | Instr::Ret | Instr::Sys(..) | Instr::Jp(..) | Instr::Call(..) | Instr::JpV0(..) => self.exec_flow(instr, rnd, frame_buffer, mem, keypad),
            Instr::SeVxKK(..) | Instr::SneVxKK(..) | Instr::SeVxVy(..) | Instr::SneVxVy(..) | Instr::SkpVx(..) | Instr::SknpVx(..) | Instr::LdVxK(..) => self.exec_skip(instr, rnd, frame_buffer, mem, keypad),
            Instr::LdVxKK(..) | Instr::AddVxKK(..) | Instr::LdVxVy(..) | Instr::OrVxVy(..) | Instr::AndVxVy(..) | Instr::XorVxVy(..) | Instr::RndVxKK(..) | Instr::LdVxDT(..) => self.exec_load(instr, rnd, frame_buffer, mem, keypad),
            Instr::AddVxVy(..) => self.exec_add(instr, rnd, frame_buffer, mem, keypad),
            Instr::SubVxVy(..) | Instr::SubnVxVy(..) => self.exec_sub(instr, rnd, frame_buffer, mem, keypad),
            Instr::ShrVx(..) | Instr::ShlVx(..) => self.exec_shift(instr, rnd, frame_buffer, mem, keypad),
            Instr::LdI(..) | Instr::LdDTVx(..) | Instr::LdSTVx(..) | Instr::AddIVx(..) | Instr::LdFVx(..) => self.exec_timer_i(instr, rnd, frame_buffer, mem, keypad),
            Instr::DrwVxVyN(..) => self.exec_draw(instr, rnd, frame_buffer, mem, keypad),
            Instr::LdBVx(..) | Instr::LdIVx(..) | Instr::LdVxI(..) => self.exec_store(instr, rnd, frame_buffer, mem, keypad),
        }
    }

    /// Executes `instr` against display, memory and keypad, drawing a random
    /// byte for `RndVxKK`.
    pub fn exec(
        &mut self,
        instr: Instr,
        frame_buffer: &mut FrameBuffer,
        mem: &mut Memory,
        keypad: &Keypad,
    ) -> (r: Result<(), Fault>)
        requires
            old(self).wf(),
            old(frame_buffer).wf(),
            old(mem).wf(),
            instr.wf(),
        ensures
            final(self).wf(),
            final(frame_buffer).wf(),
            final(mem).wf(),
            exists|rnd: u8|
                (machine_state(*final(self), *final(frame_buffer), *final(mem)), r) == #[trigger] exec_spec(
                    machine_state(*old(self), *old(frame_buffer), *old(mem)),
                    instr,
                    keypad@,
                    rnd,
                ),
    {
        let rnd = if let Instr::RndVxKK(..) = instr {
            random_byte()
        } else {
            0
        };
        self.exec_with(instr, rnd, frame_buffer, mem, keypad)
    }

    /// One cycle: fetches the word at the program counter, advances past it,
    /// decodes it and executes it.
    pub fn cycle(&mut self, frame_buffer: &mut FrameBuffer, mem: &mut Memory, keypad: &Keypad) -> (r:
        Result<(), Fault>)
        requires
            old(self).wf(),
            old(frame_buffer).wf(),
            old(mem).wf(),
        ensures
            final(self).wf(),
            final(frame_buffer).wf(),
            final(mem).wf(),
            exists|rnd: u8|
                (machine_state(*final(self), *final(frame_buffer), *final(mem)), r) == #[trigger] cycle_spec(
                    machine_state(*old(self), *old(frame_buffer), *old(mem)),
                    keypad@,
                    rnd,
                ),
    {
        let ghost s0 = machine_state(*self, *frame_buffer, *mem);
        let opcode = match mem.read_word(self.pc) {
            Err(f) => {
                assert((machine_state(*self, *frame_buffer, *mem), Err::<(), Fault>(Fault::Memory(f)))
                    == cycle_spec(s0, keypad@, 0u8));
                return Err(Fault::Memory(f));
            },
            Ok(w) => w,
        };
        self.skip();
        match Instr::from(opcode) {
            None => {
                assert((machine_state(*self, *frame_buffer, *mem), Err::<(), Fault>(
                    Fault::UnknownOpcode(opcode),
                )) == cycle_spec(s0, keypad@, 0u8));
                Err(Fault::UnknownOpcode(opcode))
            },
            Some(instr) => {
                let ghost s1 = machine_state(*self, *frame_buffer, *mem);
                let r = self.exec(instr, frame_buffer, mem, keypad);
                proof {
                    let rnd = choose|rnd: u8|
                        (machine_state(*self, *frame_buffer, *mem), r) == #[trigger] exec_spec(
                            s1,
                            instr,
                            keypad@,
                            rnd,
                        );
                    assert((machine_state(*self, *frame_buffer, *mem), r) == cycle_spec(
                        s0,
                        keypad@,
                        rnd,
                    ));
                }
                r
            },
        }
    }

    /// One 60 Hz tick: both timers count down by one, stopping at zero.
    pub fn update_timers(&mut self)
        ensures
            final(self).dt == tick(old(self).dt),
            final(self).st == tick(old(self).st),
            final(self).pc == old(self).pc,
            final(self).v == old(self).v,
            final(self).i == old(self).i,
            final(self).stack@ == old(self).stack@,
    {
        if self.dt > 0 {
            self.dt -= 1;
        }
        if self.st > 0 {
            self.st -= 1;
        }
    }
}

} // verus!
