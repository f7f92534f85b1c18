//! The whole machine: processor, memory, display and keypad, with the
//! operations the host loop drives.
use vstd::prelude::*;
use crate::cpu::{
    cycle_spec, machine_state, tick, Cpu, Fault, MachineState, PC_START, REGISTER_COUNT,
};
use crate::framebuffer::{FrameBuffer, BUFFER_LEN};
use crate::keypad::{Keypad, KEY_COUNT};
use crate::memory::{
    access_result, initial_memory, write_spec, Memory, MemoryFault, ROM_START_ADDRESS,
};

verus! {

/// A CHIP-8 machine.
pub struct Chip8 {
    /// While set, cycles and timer ticks do nothing.
    pub paused: bool,
    pub cpu: Cpu,
    pub frame_buffer: FrameBuffer,
    pub memory: Memory,
    pub keypad: Keypad,
}

impl Chip8 {
    /// The parts are each well formed.
    pub open spec fn wf(&self) -> bool {
        self.cpu.wf() && self.frame_buffer.wf() && self.memory.wf()
    }

    /// The state that the processor, display and memory hold together.
    pub open spec fn state(&self) -> MachineState {
        machine_state(self.cpu, self.frame_buffer, self.memory)
    }

    /// A machine at reset: glyphs in memory, a blank display, every key up,
    /// the processor at `PC_START` with no pending call.
    pub fn new() -> (r: Self)
        ensures
            r.wf(),
            !r.paused,
            r.state().pc == PC_START,
            r.state().v == Seq::new(REGISTER_COUNT as nat, |j: int| 0u8),
            r.state().i == 0,
            r.state().dt == 0,
            r.state().st == 0,
            r.state().stack == Seq::<u16>::empty(),
            r.state().mem == initial_memory(),
            r.state().screen.pixels == Seq::new(BUFFER_LEN as nat, |j: int| 0u8),
            !r.state().screen.changed,
            r.keypad@ == Seq::new(KEY_COUNT as nat, |j: int| false),
    {
        Chip8 {
            paused: false,
            cpu: Cpu::new(),
            frame_buffer: FrameBuffer::default(),
            memory: Memory::new(),
            keypad: Keypad::default(),
        }
    }

    /// Loads a program at `ROM_START_ADDRESS`; faults, changing nothing,
    /// where it does not fit.
    pub fn load_rom(&mut self, contents: &[u8]) -> (r: Result<(), MemoryFault>)
        requires
            old(self).wf(),
        ensures
            final(self).wf(),
            r == access_result(ROM_START_ADDRESS, contents@.len() as usize),
            final(self).state() == (MachineState {
                mem: if r is Ok {
                    write_spec(old(self).state().mem, ROM_START_ADDRESS as int, contents@)
                } else {
                    old(self).state().mem
                },
                ..old(self).state()
            }),
            final(self).keypad == old(self).keypad,
            final(self).paused == old(self).paused,
    {
        self.memory.load_rom(contents)
    }

    /// Runs one processor cycle unless paused.
    pub fn cpu_cycle(&mut self) -> (r: Result<(), Fault>)
        requires
            old(self).wf(),
        ensures
            final(self).wf(),
            final(self).keypad == old(self).keypad,
            final(self).paused == old(self).paused,
            old(self).paused ==> final(self).state() == old(self).state() && r is Ok,
            !old(self).paused ==> exists|rnd: u8|
                (final(self).state(), r) == #[trigger] cycle_spec(
                    old(self).state(),
                    old(self).keypad@,
                    rnd,
                ),
    {
        if self.paused {
            return Ok(());
        }
        let ghost s0 = self.state();
        let r = self.cpu.cycle(&mut self.frame_buffer, &mut self.memory, &self.keypad);
        proof {
            let rnd = choose|rnd: u8|
                (machine_state(self.cpu, self.frame_buffer, self.memory), r) == #[trigger] cycle_spec(
                    s0,
                    self.keypad@,
                    rnd,
                );
            assert((self.state(), r) == cycle_spec(s0, self.keypad@, rnd));
        }
        r
    }

    /// One 60 Hz timer tick unless paused.
    pub fn timers_tick(&mut self)
        requires
            old(self).wf(),
        ensures
            final(self).wf(),
            final(self).state() == (MachineState {
                dt: if old(self).paused { old(self).state().dt } else { tick(old(self).state().dt) },
                st: if old(self).paused { old(self).state().st } else { tick(old(self).state().st) },
                ..old(self).state()
            }),
            final(self).keypad == old(self).keypad,
            final(self).paused == old(self).paused,
    {
        if !self.paused {
            self.cpu.update_timers();
        }
    }

    /// Stops cycles and timer ticks until `resume`.
    pub fn pause(&mut self)
        ensures
            *final(self) == (Chip8 { paused: true, ..*old(self) }),
    {
        self.paused = true;
    }

    /// Lets cycles and timer ticks run again.
    pub fn resume(&mut self)
        ensures
            *final(self) == (Chip8 { paused: false, ..*old(self) }),
    {
        self.paused = false;
    }
}

} // verus!
