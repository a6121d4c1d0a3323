//! The computer: a processor on the banked address space, with the
//! keyboard buffer that the host types into.

use crate::c64memory::{
    spec_power_on, C64CharaterRam, C64KeyboadMap, C64Memory, C64MemoryModel,
};
use crate::cpu::CPU6502;
use crate::history::History;
use crate::memory::{spec_read_word, Diagnostic, Memory6502};
use crate::registers::{CPUState, CpuError, InterruptType, Registers, RESET_VECTOR};
use crate::semantics::{spec_interrupt, spec_step};
use crate::trace::spec_traced;
use vstd::prelude::*;

verus! {

/// Address of the number of keys waiting in the keyboard buffer.
pub const KEY_COUNT: u16 = 0x00c6;

/// First address of the keyboard buffer.
pub const KEY_BUFFER: u16 = 0x0277;

/// Number of keys the keyboard buffer holds.
pub const KEY_BUFFER_SIZE: u8 = 10;

/// The memory after a key code has been offered to the keyboard buffer:
/// with room in the buffer the code is stored behind the waiting keys
/// and their number grows by one; a full buffer changes nothing.
pub open spec fn spec_add_key_stroke(model: C64MemoryModel, keycode: u8) -> C64MemoryModel {
    let waiting = model.ram[KEY_COUNT as int];
    if waiting >= KEY_BUFFER_SIZE {
        model
    } else {
        C64MemoryModel {
            ram: model.ram.update(KEY_BUFFER + waiting, keycode).update(
                KEY_COUNT as int,
                (waiting + 1) as u8,
            ),
            ..model
        }
    }
}

/// The computer.
#[derive(Debug)]
pub struct C64 {
    /// The processor with the address space it is wired to.
    pub cpu: CPU6502<C64Memory>,
}

impl C64 {
    /// The computer at power-on, with the given firmware images,
    /// character generator image and optional cartridge image.
    pub fn new(
        kernal: Vec<u8>,
        basic_rom: Vec<u8>,
        character_rom: Vec<u8>,
        external_rom: Option<Vec<u8>>,
        diagnostics: History<Diagnostic>,
    ) -> (c64: Self)
        ensures
            c64.cpu.regs() == Registers::spec_power_on(),
            c64.cpu.spec_trace().is_none(),
            c64.cpu.spec_last_state() == CPUState::spec_new(Registers::spec_power_on(), 0),
            c64.cpu.memory@ == spec_power_on(
                kernal@,
                basic_rom@,
                character_rom@,
                match external_rom {
                    Some(rom) => Some(rom@),
                    None => None,
                },
                diagnostics@,
                diagnostics.limit(),
            ),
    {
        let mem = C64Memory::new(kernal, basic_rom, character_rom, external_rom, diagnostics);
        C64 { cpu: CPU6502::new(mem) }
    }

    /// Loads the program counter from the reset vector.
    pub fn reset(&mut self)
        ensures
            final(self).cpu.regs() == (Registers {
                pc: spec_read_word::<C64Memory>(old(self).cpu.memory@, RESET_VECTOR).0,
                ..old(self).cpu.regs()
            }),
            final(self).cpu.memory@ == spec_read_word::<C64Memory>(
                old(self).cpu.memory@,
                RESET_VECTOR,
            ).1,
            final(self).cpu.tracer == old(self).cpu.tracer,
    {
        self.cpu.reset();
    }

    /// Executes one instruction and, if it succeeded, advances the
    /// timers to the moment `now`, given in nanoseconds since power-on.
    pub fn run_single_at(&mut self, now: u128) -> (result: Result<u16, CpuError>)
        ensures
            ({
                let step = spec_step::<C64Memory>(old(self).cpu.regs(), old(self).cpu.memory@);
                &&& result == step.result
                &&& final(self).cpu.regs() == step.regs
                &&& final(self).cpu.memory@ == (if step.result.is_ok() {
                    C64MemoryModel {
                        cia1_timer: step.mem.cia1_timer.spec_tick(now),
                        cia2_timer: step.mem.cia2_timer.spec_tick(now),
                        ..step.mem
                    }
                } else {
                    step.mem
                })
                &&& final(self).cpu.spec_trace() == spec_traced(
                    old(self).cpu.spec_trace(),
                    old(self).cpu.spec_trace_limit(),
                    step.state,
                )
                &&& final(self).cpu.spec_trace_limit() == old(self).cpu.spec_trace_limit()
                &&& final(self).cpu.spec_last_state() == (match step.state {
                    Some(state) => state,
                    None => old(self).cpu.spec_last_state(),
                })
            }),
    {
        let result = self.cpu.run_single();
        if result.is_ok() {
            let _ = self.cpu.memory.tick_at(now);
        }
        result
    }

    /// Executes one instruction and, if it succeeded, advances the
    /// timers to the present moment of the wall clock. Processor and
    /// trace end as [`C64::run_single_at`] leaves them; whatever the
    /// clock shows, each timer unit ends as a tick at some moment
    /// leaves it.
    pub fn run_single(&mut self) -> (result: Result<u16, CpuError>)
        ensures
            ({
                let step = spec_step::<C64Memory>(old(self).cpu.regs(), old(self).cpu.memory@);
                &&& result == step.result
                &&& final(self).cpu.regs() == step.regs
                &&& step.result.is_err() ==> final(self).cpu.memory@ == step.mem
                &&& step.result.is_ok() ==> exists|now1: u128, now2: u128|
                    final(self).cpu.memory@ == (C64MemoryModel {
                        cia1_timer: step.mem.cia1_timer.spec_tick(now1),
                        cia2_timer: step.mem.cia2_timer.spec_tick(now2),
                        ..step.mem
                    })
                &&& final(self).cpu.spec_trace() == spec_traced(
                    old(self).cpu.spec_trace(),
                    old(self).cpu.spec_trace_limit(),
                    step.state,
                )
                &&& final(self).cpu.spec_trace_limit() == old(self).cpu.spec_trace_limit()
                &&& final(self).cpu.spec_last_state() == (match step.state {
                    Some(state) => state,
                    None => old(self).cpu.spec_last_state(),
                })
            }),
    {
        let result = self.cpu.run_single();
        if result.is_ok() {
            let _ = self.cpu.memory.tick();
        }
        result
    }

    /// Starts an empty trace that keeps the last `trace_size_limit`
    /// instructions.
    pub fn enable_trace(&mut self, trace_size_limit: usize)
        ensures
            final(self).cpu.spec_trace() == Some(Seq::<CPUState>::empty()),
            final(self).cpu.spec_trace_limit() == trace_size_limit,
            final(self).cpu.spec_last_state() == old(self).cpu.spec_last_state(),
            final(self).cpu.regs() == old(self).cpu.regs(),
            final(self).cpu.memory == old(self).cpu.memory,
    {
        self.cpu.enable_trace(trace_size_limit)
    }

    /// Delivers a maskable interrupt request to the processor.
    pub fn interrupt(&mut self)
        ensures
            final(self).cpu.regs() == spec_interrupt::<C64Memory>(
                InterruptType::INT,
                old(self).cpu.regs(),
                old(self).cpu.memory@,
            ).0,
            final(self).cpu.memory@ == spec_interrupt::<C64Memory>(
                InterruptType::INT,
                old(self).cpu.regs(),
                old(self).cpu.memory@,
            ).1,
            final(self).cpu.tracer == old(self).cpu.tracer,
    {
        self.cpu.interrupt(InterruptType::INT);
    }

    /// A snapshot of the screen memory.
    pub fn get_character_ram(&self) -> (screen: C64CharaterRam)
        ensures
            screen.ram@ == self.cpu.memory@.ram.subrange(0x0400, 0x07e8),
    {
        self.cpu.memory.get_character_ram()
    }

    /// Replaces the keyboard matrix.
    pub fn set_keyboard_map(&mut self, keymap: C64KeyboadMap)
        ensures
            final(self).cpu.memory@ == (C64MemoryModel {
                keyboard_map: keymap.col@,
                ..old(self).cpu.memory@
            }),
            final(self).cpu.regs() == old(self).cpu.regs(),
            final(self).cpu.tracer == old(self).cpu.tracer,
    {
        self.cpu.memory.set_keyboard_map(keymap);
    }

    /// The snapshot of the instruction executed last.
    pub fn get_last_state(&self) -> (state: CPUState)
        ensures
            state == self.cpu.spec_last_state(),
    {
        self.cpu.get_last_state()
    }

    /// Offers a key code to the keyboard buffer and tells whether it was
    /// taken: the buffer holds ten keys, and a key that finds it full is
    /// rejected.
    pub fn add_key_stroke(&mut self, keycode: u8) -> (taken: bool)
        ensures
            taken == (old(self).cpu.memory@.ram[KEY_COUNT as int] < KEY_BUFFER_SIZE),
            final(self).cpu.memory@ == spec_add_key_stroke(old(self).cpu.memory@, keycode),
            final(self).cpu.regs() == old(self).cpu.regs(),
            final(self).cpu.tracer == old(self).cpu.tracer,
    {
        let waiting = self.cpu.memory.read_memory(KEY_COUNT);
        if waiting >= KEY_BUFFER_SIZE {
            return false;
        }
        self.cpu.memory.write_memory(KEY_BUFFER + waiting as u16, keycode);
        self.cpu.memory.write_memory(KEY_COUNT, waiting + 1);
        true
    }

    /// A snapshot of the character generator image, if `always` asks for
    /// one.
    pub fn get_character_rom(&self, always: bool) -> (image: Option<[u8; 4096]>)
        ensures
            image.is_some() == always,
            always ==> forall|i: int|
                0 <= i < 4096 ==> image.unwrap()@[i] == (if i
                    < self.cpu.memory@.character_rom.len() {
                    self.cpu.memory@.character_rom[i]
                } else {
                    0u8
                }),
    {
        self.cpu.memory.get_character_rom(always)
    }
}

} // verus!
