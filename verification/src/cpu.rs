//! The processor: a register file, the memory it is wired to, and an
//! optional trace of the instructions it has executed.

use crate::engine::{interrupt, step};
use crate::memory::{spec_read_word, Memory6502};
use crate::registers::{
    CPUState, CpuError, InterruptType, Registers, RESET_VECTOR, STACK_TOP,
};
use crate::semantics::{spec_interrupt, spec_step};
use crate::status::StatusRegister;
use crate::trace::{spec_traced, Tracer};
use vstd::prelude::*;

verus! {

/// A 6502 processor wired to a memory of type `MemT`.
#[allow(non_snake_case)]
#[derive(Debug)]
pub struct CPU6502<MemT> {
    /// Accumulator.
    pub A: u8,
    /// Index register X.
    pub X: u8,
    /// Index register Y.
    pub Y: u8,
    /// Program counter.
    pub PC: u16,
    /// Stack pointer.
    pub SP: u8,
    /// Status register.
    pub P: StatusRegister,
    /// The address space that the processor works on.
    pub memory: MemT,
    /// The record of executed instructions, for diagnostics.
    pub tracer: Tracer,
}

impl<MemT: Memory6502> CPU6502<MemT> {
    /// The register file.
    pub open spec fn regs(&self) -> Registers {
        Registers { a: self.A, x: self.X, y: self.Y, sp: self.SP, pc: self.PC, p: self.P }
    }

    /// The trace, oldest entry first; `None` while tracing is disabled.
    pub open spec fn spec_trace(&self) -> Option<Seq<CPUState>> {
        self.tracer.spec_entries()
    }

    /// The number of entries that the trace keeps; zero while tracing is
    /// disabled.
    pub open spec fn spec_trace_limit(&self) -> nat {
        self.tracer.spec_limit()
    }

    /// The snapshot of the instruction executed last.
    pub open spec fn spec_last_state(&self) -> CPUState {
        self.tracer.spec_last()
    }

    /// A processor after power-on, wired to `mem`: registers cleared,
    /// stack pointer at 0xFF, tracing disabled.
    pub fn new(mem: MemT) -> (cpu: Self)
        ensures
            cpu.regs() == Registers::spec_power_on(),
            cpu.memory == mem,
            cpu.spec_trace().is_none(),
            cpu.spec_last_state() == CPUState::spec_new(Registers::spec_power_on(), 0),
    {
        CPU6502 {
            A: 0,
            X: 0,
            Y: 0,
            PC: 0,
            SP: STACK_TOP,
            P: StatusRegister { value: 0 },
            memory: mem,
            tracer: Tracer::new(),
        }
    }

    /// Starts an empty trace that keeps the last `trace_size_limit`
    /// instructions.
    pub fn enable_trace(&mut self, trace_size_limit: usize)
        ensures
            final(self).spec_trace() == Some(Seq::<CPUState>::empty()),
            final(self).spec_trace_limit() == trace_size_limit,
            final(self).regs() == old(self).regs(),
            final(self).memory == old(self).memory,
            final(self).spec_last_state() == old(self).spec_last_state(),
    {
        self.tracer.enable(trace_size_limit);
    }

    /// Loads the program counter from the reset vector at 0xFFFC.
    pub fn reset(&mut self)
        ensures
            final(self).regs() == (Registers {
                pc: spec_read_word::<MemT>(old(self).memory@, RESET_VECTOR).0,
                ..old(self).regs()
            }),
            final(self).memory@ == spec_read_word::<MemT>(old(self).memory@, RESET_VECTOR).1,
            final(self).tracer == old(self).tracer,
    {
        let start_address = self.memory.read_memory_word(RESET_VECTOR);
        self.PC = start_address;
    }

    /// Sets the program counter to `start_address`.
    pub fn reset_at(&mut self, start_address: u16)
        ensures
            final(self).regs() == (Registers { pc: start_address, ..old(self).regs() }),
            final(self).memory == old(self).memory,
            final(self).tracer == old(self).tracer,
    {
        self.PC = start_address;
    }

    /// The register file.
    pub fn registers(&self) -> (regs: Registers)
        ensures
            regs == self.regs(),
    {
        Registers { a: self.A, x: self.X, y: self.Y, sp: self.SP, pc: self.PC, p: self.P }
    }

    /// Replaces the register file.
    fn load_registers(&mut self, regs: Registers)
        ensures
            final(self).regs() == regs,
            final(self).memory == old(self).memory,
            final(self).tracer == old(self).tracer,
    {
        self.A = regs.a;
        self.X = regs.x;
        self.Y = regs.y;
        self.SP = regs.sp;
        self.PC = regs.pc;
        self.P = regs.p;
    }

    /// Executes the instruction at the program counter.
    ///
    /// Returns the program counter after the instruction, or the reason
    /// why the engine cannot go on: an undefined opcode, an instruction
    /// that leaves the program counter where it was, or an instruction
    /// that does not fit below the top of the address space. Every
    /// instruction that was fetched and decoded, and every opcode that
    /// failed to decode, leaves a snapshot.
    pub fn run_single(&mut self) -> (result: Result<u16, CpuError>)
        ensures
            final(self).regs() == spec_step::<MemT>(old(self).regs(), old(self).memory@).regs,
            final(self).memory@ == spec_step::<MemT>(old(self).regs(), old(self).memory@).mem,
            result == spec_step::<MemT>(old(self).regs(), old(self).memory@).result,
            final(self).spec_trace() == spec_traced(
                old(self).spec_trace(),
                old(self).spec_trace_limit(),
                spec_step::<MemT>(old(self).regs(), old(self).memory@).state,
            ),
            final(self).spec_trace_limit() == old(self).spec_trace_limit(),
            final(self).spec_last_state() == (match spec_step::<MemT>(
                old(self).regs(),
                old(self).memory@,
            ).state {
                Some(state) => state,
                None => old(self).spec_last_state(),
            }),
    {
        let regs = self.registers();
        let done = step(regs, &mut self.memory);
        self.load_registers(done.0);
        match done.2 {
            Some(state) => {
                self.tracer.add_trace(state);
            },
            None => {},
        }
        done.1
    }

    /// Delivers an interrupt between two instructions. A maskable
    /// request is ignored while the Interrupt-disable flag is set.
    pub fn interrupt(&mut self, cause: InterruptType)
        ensures
            final(self).regs() == spec_interrupt::<MemT>(
                cause,
                old(self).regs(),
                old(self).memory@,
            ).0,
            final(self).memory@ == spec_interrupt::<MemT>(
                cause,
                old(self).regs(),
                old(self).memory@,
            ).1,
            final(self).tracer == old(self).tracer,
    {
        let regs = self.registers();
        let after = interrupt(cause, regs, &mut self.memory);
        self.load_registers(after);
    }

    /// The snapshot of the instruction executed last; before the first
    /// instruction, the snapshot of the registers at power-on.
    pub fn get_last_state(&self) -> (state: CPUState)
        ensures
            state == self.spec_last_state(),
    {
        self.tracer.last_state()
    }

    /// A copy of the trace, oldest entry first; empty while tracing is
    /// disabled. It never holds more entries than the trace keeps.
    pub fn trace_entries(&self) -> (entries: Vec<CPUState>)
        ensures
            entries@ == (match self.spec_trace() {
                Some(trace) => trace,
                None => Seq::<CPUState>::empty(),
            }),
            entries@.len() <= self.spec_trace_limit(),
    {
        self.tracer.entries()
    }
}

} // verus!
