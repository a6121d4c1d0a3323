//! The register file, the interrupt causes, the failures of the engine
//! and the snapshot that the trace keeps of each instruction.

use crate::instruction::{Flag, Register};
use crate::status::{
    StatusRegister, FLAG_C, FLAG_D, FLAG_I, FLAG_N, FLAG_V, FLAG_Z,
};
use vstd::prelude::*;

verus! {

/// Stack pointer after power-on.
pub const STACK_TOP: u8 = 0xff;

/// Where the start address is found after a reset.
pub const RESET_VECTOR: u16 = 0xfffc;

/// Where a maskable interrupt request finds its handler.
pub const REQUEST_VECTOR: u16 = 0xfffa;

/// Where the software interrupt and the non-maskable interrupt find
/// their handler.
pub const BREAK_VECTOR: u16 = 0xfffe;

/// The register file of the processor.
#[derive(Clone, Copy, Debug, PartialEq, Eq, Structural)]
pub struct Registers {
    /// Accumulator.
    pub a: u8,
    /// Index register X.
    pub x: u8,
    /// Index register Y.
    pub y: u8,
    /// Stack pointer: the low byte of an address in page 0x01.
    pub sp: u8,
    /// Program counter.
    pub pc: u16,
    /// Status register.
    pub p: StatusRegister,
}

/// The bit of the status register that holds `flag`.
pub open spec fn spec_flag_mask(flag: Flag) -> u8 {
    match flag {
        Flag::Carry => FLAG_C,
        Flag::Zero => FLAG_Z,
        Flag::InterruptDisable => FLAG_I,
        Flag::Decimal => FLAG_D,
        Flag::Overflow => FLAG_V,
        Flag::Negative => FLAG_N,
    }
}

/// The bit of the status register that holds `flag`.
pub fn flag_mask(flag: Flag) -> (mask: u8)
    ensures
        mask == spec_flag_mask(flag),
        crate::status::single_bit(mask),
{
    match flag {
        Flag::Carry => FLAG_C,
        Flag::Zero => FLAG_Z,
        Flag::InterruptDisable => FLAG_I,
        Flag::Decimal => FLAG_D,
        Flag::Overflow => FLAG_V,
        Flag::Negative => FLAG_N,
    }
}

/// The address in the stack page that a stack pointer value names.
pub open spec fn spec_stack_address(sp: u8) -> u16 {
    (0x0100 + sp) as u16
}

/// The address in the stack page that a stack pointer value names.
pub fn stack_address(sp: u8) -> (address: u16)
    ensures
        address == spec_stack_address(sp),
        0x0100 <= address <= 0x01ff,
{
    0x0100 + sp as u16
}

impl Registers {
    /// The registers after power-on: everything cleared, the stack
    /// pointer at the top of its page.
    pub open spec fn spec_power_on() -> Registers {
        Registers { a: 0, x: 0, y: 0, sp: STACK_TOP, pc: 0, p: StatusRegister { value: 0 } }
    }

    /// Content of an eight-bit register.
    pub open spec fn spec_get(self, register: Register) -> u8 {
        match register {
            Register::A => self.a,
            Register::X => self.x,
            Register::Y => self.y,
            Register::S => self.sp,
        }
    }

    /// The register file with one eight-bit register replaced.
    pub open spec fn spec_set(self, register: Register, value: u8) -> Registers {
        match register {
            Register::A => Registers { a: value, ..self },
            Register::X => Registers { x: value, ..self },
            Register::Y => Registers { y: value, ..self },
            Register::S => Registers { sp: value, ..self },
        }
    }

    /// The registers after power-on.
    pub fn power_on() -> (regs: Registers)
        ensures
            regs == Registers::spec_power_on(),
    {
        Registers { a: 0, x: 0, y: 0, sp: STACK_TOP, pc: 0, p: StatusRegister { value: 0 } }
    }

    /// Content of an eight-bit register.
    pub fn get(&self, register: Register) -> (value: u8)
        ensures
            value == self.spec_get(register),
    {
        match register {
            Register::A => self.a,
            Register::X => self.x,
            Register::Y => self.y,
            Register::S => self.sp,
        }
    }

    /// Replaces the content of an eight-bit register.
    pub fn set(&mut self, register: Register, value: u8)
        ensures
            *final(self) == old(self).spec_set(register, value),
    {
        match register {
            Register::A => {
                self.a = value;
            },
            Register::X => {
                self.x = value;
            },
            Register::Y => {
                self.y = value;
            },
            Register::S => {
                self.sp = value;
            },
        }
    }
}

/// The three causes of an interrupt sequence.
#[derive(Clone, Copy, Debug, PartialEq, Eq, Structural)]
pub enum InterruptType {
    /// Maskable interrupt request; ignored while interrupts are disabled.
    INT,
    /// Non-maskable interrupt.
    NMI,
    /// The software interrupt instruction.
    BRK,
}

/// Why the engine refused to go on.
#[derive(Clone, Copy, Debug, PartialEq, Eq, Structural)]
pub enum CpuErrorKind {
    /// The opcode byte has no defined operation.
    UnknownOpcode(u8),
    /// The instruction left the program counter where it found it.
    SelfLoop,
    /// Fetching the instruction would move the program counter past
    /// 0xFFFF.
    PcOverflow,
}

/// A failure of the engine, with the program counter it concerns.
#[derive(Clone, Copy, Debug, PartialEq, Eq, Structural)]
pub struct CpuError {
    pub pc: u16,
    pub kind: CpuErrorKind,
}

impl CpuError {
    pub fn new(kind: CpuErrorKind, pc: u16) -> (error: Self)
        ensures
            error == (CpuError { pc, kind }),
    {
        CpuError { pc, kind }
    }
}

/// What the trace keeps of one instruction: the opcode, where it was
/// fetched from, the operand bytes it met, the address it resolved and
/// the registers as the instruction left them.
#[allow(non_snake_case)]
#[derive(Clone, Copy, Debug, PartialEq, Eq, Structural)]
pub struct CPUState {
    /// The opcode byte.
    pub ins: u8,
    /// The operand byte that the instruction read, or zero.
    pub op1: u8,
    /// The byte that the instruction wrote to memory, or zero.
    pub op2: u8,
    pub A: u8,
    pub X: u8,
    pub Y: u8,
    pub P: StatusRegister,
    pub SP: u8,
    /// The program counter after the instruction.
    pub PC: u16,
    /// The address that the instruction resolved, or zero.
    pub adr: u16,
    /// The address that the opcode was fetched from.
    pub at: u16,
}

impl CPUState {
    /// The snapshot of an instruction that has touched nothing yet.
    pub open spec fn spec_new(regs: Registers, ins: u8) -> CPUState {
        CPUState {
            ins,
            op1: 0,
            op2: 0,
            A: regs.a,
            X: regs.x,
            Y: regs.y,
            P: regs.p,
            SP: regs.sp,
            PC: regs.pc,
            adr: 0,
            at: regs.pc,
        }
    }

    /// The snapshot of an instruction that has touched nothing yet.
    pub fn new(regs: &Registers, ins: u8) -> (state: Self)
        ensures
            state == CPUState::spec_new(*regs, ins),
    {
        CPUState {
            ins,
            op1: 0,
            op2: 0,
            A: regs.a,
            X: regs.x,
            Y: regs.y,
            P: regs.p,
            SP: regs.sp,
            PC: regs.pc,
            adr: 0,
            at: regs.pc,
        }
    }
}

} // verus!
