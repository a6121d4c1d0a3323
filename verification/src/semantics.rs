//! The meaning of the instruction set: pure functions from the register
//! file and the model of the memory to what both are afterwards.

use crate::alu::{
    spec_adc, spec_asl, spec_bit, spec_compare, spec_lsr, spec_rol, spec_ror, spec_sbc,
};
use crate::bytes::{signed8, word, wrap16, wrap8};
use crate::instruction::{
    spec_decode, spec_length, spec_operand_size, AdressingType, Instruction, Operand, Operation,
    Register,
};
use crate::memory::{spec_read_word, Memory6502};
use crate::registers::{
    spec_flag_mask, spec_stack_address, CPUState, CpuError, CpuErrorKind, InterruptType,
    Registers, BREAK_VECTOR, REQUEST_VECTOR,
};
use crate::status::{StatusRegister, FLAG_I};
use vstd::prelude::*;

verus! {

/// What one instruction did to the registers, and what it met on its
/// way: the operand byte read, the byte written and the address
/// resolved (each zero where there was none).
#[derive(Clone, Copy, Debug, PartialEq, Eq, Structural)]
pub struct Effect {
    pub regs: Registers,
    pub op1: u8,
    pub op2: u8,
    pub adr: u16,
}

/// Push: write at the stack pointer, then move it down, wrapping within
/// the stack page.
pub open spec fn spec_push<M: Memory6502>(regs: Registers, mem: M::V, value: u8) -> (
    Registers,
    M::V,
) {
    (
        Registers { sp: wrap8(regs.sp - 1), ..regs },
        M::spec_write(mem, spec_stack_address(regs.sp), value),
    )
}

/// Pull: move the stack pointer up, wrapping within the stack page,
/// then read at it.
pub open spec fn spec_pull<M: Memory6502>(regs: Registers, mem: M::V) -> (u8, Registers, M::V) {
    let sp = wrap8(regs.sp + 1);
    let read = M::spec_read(mem, spec_stack_address(sp));
    (read.0, Registers { sp, ..regs }, read.1)
}

/// Pushes a word, high byte first.
pub open spec fn spec_push_word<M: Memory6502>(regs: Registers, mem: M::V, value: u16) -> (
    Registers,
    M::V,
) {
    let high = spec_push::<M>(regs, mem, (value / 256) as u8);
    spec_push::<M>(high.0, high.1, (value % 256) as u8)
}

/// Pulls a word, low byte first.
pub open spec fn spec_pull_word<M: Memory6502>(regs: Registers, mem: M::V) -> (
    u16,
    Registers,
    M::V,
) {
    let low = spec_pull::<M>(regs, mem);
    let high = spec_pull::<M>(low.1, low.2);
    (word(low.0, high.0), high.1, high.2)
}

/// The address that an addressing mode resolves to, with the operand
/// bytes taken at the program counter, and the memory after the reads
/// this took.
pub open spec fn spec_get_address<M: Memory6502>(
    mode: AdressingType,
    regs: Registers,
    mem: M::V,
) -> (u16, M::V) {
    match mode {
        AdressingType::ZeroPage => {
            let operand = M::spec_read(mem, regs.pc);
            (operand.0 as u16, operand.1)
        },
        AdressingType::ZeroPageX => {
            let operand = M::spec_read(mem, regs.pc);
            (wrap8(operand.0 + regs.x) as u16, operand.1)
        },
        AdressingType::ZeroPageY => {
            let operand = M::spec_read(mem, regs.pc);
            (wrap8(operand.0 + regs.y) as u16, operand.1)
        },
        AdressingType::Absolute => spec_read_word::<M>(mem, regs.pc),
        AdressingType::AbsoluteX => {
            let operand = spec_read_word::<M>(mem, regs.pc);
            (wrap16(operand.0 + regs.x), operand.1)
        },
        AdressingType::AbsoluteY => {
            let operand = spec_read_word::<M>(mem, regs.pc);
            (wrap16(operand.0 + regs.y), operand.1)
        },
        AdressingType::Indirect => {
            let operand = spec_read_word::<M>(mem, regs.pc);
            spec_read_word::<M>(operand.1, operand.0)
        },
        AdressingType::IndirectX => {
            let operand = M::spec_read(mem, regs.pc);
            spec_read_word::<M>(operand.1, wrap8(operand.0 + regs.x) as u16)
        },
        AdressingType::IndirectY => {
            let operand = M::spec_read(mem, regs.pc);
            let base = spec_read_word::<M>(operand.1, operand.0 as u16);
            (wrap16(base.0 + regs.y), base.1)
        },
    }
}

/// The address of an operand in memory; zero for an operand that is not
/// in memory.
pub open spec fn spec_operand_address<M: Memory6502>(
    operand: Operand,
    regs: Registers,
    mem: M::V,
) -> (u16, M::V) {
    match operand {
        Operand::Memory(mode) => spec_get_address::<M>(mode, regs, mem),
        _ => (0u16, mem),
    }
}

/// The value an instruction works on, the address it came from (zero
/// when it did not come from a resolved address) and the memory after
/// the reads this took.
pub open spec fn spec_fetch<M: Memory6502>(operand: Operand, regs: Registers, mem: M::V) -> (
    u8,
    u16,
    M::V,
) {
    match operand {
        Operand::Implied => (0u8, 0u16, mem),
        Operand::Accumulator => (regs.a, 0u16, mem),
        Operand::Immediate | Operand::Relative => {
            let read = M::spec_read(mem, regs.pc);
            (read.0, 0u16, read.1)
        },
        Operand::Memory(mode) => {
            let target = spec_get_address::<M>(mode, regs, mem);
            let read = M::spec_read(target.1, target.0);
            (read.0, target.0, read.1)
        },
    }
}

/// True for the operations that take a value and leave their result in
/// registers and flags: loads, logic, arithmetic, comparisons, bit test.
pub open spec fn takes_value(operation: Operation) -> bool {
    match operation {
        Operation::Load(_)
        | Operation::Ora
        | Operation::And
        | Operation::Eor
        | Operation::Adc
        | Operation::Sbc
        | Operation::Bit
        | Operation::Compare(_) => true,
        _ => false,
    }
}

/// True for the operations that read a byte, change it and write it
/// back: shifts, rotates, increment and decrement.
pub open spec fn modifies_value(operation: Operation) -> bool {
    match operation {
        Operation::Asl
        | Operation::Lsr
        | Operation::Rol
        | Operation::Ror
        | Operation::Inc
        | Operation::Dec => true,
        _ => false,
    }
}

/// The registers after an operation that takes a value.
pub open spec fn spec_value_op(operation: Operation, regs: Registers, value: u8) -> Registers {
    match operation {
        Operation::Load(register) => Registers {
            p: regs.p.with_nz(value),
            ..regs.spec_set(register, value)
        },
        Operation::Ora => Registers {
            a: regs.a | value,
            p: regs.p.with_nz(regs.a | value),
            ..regs
        },
        Operation::And => Registers {
            a: regs.a & value,
            p: regs.p.with_nz(regs.a & value),
            ..regs
        },
        Operation::Eor => Registers {
            a: regs.a ^ value,
            p: regs.p.with_nz(regs.a ^ value),
            ..regs
        },
        Operation::Adc => Registers {
            a: spec_adc(regs.a, value, regs.p).0,
            p: spec_adc(regs.a, value, regs.p).1,
            ..regs
        },
        Operation::Sbc => Registers {
            a: spec_sbc(regs.a, value, regs.p).0,
            p: spec_sbc(regs.a, value, regs.p).1,
            ..regs
        },
        Operation::Bit => Registers { p: spec_bit(regs.a, value, regs.p), ..regs },
        Operation::Compare(register) => Registers {
            p: spec_compare(regs.spec_get(register), value, regs.p),
            ..regs
        },
        _ => regs,
    }
}

/// The byte and the flags after an operation that modifies a value.
pub open spec fn spec_modify_op(operation: Operation, value: u8, p: StatusRegister) -> (
    u8,
    StatusRegister,
) {
    match operation {
        Operation::Asl => spec_asl(value, p),
        Operation::Lsr => spec_lsr(value, p),
        Operation::Rol => spec_rol(value, p),
        Operation::Ror => spec_ror(value, p),
        Operation::Inc => (wrap8(value + 1), p.with_nz(wrap8(value + 1))),
        Operation::Dec => (wrap8(value - 1), p.with_nz(wrap8(value - 1))),
        _ => (value, p),
    }
}

/// The interrupt sequence. A maskable request is ignored while
/// interrupts are disabled. Otherwise the program counter (high byte,
/// then low) and the status register are pushed, the latter with bit 5
/// set and, for the software interrupt, bit 4 as well; interrupts are
/// disabled and the program counter is loaded from the vector of the
/// cause.
pub open spec fn spec_interrupt<M: Memory6502>(
    kind: InterruptType,
    regs: Registers,
    mem: M::V,
) -> (Registers, M::V) {
    if kind == InterruptType::INT && regs.p.interrupt_disable() {
        (regs, mem)
    } else {
        let return_address = spec_push_word::<M>(regs, mem, regs.pc);
        let status: u8 = if kind == InterruptType::BRK {
            regs.p.value | 0x30
        } else {
            regs.p.value | 0x20
        };
        let pushed = spec_push::<M>(return_address.0, return_address.1, status);
        let vector = if kind == InterruptType::INT {
            REQUEST_VECTOR
        } else {
            BREAK_VECTOR
        };
        let target = spec_read_word::<M>(pushed.1, vector);
        (
            Registers { pc: target.0, p: regs.p.with_flag(FLAG_I, true), ..pushed.0 },
            target.1,
        )
    }
}

/// The registers with the program counter moved behind the operand.
pub open spec fn spec_behind_operand(operand: Operand, regs: Registers) -> Registers {
    Registers { pc: wrap16(regs.pc + spec_operand_size(operand)), ..regs }
}

/// An instruction that does nothing but move on.
pub open spec fn spec_plain_effect(regs: Registers) -> Effect {
    Effect { regs, op1: 0, op2: 0, adr: 0 }
}

/// Loads, logic, arithmetic, comparisons and the bit test: the operand
/// value is fetched and applied to the registers.
pub open spec fn spec_exec_value<M: Memory6502>(
    operation: Operation,
    operand: Operand,
    regs: Registers,
    mem: M::V,
) -> (Effect, M::V) {
    let fetched = spec_fetch::<M>(operand, regs, mem);
    (
        Effect {
            regs: spec_value_op(operation, spec_behind_operand(operand, regs), fetched.0),
            op1: fetched.0,
            op2: 0,
            adr: fetched.1,
        },
        fetched.2,
    )
}

/// Stores: the register is written to the operand address; the address
/// itself is not read.
pub open spec fn spec_exec_store<M: Memory6502>(
    register: Register,
    operand: Operand,
    regs: Registers,
    mem: M::V,
) -> (Effect, M::V) {
    let target = spec_operand_address::<M>(operand, regs, mem);
    let value = regs.spec_get(register);
    (
        Effect { regs: spec_behind_operand(operand, regs), op1: 0, op2: value, adr: target.0 },
        M::spec_write(target.1, target.0, value),
    )
}

/// Shifts, rotates, increment and decrement: on a memory operand the
/// byte is read once, changed, and written back once; otherwise the
/// accumulator is changed.
pub open spec fn spec_exec_modify<M: Memory6502>(
    operation: Operation,
    operand: Operand,
    regs: Registers,
    mem: M::V,
) -> (Effect, M::V) {
    let next = spec_behind_operand(operand, regs);
    match operand {
        Operand::Memory(mode) => {
            let target = spec_get_address::<M>(mode, regs, mem);
            let read = M::spec_read(target.1, target.0);
            let changed = spec_modify_op(operation, read.0, regs.p);
            (
                Effect {
                    regs: Registers { p: changed.1, ..next },
                    op1: read.0,
                    op2: changed.0,
                    adr: target.0,
                },
                M::spec_write(read.1, target.0, changed.0),
            )
        },
        _ => {
            let changed = spec_modify_op(operation, regs.a, regs.p);
            (
                Effect {
                    regs: Registers { a: changed.0, p: changed.1, ..next },
                    op1: regs.a,
                    op2: 0,
                    adr: 0,
                },
                mem,
            )
        },
    }
}

/// A register receives a value, and Negative and Zero describe it.
pub open spec fn spec_exec_assign(register: Register, value: u8, regs: Registers) -> Effect {
    spec_plain_effect(Registers { p: regs.p.with_nz(value), ..regs.spec_set(register, value) })
}

/// Register transfers. The transfer to the stack pointer leaves the
/// flags alone.
pub open spec fn spec_exec_transfer(from: Register, to: Register, regs: Registers) -> Effect {
    if to == Register::S {
        spec_plain_effect(regs.spec_set(to, regs.spec_get(from)))
    } else {
        spec_exec_assign(to, regs.spec_get(from), regs)
    }
}

/// Conditional branches: the distance byte is read; if the flag has
/// the wanted state, the program counter moves by the signed distance
/// from the instruction behind the branch, wrapping at sixteen bits.
pub open spec fn spec_exec_branch<M: Memory6502>(
    mask: u8,
    wanted: bool,
    regs: Registers,
    mem: M::V,
) -> (Effect, M::V) {
    let distance = M::spec_read(mem, regs.pc);
    let next = Registers { pc: wrap16(regs.pc + 1), ..regs };
    let target = wrap16(next.pc + signed8(distance.0));
    if regs.p.flag(mask) == wanted {
        (
            Effect { regs: Registers { pc: target, ..next }, op1: distance.0, op2: 0, adr: target },
            distance.1,
        )
    } else {
        (Effect { regs: next, op1: distance.0, op2: 0, adr: 0 }, distance.1)
    }
}

/// Jumps: the program counter becomes the operand address.
pub open spec fn spec_exec_jmp<M: Memory6502>(operand: Operand, regs: Registers, mem: M::V) -> (
    Effect,
    M::V,
) {
    let target = spec_operand_address::<M>(operand, regs, mem);
    (Effect { regs: Registers { pc: target.0, ..regs }, op1: 0, op2: 0, adr: target.0 }, target.1)
}

/// Subroutine call: the address of the last byte of the call
/// instruction is pushed, high byte first, and the program counter
/// becomes the operand address.
pub open spec fn spec_exec_jsr<M: Memory6502>(operand: Operand, regs: Registers, mem: M::V) -> (
    Effect,
    M::V,
) {
    let target = spec_operand_address::<M>(operand, regs, mem);
    let last_byte = wrap16(spec_behind_operand(operand, regs).pc - 1);
    let pushed = spec_push_word::<M>(regs, target.1, last_byte);
    (
        Effect { regs: Registers { pc: target.0, ..pushed.0 }, op1: 0, op2: 0, adr: target.0 },
        pushed.1,
    )
}

/// Return from a subroutine: a word is pulled, low byte first, and the
/// program counter becomes that word plus one.
pub open spec fn spec_exec_rts<M: Memory6502>(regs: Registers, mem: M::V) -> (Effect, M::V) {
    let pulled = spec_pull_word::<M>(regs, mem);
    let target = wrap16(pulled.0 + 1);
    (Effect { regs: Registers { pc: target, ..pulled.1 }, op1: 0, op2: 0, adr: target }, pulled.2)
}

/// Return from an interrupt: the status register is pulled, with bit 5
/// masked out and bit 4 forced to one, then the program counter.
pub open spec fn spec_exec_rti<M: Memory6502>(regs: Registers, mem: M::V) -> (Effect, M::V) {
    let status = spec_pull::<M>(regs, mem);
    let pulled = spec_pull_word::<M>(status.1, status.2);
    (
        Effect {
            regs: Registers {
                pc: pulled.0,
                p: StatusRegister { value: (status.0 & 0xdf) | 0x10 },
                ..pulled.1
            },
            op1: status.0,
            op2: 0,
            adr: pulled.0,
        },
        pulled.2,
    )
}

/// Software interrupt: the byte behind the opcode is skipped, then the
/// interrupt sequence runs.
pub open spec fn spec_exec_brk<M: Memory6502>(regs: Registers, mem: M::V) -> (Effect, M::V) {
    let entered = spec_interrupt::<M>(
        InterruptType::BRK,
        Registers { pc: wrap16(regs.pc + 1), ..regs },
        mem,
    );
    (Effect { regs: entered.0, op1: 0, op2: 0, adr: entered.0.pc }, entered.1)
}

/// Pushes a byte as an instruction does: accumulator, or status with
/// bits 4 and 5 forced to one.
pub open spec fn spec_exec_push<M: Memory6502>(value: u8, regs: Registers, mem: M::V) -> (
    Effect,
    M::V,
) {
    let pushed = spec_push::<M>(regs, mem, value);
    (Effect { regs: pushed.0, op1: 0, op2: value, adr: spec_stack_address(regs.sp) }, pushed.1)
}

/// Pulls the accumulator; Negative and Zero describe the byte.
pub open spec fn spec_exec_pla<M: Memory6502>(regs: Registers, mem: M::V) -> (Effect, M::V) {
    let pulled = spec_pull::<M>(regs, mem);
    (
        Effect {
            regs: Registers { a: pulled.0, p: regs.p.with_nz(pulled.0), ..pulled.1 },
            op1: pulled.0,
            op2: 0,
            adr: spec_stack_address(pulled.1.sp),
        },
        pulled.2,
    )
}

/// Pulls the status register, with bits 4 and 5 masked out.
pub open spec fn spec_exec_plp<M: Memory6502>(regs: Registers, mem: M::V) -> (Effect, M::V) {
    let pulled = spec_pull::<M>(regs, mem);
    (
        Effect {
            regs: Registers { p: StatusRegister { value: pulled.0 & 0xcf }, ..pulled.1 },
            op1: pulled.0,
            op2: 0,
            adr: spec_stack_address(pulled.1.sp),
        },
        pulled.2,
    )
}

/// What a decoded instruction does. On entry the program counter of
/// `regs` is at the byte behind the opcode.
///
/// The definition is opaque to keep proofs about single instructions
/// small; `reveal(spec_execute)` unfolds it.
#[verifier::opaque]
pub open spec fn spec_execute<M: Memory6502>(
    instruction: Instruction,
    regs: Registers,
    mem: M::V,
) -> (Effect, M::V) {
    let operand = instruction.operand;
    let next = spec_behind_operand(operand, regs);
    match instruction.operation {
        Operation::Load(_)
        | Operation::Ora
        | Operation::And
        | Operation::Eor
        | Operation::Adc
        | Operation::Sbc
        | Operation::Bit
        | Operation::Compare(_) => spec_exec_value::<M>(instruction.operation, operand, regs, mem),
        Operation::Store(register) => spec_exec_store::<M>(register, operand, regs, mem),
        Operation::Asl
        | Operation::Lsr
        | Operation::Rol
        | Operation::Ror
        | Operation::Inc
        | Operation::Dec => spec_exec_modify::<M>(instruction.operation, operand, regs, mem),
        Operation::IncRegister(register) => (
            spec_exec_assign(register, wrap8(regs.spec_get(register) + 1), next),
            mem,
        ),
        Operation::DecRegister(register) => (
            spec_exec_assign(register, wrap8(regs.spec_get(register) - 1), next),
            mem,
        ),
        Operation::Transfer(from, to) => (spec_exec_transfer(from, to, next), mem),
        Operation::Branch(flag, wanted) => spec_exec_branch::<M>(
            spec_flag_mask(flag),
            wanted,
            regs,
            mem,
        ),
        Operation::SetFlag(flag, on) => (
            spec_plain_effect(Registers { p: regs.p.with_flag(spec_flag_mask(flag), on), ..next }),
            mem,
        ),
        Operation::Jmp => spec_exec_jmp::<M>(operand, regs, mem),
        Operation::Jsr => spec_exec_jsr::<M>(operand, regs, mem),
        Operation::Rts => spec_exec_rts::<M>(regs, mem),
        Operation::Rti => spec_exec_rti::<M>(regs, mem),
        Operation::Brk => spec_exec_brk::<M>(regs, mem),
        Operation::Nop => (spec_plain_effect(next), mem),
        Operation::Pha => spec_exec_push::<M>(regs.a, next, mem),
        Operation::Php => spec_exec_push::<M>(regs.p.value | 0x30, next, mem),
        Operation::Pla => spec_exec_pla::<M>(next, mem),
        Operation::Plp => spec_exec_plp::<M>(next, mem),
    }
}

/// The trace entry of an instruction: opcode and origin, what the
/// instruction met, and the registers as it left them.
pub open spec fn spec_snapshot(ins: u8, at: u16, effect: Effect) -> CPUState {
    CPUState {
        ins,
        op1: effect.op1,
        op2: effect.op2,
        A: effect.regs.a,
        X: effect.regs.x,
        Y: effect.regs.y,
        P: effect.regs.p,
        SP: effect.regs.sp,
        PC: effect.regs.pc,
        adr: effect.adr,
        at,
    }
}

/// One step of the engine: the registers and the memory afterwards,
/// what the caller is told, and the trace entry, if the step made one.
pub struct Step<S> {
    pub regs: Registers,
    pub mem: S,
    pub result: Result<u16, CpuError>,
    pub state: Option<CPUState>,
}

/// Fetches the opcode at the program counter and executes it.
///
/// * If the instruction does not fit below the top of the address space
///   (its fetch would move the program counter past 0xFFFF), nothing but
///   the opcode read happens and the step fails with `PcOverflow`.
/// * If the opcode is not defined, the program counter moves behind it
///   and the step fails with `UnknownOpcode` at the address of the
///   opcode.
/// * Otherwise the instruction is executed. If it leaves the program
///   counter where the opcode was fetched, the step fails with
///   `SelfLoop`; else it succeeds with the new program counter.
pub open spec fn spec_step<M: Memory6502>(regs: Registers, mem: M::V) -> Step<M::V> {
    let opcode = M::spec_read(mem, regs.pc);
    let behind = Registers { pc: wrap16(regs.pc + 1), ..regs };
    if regs.pc == 0xffff {
        Step {
            regs,
            mem: opcode.1,
            result: Err(CpuError { pc: regs.pc, kind: CpuErrorKind::PcOverflow }),
            state: None,
        }
    } else {
        match spec_decode(opcode.0) {
            None => Step {
                regs: behind,
                mem: opcode.1,
                result: Err(
                    CpuError { pc: regs.pc, kind: CpuErrorKind::UnknownOpcode(opcode.0) },
                ),
                state: Some(
                    spec_snapshot(
                        opcode.0,
                        regs.pc,
                        Effect { regs: behind, op1: 0, op2: 0, adr: 0 },
                    ),
                ),
            },
            Some(instruction) => if regs.pc + spec_length(instruction) > 0xffff {
                Step {
                    regs,
                    mem: opcode.1,
                    result: Err(CpuError { pc: regs.pc, kind: CpuErrorKind::PcOverflow }),
                    state: None,
                }
            } else {
                let done = spec_execute::<M>(instruction, behind, opcode.1);
                Step {
                    regs: done.0.regs,
                    mem: done.1,
                    result: if done.0.regs.pc == regs.pc {
                        Err(CpuError { pc: regs.pc, kind: CpuErrorKind::SelfLoop })
                    } else {
                        Ok(done.0.regs.pc)
                    },
                    state: Some(spec_snapshot(opcode.0, regs.pc, done.0)),
                }
            },
        }
    }
}

} // verus!
