//! The executable engine: each function performs on a memory what the
//! function of the same name in `semantics` says of its model.

use crate::alu::{adc, asl, bit, compare, lsr, rol, ror, sbc};
use crate::bytes::{add16, add8, high_byte, low_byte, make_word, offset16, sub16, sub8};
use crate::instruction::{
    decode, length, AdressingType, Instruction, Operand, Operation, Register,
};
use crate::memory::Memory6502;
use crate::registers::{
    flag_mask, stack_address, CPUState, CpuError, CpuErrorKind, InterruptType, Registers,
    BREAK_VECTOR, REQUEST_VECTOR,
};
use crate::semantics::{
    spec_behind_operand, spec_exec_assign, spec_exec_branch, spec_exec_brk, spec_exec_jmp,
    spec_exec_jsr, spec_exec_modify, spec_exec_pla, spec_exec_plp, spec_exec_push,
    spec_exec_rti, spec_exec_rts, spec_exec_store, spec_exec_transfer, spec_exec_value,
    spec_execute, spec_fetch, spec_get_address, spec_interrupt, spec_modify_op,
    spec_operand_address, spec_pull, spec_pull_word, spec_push, spec_push_word, spec_snapshot,
    spec_step, spec_value_op, Effect,
};
use crate::status::StatusRegister;
use vstd::prelude::*;

verus! {

/// Pushes a byte onto the stack.
pub fn push<M: Memory6502>(regs: Registers, memory: &mut M, value: u8) -> (after: Registers)
    ensures
        after == spec_push::<M>(regs, old(memory)@, value).0,
        final(memory)@ == spec_push::<M>(regs, old(memory)@, value).1,
{
    memory.write_memory(stack_address(regs.sp), value);
    Registers { sp: sub8(regs.sp, 1), ..regs }
}

/// Pulls a byte from the stack.
pub fn pull<M: Memory6502>(regs: Registers, memory: &mut M) -> (out: (u8, Registers))
    ensures
        out.0 == spec_pull::<M>(regs, old(memory)@).0,
        out.1 == spec_pull::<M>(regs, old(memory)@).1,
        final(memory)@ == spec_pull::<M>(regs, old(memory)@).2,
{
    let sp = add8(regs.sp, 1);
    let value = memory.read_memory(stack_address(sp));
    (value, Registers { sp, ..regs })
}

/// Pushes a word onto the stack, high byte first.
pub fn push_word<M: Memory6502>(regs: Registers, memory: &mut M, value: u16) -> (after:
    Registers)
    ensures
        after == spec_push_word::<M>(regs, old(memory)@, value).0,
        final(memory)@ == spec_push_word::<M>(regs, old(memory)@, value).1,
{
    let high = push(regs, memory, high_byte(value));
    push(high, memory, low_byte(value))
}

/// Pulls a word from the stack, low byte first.
pub fn pull_word<M: Memory6502>(regs: Registers, memory: &mut M) -> (out: (u16, Registers))
    ensures
        out.0 == spec_pull_word::<M>(regs, old(memory)@).0,
        out.1 == spec_pull_word::<M>(regs, old(memory)@).1,
        final(memory)@ == spec_pull_word::<M>(regs, old(memory)@).2,
{
    let low = pull(regs, memory);
    let high = pull(low.1, memory);
    (make_word(low.0, high.0), high.1)
}

/// Resolves the address of a memory operand whose bytes stand at the
/// program counter. Zero-page index sums wrap at 0xFF, absolute index
/// sums at 0xFFFF.
pub fn get_address<M: Memory6502>(
    adrtype: AdressingType,
    regs: &Registers,
    memory: &mut M,
) -> (address: u16)
    ensures
        address == spec_get_address::<M>(adrtype, *regs, old(memory)@).0,
        final(memory)@ == spec_get_address::<M>(adrtype, *regs, old(memory)@).1,
{
    match adrtype {
        AdressingType::ZeroPage => {
            let operand = memory.read_memory(regs.pc);
            operand as u16
        },
        AdressingType::ZeroPageX => {
            let operand = memory.read_memory(regs.pc);
            add8(operand, regs.x) as u16
        },
        AdressingType::ZeroPageY => {
            let operand = memory.read_memory(regs.pc);
            add8(operand, regs.y) as u16
        },
        AdressingType::Absolute => memory.read_memory_word(regs.pc),
        AdressingType::AbsoluteX => {
            let operand = memory.read_memory_word(regs.pc);
            add16(operand, regs.x as u16)
        },
        AdressingType::AbsoluteY => {
            let operand = memory.read_memory_word(regs.pc);
            add16(operand, regs.y as u16)
        },
        AdressingType::Indirect => {
            let operand = memory.read_memory_word(regs.pc);
            memory.read_memory_word(operand)
        },
        AdressingType::IndirectX => {
            let operand = memory.read_memory(regs.pc);
            memory.read_memory_word(add8(operand, regs.x) as u16)
        },
        AdressingType::IndirectY => {
            let operand = memory.read_memory(regs.pc);
            let base = memory.read_memory_word(operand as u16);
            add16(base, regs.y as u16)
        },
    }
}

/// The address of an operand in memory; zero for any other operand.
pub fn operand_address<M: Memory6502>(
    operand: Operand,
    regs: &Registers,
    memory: &mut M,
) -> (address: u16)
    ensures
        address == spec_operand_address::<M>(operand, *regs, old(memory)@).0,
        final(memory)@ == spec_operand_address::<M>(operand, *regs, old(memory)@).1,
{
    match operand {
        Operand::Memory(mode) => get_address(mode, regs, memory),
        _ => 0,
    }
}

/// Fetches the value an instruction works on, together with the
/// address it was found at.
pub fn fetch<M: Memory6502>(operand: Operand, regs: &Registers, memory: &mut M) -> (out: (u8, u16))
    ensures
        out.0 == spec_fetch::<M>(operand, *regs, old(memory)@).0,
        out.1 == spec_fetch::<M>(operand, *regs, old(memory)@).1,
        final(memory)@ == spec_fetch::<M>(operand, *regs, old(memory)@).2,
{
    match operand {
        Operand::Implied => (0, 0),
        Operand::Accumulator => (regs.a, 0),
        Operand::Immediate | Operand::Relative => {
            let value = memory.read_memory(regs.pc);
            (value, 0)
        },
        Operand::Memory(mode) => {
            let address = get_address(mode, regs, memory);
            let value = memory.read_memory(address);
            (value, address)
        },
    }
}

/// Applies an operation that takes a value to the registers.
pub fn value_op(operation: Operation, regs: Registers, value: u8) -> (after: Registers)
    ensures
        after == spec_value_op(operation, regs, value),
{
    let mut after = regs;
    match operation {
        Operation::Load(register) => {
            after.set(register, value);
            after.p.set_NZ(value);
        },
        Operation::Ora => {
            after.a = regs.a | value;
            after.p.set_NZ(after.a);
        },
        Operation::And => {
            after.a = regs.a & value;
            after.p.set_NZ(after.a);
        },
        Operation::Eor => {
            after.a = regs.a ^ value;
            after.p.set_NZ(after.a);
        },
        Operation::Adc => {
            let sum = adc(regs.a, value, regs.p);
            after.a = sum.0;
            after.p = sum.1;
        },
        Operation::Sbc => {
            let difference = sbc(regs.a, value, regs.p);
            after.a = difference.0;
            after.p = difference.1;
        },
        Operation::Bit => {
            after.p = bit(regs.a, value, regs.p);
        },
        Operation::Compare(register) => {
            after.p = compare(regs.get(register), value, regs.p);
        },
        _ => {},
    }
    after
}

/// Applies an operation that modifies a value.
pub fn modify_op(operation: Operation, value: u8, p: StatusRegister) -> (out: (
    u8,
    StatusRegister,
))
    ensures
        out == spec_modify_op(operation, value, p),
{
    match operation {
        Operation::Asl => asl(value, p),
        Operation::Lsr => lsr(value, p),
        Operation::Rol => rol(value, p),
        Operation::Ror => ror(value, p),
        Operation::Inc => {
            let mut p = p;
            let result = add8(value, 1);
            p.set_NZ(result);
            (result, p)
        },
        Operation::Dec => {
            let mut p = p;
            let result = sub8(value, 1);
            p.set_NZ(result);
            (result, p)
        },
        _ => (value, p),
    }
}

/// Runs the interrupt sequence for the given cause.
pub fn interrupt<M: Memory6502>(cause: InterruptType, regs: Registers, memory: &mut M) -> (after:
    Registers)
    ensures
        after == spec_interrupt::<M>(cause, regs, old(memory)@).0,
        final(memory)@ == spec_interrupt::<M>(cause, regs, old(memory)@).1,
{
    let masked = match cause {
        InterruptType::INT => regs.p.get_I(),
        _ => false,
    };
    if masked {
        return regs;
    }
    let return_address = push_word(regs, memory, regs.pc);
    let status: u8 = match cause {
        InterruptType::BRK => regs.p.value | 0x30,
        _ => regs.p.value | 0x20,
    };
    let pushed = push(return_address, memory, status);
    let vector = match cause {
        InterruptType::INT => REQUEST_VECTOR,
        _ => BREAK_VECTOR,
    };
    let target = memory.read_memory_word(vector);
    let mut p = regs.p;
    p.set_I(true);
    Registers { pc: target, p, ..pushed }
}

/// The registers with the program counter moved behind the operand.
pub fn behind_operand(operand: Operand, regs: Registers) -> (next: Registers)
    ensures
        next == spec_behind_operand(operand, regs),
{
    let size: u16 = match operand {
        Operand::Implied | Operand::Accumulator => 0,
        Operand::Immediate | Operand::Relative => 1,
        Operand::Memory(mode) => match mode {
            AdressingType::Absolute
            | AdressingType::AbsoluteX
            | AdressingType::AbsoluteY
            | AdressingType::Indirect => 2,
            _ => 1,
        },
    };
    Registers { pc: add16(regs.pc, size), ..regs }
}

/// Executes a load, a logic or arithmetic instruction, a comparison or
/// a bit test.
pub fn exec_value<M: Memory6502>(
    operation: Operation,
    operand: Operand,
    regs: Registers,
    memory: &mut M,
) -> (effect: Effect)
    ensures
        effect == spec_exec_value::<M>(operation, operand, regs, old(memory)@).0,
        final(memory)@ == spec_exec_value::<M>(operation, operand, regs, old(memory)@).1,
{
    let fetched = fetch(operand, &regs, memory);
    Effect {
        regs: value_op(operation, behind_operand(operand, regs), fetched.0),
        op1: fetched.0,
        op2: 0,
        adr: fetched.1,
    }
}

/// Executes a store.
pub fn exec_store<M: Memory6502>(
    register: Register,
    operand: Operand,
    regs: Registers,
    memory: &mut M,
) -> (effect: Effect)
    ensures
        effect == spec_exec_store::<M>(register, operand, regs, old(memory)@).0,
        final(memory)@ == spec_exec_store::<M>(register, operand, regs, old(memory)@).1,
{
    let address = operand_address(operand, &regs, memory);
    let value = regs.get(register);
    memory.write_memory(address, value);
    Effect { regs: behind_operand(operand, regs), op1: 0, op2: value, adr: address }
}

/// Executes a shift, a rotate, an increment or a decrement.
pub fn exec_modify<M: Memory6502>(
    operation: Operation,
    operand: Operand,
    regs: Registers,
    memory: &mut M,
) -> (effect: Effect)
    ensures
        effect == spec_exec_modify::<M>(operation, operand, regs, old(memory)@).0,
        final(memory)@ == spec_exec_modify::<M>(operation, operand, regs, old(memory)@).1,
{
    let next = behind_operand(operand, regs);
    match operand {
        Operand::Memory(mode) => {
            let address = get_address(mode, &regs, memory);
            let value = memory.read_memory(address);
            let changed = modify_op(operation, value, regs.p);
            memory.write_memory(address, changed.0);
            Effect {
                regs: Registers { p: changed.1, ..next },
                op1: value,
                op2: changed.0,
                adr: address,
            }
        },
        _ => {
            let changed = modify_op(operation, regs.a, regs.p);
            Effect {
                regs: Registers { a: changed.0, p: changed.1, ..next },
                op1: regs.a,
                op2: 0,
                adr: 0,
            }
        },
    }
}

/// Gives a register a value and lets Negative and Zero describe it.
pub fn exec_assign(register: Register, value: u8, regs: Registers) -> (effect: Effect)
    ensures
        effect == spec_exec_assign(register, value, regs),
{
    let mut after = regs;
    after.set(register, value);
    after.p.set_NZ(value);
    Effect { regs: after, op1: 0, op2: 0, adr: 0 }
}

/// Executes a register transfer.
pub fn exec_transfer(from: Register, to: Register, regs: Registers) -> (effect: Effect)
    ensures
        effect == spec_exec_transfer(from, to, regs),
{
    match to {
        Register::S => {
            let mut after = regs;
            after.set(to, regs.get(from));
            Effect { regs: after, op1: 0, op2: 0, adr: 0 }
        },
        _ => exec_assign(to, regs.get(from), regs),
    }
}

/// Executes a conditional branch on the flag behind `mask`.
pub fn exec_branch<M: Memory6502>(
    mask: u8,
    wanted: bool,
    regs: Registers,
    memory: &mut M,
) -> (effect: Effect)
    ensures
        effect == spec_exec_branch::<M>(mask, wanted, regs, old(memory)@).0,
        final(memory)@ == spec_exec_branch::<M>(mask, wanted, regs, old(memory)@).1,
{
    let distance = memory.read_memory(regs.pc);
    let next = Registers { pc: add16(regs.pc, 1), ..regs };
    if (regs.p.value & mask != 0) == wanted {
        let target = offset16(next.pc, distance);
        Effect { regs: Registers { pc: target, ..next }, op1: distance, op2: 0, adr: target }
    } else {
        Effect { regs: next, op1: distance, op2: 0, adr: 0 }
    }
}

/// Executes a jump.
pub fn exec_jmp<M: Memory6502>(operand: Operand, regs: Registers, memory: &mut M) -> (effect:
    Effect)
    ensures
        effect == spec_exec_jmp::<M>(operand, regs, old(memory)@).0,
        final(memory)@ == spec_exec_jmp::<M>(operand, regs, old(memory)@).1,
{
    let address = operand_address(operand, &regs, memory);
    Effect { regs: Registers { pc: address, ..regs }, op1: 0, op2: 0, adr: address }
}

/// Executes a subroutine call.
pub fn exec_jsr<M: Memory6502>(operand: Operand, regs: Registers, memory: &mut M) -> (effect:
    Effect)
    ensures
        effect == spec_exec_jsr::<M>(operand, regs, old(memory)@).0,
        final(memory)@ == spec_exec_jsr::<M>(operand, regs, old(memory)@).1,
{
    let address = operand_address(operand, &regs, memory);
    let last_byte = sub16(behind_operand(operand, regs).pc, 1);
    let pushed = push_word(regs, memory, last_byte);
    Effect { regs: Registers { pc: address, ..pushed }, op1: 0, op2: 0, adr: address }
}

/// Executes a return from a subroutine.
pub fn exec_rts<M: Memory6502>(regs: Registers, memory: &mut M) -> (effect: Effect)
    ensures
        effect == spec_exec_rts::<M>(regs, old(memory)@).0,
        final(memory)@ == spec_exec_rts::<M>(regs, old(memory)@).1,
{
    let pulled = pull_word(regs, memory);
    let target = add16(pulled.0, 1);
    Effect { regs: Registers { pc: target, ..pulled.1 }, op1: 0, op2: 0, adr: target }
}

/// Executes a return from an interrupt.
pub fn exec_rti<M: Memory6502>(regs: Registers, memory: &mut M) -> (effect: Effect)
    ensures
        effect == spec_exec_rti::<M>(regs, old(memory)@).0,
        final(memory)@ == spec_exec_rti::<M>(regs, old(memory)@).1,
{
    let status = pull(regs, memory);
    let pulled = pull_word(status.1, memory);
    Effect {
        regs: Registers {
            pc: pulled.0,
            p: StatusRegister { value: (status.0 & 0xdf) | 0x10 },
            ..pulled.1
        },
        op1: status.0,
        op2: 0,
        adr: pulled.0,
    }
}

/// Executes the software interrupt.
pub fn exec_brk<M: Memory6502>(regs: Registers, memory: &mut M) -> (effect: Effect)
    ensures
        effect == spec_exec_brk::<M>(regs, old(memory)@).0,
        final(memory)@ == spec_exec_brk::<M>(regs, old(memory)@).1,
{
    let skipped = Registers { pc: add16(regs.pc, 1), ..regs };
    let entered = interrupt(InterruptType::BRK, skipped, memory);
    Effect { regs: entered, op1: 0, op2: 0, adr: entered.pc }
}

/// Executes a push of `value`.
pub fn exec_push<M: Memory6502>(value: u8, regs: Registers, memory: &mut M) -> (effect: Effect)
    ensures
        effect == spec_exec_push::<M>(value, regs, old(memory)@).0,
        final(memory)@ == spec_exec_push::<M>(value, regs, old(memory)@).1,
{
    let pushed = push(regs, memory, value);
    Effect { regs: pushed, op1: 0, op2: value, adr: stack_address(regs.sp) }
}

/// Executes the pull of the accumulator.
pub fn exec_pla<M: Memory6502>(regs: Registers, memory: &mut M) -> (effect: Effect)
    ensures
        effect == spec_exec_pla::<M>(regs, old(memory)@).0,
        final(memory)@ == spec_exec_pla::<M>(regs, old(memory)@).1,
{
    let pulled = pull(regs, memory);
    let mut p = regs.p;
    p.set_NZ(pulled.0);
    Effect {
        regs: Registers { a: pulled.0, p, ..pulled.1 },
        op1: pulled.0,
        op2: 0,
        adr: stack_address(pulled.1.sp),
    }
}

/// Executes the pull of the status register.
pub fn exec_plp<M: Memory6502>(regs: Registers, memory: &mut M) -> (effect: Effect)
    ensures
        effect == spec_exec_plp::<M>(regs, old(memory)@).0,
        final(memory)@ == spec_exec_plp::<M>(regs, old(memory)@).1,
{
    let pulled = pull(regs, memory);
    Effect {
        regs: Registers { p: StatusRegister { value: pulled.0 & 0xcf }, ..pulled.1 },
        op1: pulled.0,
        op2: 0,
        adr: stack_address(pulled.1.sp),
    }
}

/// Executes a decoded instruction. On entry the program counter of
/// `regs` is at the byte behind the opcode.
pub fn execute<M: Memory6502>(instruction: Instruction, regs: Registers, memory: &mut M) -> (effect:
    Effect)
    ensures
        effect == spec_execute::<M>(instruction, regs, old(memory)@).0,
        final(memory)@ == spec_execute::<M>(instruction, regs, old(memory)@).1,
{
    reveal(spec_execute);
    let operand = instruction.operand;
    let next = behind_operand(operand, regs);
    match instruction.operation {
        Operation::Load(_)
        | Operation::Ora
        | Operation::And
        | Operation::Eor
        | Operation::Adc
        | Operation::Sbc
        | Operation::Bit
        | Operation::Compare(_) => exec_value(instruction.operation, operand, regs, memory),
        Operation::Store(register) => exec_store(register, operand, regs, memory),
        Operation::Asl
        | Operation::Lsr
        | Operation::Rol
        | Operation::Ror
        | Operation::Inc
        | Operation::Dec => exec_modify(instruction.operation, operand, regs, memory),
        Operation::IncRegister(register) => exec_assign(
            register,
            add8(regs.get(register), 1),
            next,
        ),
        Operation::DecRegister(register) => exec_assign(
            register,
            sub8(regs.get(register), 1),
            next,
        ),
        Operation::Transfer(from, to) => exec_transfer(from, to, next),
        Operation::Branch(flag, wanted) => exec_branch(flag_mask(flag), wanted, regs, memory),
        Operation::SetFlag(flag, on) => {
            let mask = flag_mask(flag);
            let mut after = next;
            after.p.value = if on {
                after.p.value | mask
            } else {
                after.p.value & !mask
            };
            Effect { regs: after, op1: 0, op2: 0, adr: 0 }
        },
        Operation::Jmp => exec_jmp(operand, regs, memory),
        Operation::Jsr => exec_jsr(operand, regs, memory),
        Operation::Rts => exec_rts(regs, memory),
        Operation::Rti => exec_rti(regs, memory),
        Operation::Brk => exec_brk(regs, memory),
        Operation::Nop => Effect { regs: next, op1: 0, op2: 0, adr: 0 },
        Operation::Pha => exec_push(regs.a, next, memory),
        Operation::Php => exec_push(regs.p.value | 0x30, next, memory),
        Operation::Pla => exec_pla(next, memory),
        Operation::Plp => exec_plp(next, memory),
    }
}

/// Builds the trace entry of an instruction.
pub fn snapshot(ins: u8, at: u16, effect: Effect) -> (state: CPUState)
    ensures
        state == spec_snapshot(ins, at, effect),
{
    CPUState {
        ins,
        op1: effect.op1,
        op2: effect.op2,
        A: effect.regs.a,
        X: effect.regs.x,
        Y: effect.regs.y,
        P: effect.regs.p,
        SP: effect.regs.sp,
        PC: effect.regs.pc,
        adr: effect.adr,
        at,
    }
}


/// Fetches the opcode at the program counter and executes it. Returns
/// the registers afterwards, what the caller is told, and the trace
/// entry, if the step made one.
pub fn step<M: Memory6502>(regs: Registers, memory: &mut M) -> (out: (
    Registers,
    Result<u16, CpuError>,
    Option<CPUState>,
))
    ensures
        out.0 == spec_step::<M>(regs, old(memory)@).regs,
        out.1 == spec_step::<M>(regs, old(memory)@).result,
        out.2 == spec_step::<M>(regs, old(memory)@).state,
        final(memory)@ == spec_step::<M>(regs, old(memory)@).mem,
{
    let opcode = memory.read_memory(regs.pc);
    if regs.pc == 0xffff {
        return (regs, Err(CpuError::new(CpuErrorKind::PcOverflow, regs.pc)), None);
    }
    let behind = Registers { pc: regs.pc + 1, ..regs };
    match decode(opcode) {
        None => (
            behind,
            Err(CpuError::new(CpuErrorKind::UnknownOpcode(opcode), regs.pc)),
            Some(snapshot(opcode, regs.pc, Effect { regs: behind, op1: 0, op2: 0, adr: 0 })),
        ),
        Some(instruction) => {
            if regs.pc > 0xffff - length(instruction) {
                return (regs, Err(CpuError::new(CpuErrorKind::PcOverflow, regs.pc)), None);
            }
            let effect = execute(instruction, behind, memory);
            let result = if effect.regs.pc == regs.pc {
                Err(CpuError::new(CpuErrorKind::SelfLoop, regs.pc))
            } else {
                Ok(effect.regs.pc)
            };
            (effect.regs, result, Some(snapshot(opcode, regs.pc, effect)))
        },
    }
}

} // verus!
