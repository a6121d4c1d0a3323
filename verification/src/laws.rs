//! What holds of the instruction set whatever the memory is: the flags
//! follow the result, and the stack gives back what was put on it.

use crate::alu::{spec_adc, spec_sbc};
use crate::bytes::{wrap16, wrap8};
use crate::instruction::{
    spec_decode, spec_length, AdressingType, Instruction, Operand, Operation, Register,
};
use crate::memory::{spec_read_word, Memory6502};
use crate::registers::{spec_stack_address, CpuError, CpuErrorKind, InterruptType, Registers};
use crate::semantics::{
    spec_execute, spec_fetch, spec_interrupt, spec_modify_op, spec_pull, spec_pull_word,
    spec_push, spec_push_word, spec_step,
};
use crate::status::{lemma_sign_bit, StatusRegister};
use vstd::prelude::*;

verus! {

/// The result byte of an instruction that computes one: the value
/// loaded, combined, added, subtracted, compared, shifted, counted or
/// transferred. `None` for instructions that leave Negative and Zero
/// alone or take them from elsewhere (bit test, status pulls, flag
/// instructions, stores, jumps, and the transfer to the stack pointer).
pub open spec fn spec_result<M: Memory6502>(
    instruction: Instruction,
    regs: Registers,
    mem: M::V,
) -> Option<u8> {
    let value = spec_fetch::<M>(instruction.operand, regs, mem).0;
    match instruction.operation {
        Operation::Load(_) => Some(value),
        Operation::Ora => Some(regs.a | value),
        Operation::And => Some(regs.a & value),
        Operation::Eor => Some(regs.a ^ value),
        Operation::Adc => Some(spec_adc(regs.a, value, regs.p).0),
        Operation::Sbc => Some(spec_sbc(regs.a, value, regs.p).0),
        Operation::Compare(register) => Some(wrap8(regs.spec_get(register) - value)),
        Operation::Asl
        | Operation::Lsr
        | Operation::Rol
        | Operation::Ror
        | Operation::Inc
        | Operation::Dec => match instruction.operand {
            Operand::Memory(_) => Some(spec_modify_op(instruction.operation, value, regs.p).0),
            _ => Some(spec_modify_op(instruction.operation, regs.a, regs.p).0),
        },
        Operation::IncRegister(register) => Some(wrap8(regs.spec_get(register) + 1)),
        Operation::DecRegister(register) => Some(wrap8(regs.spec_get(register) - 1)),
        Operation::Transfer(from, to) => if to == Register::S {
            None
        } else {
            Some(regs.spec_get(from))
        },
        Operation::Pla => Some(spec_pull::<M>(regs, mem).0),
        _ => None,
    }
}

/// The flags after an operation that takes a value describe its result.
proof fn lemma_value_flags(operation: Operation, regs: Registers, value: u8)
    requires
        operation != Operation::Bit,
    ensures
        ({
            let after = crate::semantics::spec_value_op(operation, regs, value);
            let result = match operation {
                Operation::Load(_) => value,
                Operation::Ora => regs.a | value,
                Operation::And => regs.a & value,
                Operation::Eor => regs.a ^ value,
                Operation::Adc => spec_adc(regs.a, value, regs.p).0,
                Operation::Sbc => spec_sbc(regs.a, value, regs.p).0,
                Operation::Compare(register) => wrap8(regs.spec_get(register) - value),
                _ => 0u8,
            };
            crate::semantics::takes_value(operation) ==> after.p.negative() == (result & 0x80
                != 0) && after.p.zero() == (result == 0)
        }),
{
    match operation {
        Operation::Load(_) => {
            lemma_sign_bit(value);
            regs.p.lemma_flags_after_nz(value);
        },
        Operation::Ora => {
            lemma_sign_bit(regs.a | value);
            regs.p.lemma_flags_after_nz(regs.a | value);
        },
        Operation::And => {
            lemma_sign_bit(regs.a & value);
            regs.p.lemma_flags_after_nz(regs.a & value);
        },
        Operation::Eor => {
            lemma_sign_bit(regs.a ^ value);
            regs.p.lemma_flags_after_nz(regs.a ^ value);
        },
        Operation::Adc => {
            if regs.p.decimal() {
                crate::alu::lemma_adc_any_decimal(regs.a, value, regs.p);
            } else {
                crate::alu::lemma_adc_binary(regs.a, value, regs.p);
            }
        },
        Operation::Sbc => {
            if regs.p.decimal() {
                crate::alu::lemma_sbc_any_decimal(regs.a, value, regs.p);
            } else {
                crate::alu::lemma_sbc_binary(regs.a, value, regs.p);
            }
        },
        Operation::Compare(register) => {
            crate::alu::lemma_compare(regs.spec_get(register), value, regs.p);
        },
        _ => {},
    }
}

/// The flags after an operation that modifies a value describe its
/// result.
proof fn lemma_modify_flags(operation: Operation, value: u8, p: StatusRegister)
    requires
        crate::semantics::modifies_value(operation),
    ensures
        ({
            let changed = spec_modify_op(operation, value, p);
            &&& changed.1.negative() == (changed.0 & 0x80 != 0)
            &&& changed.1.zero() == (changed.0 == 0)
        }),
{
    let changed = spec_modify_op(operation, value, p);
    lemma_sign_bit(changed.0);
    p.lemma_flags_after_nz(changed.0);
    crate::alu::lemma_shifts(value, p);
}

/// Whatever the addressing mode that fetched the operand, an
/// instruction that computes a result byte leaves Negative equal to bit
/// 7 of the result and Zero telling whether the result is zero.
pub proof fn lemma_flags_follow_result<M: Memory6502>(
    instruction: Instruction,
    regs: Registers,
    mem: M::V,
)
    requires
        spec_result::<M>(instruction, regs, mem).is_some(),
    ensures
        ({
            let result = spec_result::<M>(instruction, regs, mem).unwrap();
            let after = spec_execute::<M>(instruction, regs, mem).0.regs;
            &&& after.p.negative() == (result & 0x80 != 0)
            &&& after.p.zero() == (result == 0)
        }),
{
    reveal(spec_execute);
    let result = spec_result::<M>(instruction, regs, mem).unwrap();
    let value = spec_fetch::<M>(instruction.operand, regs, mem).0;
    let next = crate::semantics::spec_behind_operand(instruction.operand, regs);
    if crate::semantics::takes_value(instruction.operation) {
        lemma_value_flags(instruction.operation, next, value);
    } else if crate::semantics::modifies_value(instruction.operation) {
        lemma_modify_flags(instruction.operation, value, regs.p);
        lemma_modify_flags(instruction.operation, regs.a, regs.p);
    } else {
        lemma_sign_bit(result);
        regs.p.lemma_flags_after_nz(result);
    }
}

/// The stack pointer is back where it was after one push and one pull.
proof fn lemma_stack_pointer_returns(sp: u8)
    ensures
        wrap8(wrap8(sp - 1) + 1) == sp,
        wrap8(wrap8(wrap8(sp - 1) - 1) + 1) == wrap8(sp - 1),
        wrap8(sp - 1) != sp,
        spec_stack_address(wrap8(sp - 1)) != spec_stack_address(sp),
{
}

/// A byte pushed onto a stack of ordinary storage cells is the byte
/// that the next pull returns, and the pull leaves stack pointer and
/// memory as they were between the two.
pub proof fn lemma_push_pull<M: Memory6502>(regs: Registers, mem: M::V, value: u8)
    requires
        M::plain(mem, spec_stack_address(regs.sp)),
    ensures
        ({
            let pushed = spec_push::<M>(regs, mem, value);
            let pulled = spec_pull::<M>(pushed.0, pushed.1);
            &&& pulled.0 == value
            &&& pulled.1 == regs
            &&& pulled.2 == pushed.1
        }),
{
    let address = spec_stack_address(regs.sp);
    lemma_stack_pointer_returns(regs.sp);
    M::lemma_plain(mem, address, address, value);
    M::lemma_plain(M::spec_write(mem, address, value), address, address, value);
}

/// A word pushed onto a stack of ordinary storage cells is the word
/// that the next word pull returns, with the stack pointer back where
/// it was.
pub proof fn lemma_push_pull_word<M: Memory6502>(regs: Registers, mem: M::V, value: u16)
    requires
        M::plain(mem, spec_stack_address(regs.sp)),
        M::plain(mem, spec_stack_address(wrap8(regs.sp - 1))),
    ensures
        ({
            let pushed = spec_push_word::<M>(regs, mem, value);
            let pulled = spec_pull_word::<M>(pushed.0, pushed.1);
            &&& pulled.0 == value
            &&& pulled.1 == regs
            &&& pulled.2 == pushed.1
        }),
{
    let high_cell = spec_stack_address(regs.sp);
    let low_cell = spec_stack_address(wrap8(regs.sp - 1));
    let high_byte = (value / 256) as u8;
    let low_byte = (value % 256) as u8;
    lemma_stack_pointer_returns(regs.sp);
    let first = spec_push::<M>(regs, mem, high_byte);
    let second = spec_push::<M>(first.0, first.1, low_byte);
    // The high byte survives the push of the low byte.
    M::lemma_plain(mem, high_cell, high_cell, high_byte);
    M::lemma_plain(mem, low_cell, high_cell, high_byte);
    M::lemma_plain(first.1, high_cell, low_cell, low_byte);
    M::lemma_plain(first.1, low_cell, low_cell, low_byte);
    M::lemma_plain(second.1, low_cell, low_cell, low_byte);
    M::lemma_plain(second.1, high_cell, low_cell, low_byte);
    let low = spec_pull::<M>(second.0, second.1);
    assert(low.0 == low_byte);
    assert(low.2 == second.1);
    let high = spec_pull::<M>(low.1, low.2);
    assert(high.0 == high_byte);
    crate::bytes::lemma_word_of_bytes(value);
}

/// True for the operations that choose the next instruction
/// themselves: branches, jumps, calls, returns and the software
/// interrupt.
pub open spec fn redirects(operation: Operation) -> bool {
    match operation {
        Operation::Branch(_, _)
        | Operation::Jmp
        | Operation::Jsr
        | Operation::Rts
        | Operation::Rti
        | Operation::Brk => true,
        _ => false,
    }
}

/// Every instruction that does not redirect the program leaves the
/// program counter behind its own operand, whatever else it does; a
/// branch that is not taken does the same.
pub proof fn lemma_sequential<M: Memory6502>(instruction: Instruction, regs: Registers, mem: M::V)
    requires
        regs.pc + crate::instruction::spec_operand_size(instruction.operand) <= 0xffff,
    ensures
        !redirects(instruction.operation) ==> spec_execute::<M>(instruction, regs, mem).0.regs.pc
            == regs.pc + crate::instruction::spec_operand_size(instruction.operand),
        instruction.operation matches Operation::Branch(flag, wanted) && regs.p.flag(
            crate::registers::spec_flag_mask(flag),
        ) != wanted ==> spec_execute::<M>(instruction, regs, mem).0.regs.pc == wrap16(regs.pc + 1),
{
    reveal(spec_execute);
}

/// A step over a defined instruction that does not redirect the
/// program and fits below the top of the address space succeeds, and
/// the program counter it returns is the address behind the
/// instruction.
pub proof fn lemma_step_sequential<M: Memory6502>(regs: Registers, mem: M::V)
    requires
        spec_decode(M::spec_read(mem, regs.pc).0) matches Some(instruction) && !redirects(
            instruction.operation,
        ) && regs.pc + spec_length(instruction) <= 0xffff,
    ensures
        spec_step::<M>(regs, mem).result == Ok::<u16, CpuError>(
            (regs.pc + spec_length(spec_decode(M::spec_read(mem, regs.pc).0).unwrap())) as u16,
        ),
        spec_step::<M>(regs, mem).regs.pc == regs.pc + spec_length(
            spec_decode(M::spec_read(mem, regs.pc).0).unwrap(),
        ),
{
    let opcode = M::spec_read(mem, regs.pc);
    let instruction = spec_decode(opcode.0).unwrap();
    let behind = Registers { pc: wrap16(regs.pc + 1), ..regs };
    lemma_sequential::<M>(instruction, behind, opcode.1);
}

/// An instruction without an operand.
pub open spec fn implied(operation: Operation) -> Instruction {
    Instruction { operation, operand: Operand::Implied }
}

/// The subroutine call, the return and the stack instructions, spelled
/// out.
proof fn lemma_unfold_call<M: Memory6502>(regs: Registers, mem: M::V)
    ensures
        spec_execute::<M>(
            Instruction {
                operation: Operation::Jsr,
                operand: Operand::Memory(AdressingType::Absolute),
            },
            regs,
            mem,
        ) == crate::semantics::spec_exec_jsr::<M>(
            Operand::Memory(AdressingType::Absolute),
            regs,
            mem,
        ),
{
    reveal(spec_execute);
}

proof fn lemma_unfold_return<M: Memory6502>(regs: Registers, mem: M::V)
    ensures
        spec_execute::<M>(
            Instruction { operation: Operation::Rts, operand: Operand::Implied },
            regs,
            mem,
        ) == crate::semantics::spec_exec_rts::<M>(regs, mem),
{
    reveal(spec_execute);
}

proof fn lemma_unfold_php<M: Memory6502>(regs: Registers, mem: M::V)
    ensures
        spec_execute::<M>(
            Instruction { operation: Operation::Php, operand: Operand::Implied },
            regs,
            mem,
        ) == crate::semantics::spec_exec_push::<M>(regs.p.value | 0x30, regs, mem),
{
    reveal(spec_execute);
}

proof fn lemma_unfold_plp<M: Memory6502>(regs: Registers, mem: M::V)
    ensures
        spec_execute::<M>(
            Instruction { operation: Operation::Plp, operand: Operand::Implied },
            regs,
            mem,
        ) == crate::semantics::spec_exec_plp::<M>(regs, mem),
{
    reveal(spec_execute);
}

proof fn lemma_unfold_pla<M: Memory6502>(regs: Registers, mem: M::V)
    ensures
        spec_execute::<M>(
            Instruction { operation: Operation::Pla, operand: Operand::Implied },
            regs,
            mem,
        ) == crate::semantics::spec_exec_pla::<M>(regs, mem),
{
    reveal(spec_execute);
}

/// Pushing the status register and pulling it again: the byte on the
/// stack is the register with bits 4 and 5 forced to one, so that is
/// what a pull into the accumulator returns; a pull into the status
/// register restores every flag, with bits 4 and 5 masked out. Either
/// way the stack pointer is back where it was.
pub proof fn lemma_status_round_trip<M: Memory6502>(regs: Registers, mem: M::V)
    requires
        M::plain(mem, spec_stack_address(regs.sp)),
    ensures
        ({
            let pushed = spec_execute::<M>(implied(Operation::Php), regs, mem);
            let restored = spec_execute::<M>(implied(Operation::Plp), pushed.0.regs, pushed.1);
            let loaded = spec_execute::<M>(implied(Operation::Pla), pushed.0.regs, pushed.1);
            &&& M::spec_read(pushed.1, spec_stack_address(regs.sp)).0 == regs.p.value | 0x30
            &&& loaded.0.regs.a == regs.p.value | 0x30
            &&& loaded.0.regs.sp == regs.sp
            &&& restored.0.regs.p.value == regs.p.value & 0xcf
            &&& restored.0.regs.sp == regs.sp
            &&& restored.0.regs.p.negative() == regs.p.negative()
            &&& restored.0.regs.p.overflow() == regs.p.overflow()
            &&& restored.0.regs.p.decimal() == regs.p.decimal()
            &&& restored.0.regs.p.interrupt_disable() == regs.p.interrupt_disable()
            &&& restored.0.regs.p.zero() == regs.p.zero()
            &&& restored.0.regs.p.carry() == regs.p.carry()
        }),
{
    let status: u8 = regs.p.value | 0x30;
    let pushed = spec_push::<M>(regs, mem, status);
    lemma_unfold_php::<M>(regs, mem);
    lemma_unfold_plp::<M>(pushed.0, pushed.1);
    lemma_unfold_pla::<M>(pushed.0, pushed.1);
    lemma_push_pull::<M>(regs, mem, status);
    let address = spec_stack_address(regs.sp);
    M::lemma_plain(mem, address, address, status);
    let v = regs.p.value;
    assert(((v | 0x30) & 0xcf) == v & 0xcf && ((v & 0xcf) & 0x80 != 0) == (v & 0x80 != 0) && ((v
        & 0xcf) & 0x40 != 0) == (v & 0x40 != 0) && ((v & 0xcf) & 0x08 != 0) == (v & 0x08 != 0)
        && ((v & 0xcf) & 0x04 != 0) == (v & 0x04 != 0) && ((v & 0xcf) & 0x02 != 0) == (v & 0x02
        != 0) && ((v & 0xcf) & 0x01 != 0) == (v & 0x01 != 0)) by (bit_vector);
}

/// Call and return: a subroutine call to any address, followed by a
/// return, continues at the instruction behind the call, wherever the
/// call stands, and leaves the stack pointer where it was. Here `regs`
/// has its program counter at the operand of the call, one byte behind
/// the opcode, and the two stack cells that the call uses are ordinary
/// storage.
#[verifier::rlimit(40)]
pub proof fn lemma_call_return<M: Memory6502>(regs: Registers, mem: M::V)
    requires
        regs.pc + 2 <= 0xffff,
        M::plain(mem, spec_stack_address(regs.sp)),
        M::plain(mem, spec_stack_address(wrap8(regs.sp - 1))),
    ensures
        ({
            let call = Instruction {
                operation: Operation::Jsr,
                operand: Operand::Memory(AdressingType::Absolute),
            };
            let back = Instruction { operation: Operation::Rts, operand: Operand::Implied };
            let called = spec_execute::<M>(call, regs, mem);
            let returned = spec_execute::<M>(back, called.0.regs, called.1);
            &&& called.0.regs.pc == spec_read_word::<M>(mem, regs.pc).0
            &&& returned.0.regs.pc == regs.pc + 2
            &&& returned.0.regs.sp == regs.sp
            &&& returned.0.regs.a == regs.a
            &&& returned.0.regs.x == regs.x
            &&& returned.0.regs.y == regs.y
            &&& returned.0.regs.p == regs.p
            &&& returned.1 == called.1
        }),
{
    let high_cell = spec_stack_address(regs.sp);
    let low_cell = spec_stack_address(wrap8(regs.sp - 1));
    let low_read = M::spec_read(mem, regs.pc);
    let high_read = M::spec_read(low_read.1, wrap16(regs.pc + 1));
    // The operand reads leave the stack cells ordinary.
    M::lemma_plain(mem, high_cell, regs.pc, 0);
    M::lemma_plain(mem, low_cell, regs.pc, 0);
    M::lemma_plain(low_read.1, high_cell, wrap16(regs.pc + 1), 0);
    M::lemma_plain(low_read.1, low_cell, wrap16(regs.pc + 1), 0);
    let return_address = wrap16(wrap16(regs.pc + 2) - 1);
    let pushed = spec_push_word::<M>(regs, high_read.1, return_address);
    lemma_unfold_call::<M>(regs, mem);
    lemma_push_pull_word::<M>(regs, high_read.1, return_address);
    lemma_unfold_return::<M>(
        Registers { pc: spec_read_word::<M>(mem, regs.pc).0, ..pushed.0 },
        pushed.1,
    );
}

/// The two stack cells that a call uses are still ordinary storage
/// after the call.
proof fn lemma_stack_stays<M: Memory6502>(regs: Registers, mem: M::V)
    requires
        M::plain(mem, spec_stack_address(regs.sp)),
        M::plain(mem, spec_stack_address(wrap8(regs.sp - 1))),
    ensures
        ({
            let call = Instruction {
                operation: Operation::Jsr,
                operand: Operand::Memory(AdressingType::Absolute),
            };
            let after = spec_execute::<M>(call, regs, mem).1;
            &&& M::plain(after, spec_stack_address(regs.sp))
            &&& M::plain(after, spec_stack_address(wrap8(regs.sp - 1)))
        }),
{
    let high_cell = spec_stack_address(regs.sp);
    let low_cell = spec_stack_address(wrap8(regs.sp - 1));
    let low_read = M::spec_read(mem, regs.pc);
    let high_read = M::spec_read(low_read.1, wrap16(regs.pc + 1));
    M::lemma_plain(mem, high_cell, regs.pc, 0);
    M::lemma_plain(mem, low_cell, regs.pc, 0);
    M::lemma_plain(low_read.1, high_cell, wrap16(regs.pc + 1), 0);
    M::lemma_plain(low_read.1, low_cell, wrap16(regs.pc + 1), 0);
    let return_address = wrap16(wrap16(regs.pc + 2) - 1);
    let first = spec_push::<M>(regs, high_read.1, (return_address / 256) as u8);
    M::lemma_plain(high_read.1, high_cell, high_cell, (return_address / 256) as u8);
    M::lemma_plain(high_read.1, low_cell, high_cell, (return_address / 256) as u8);
    M::lemma_plain(first.1, high_cell, low_cell, (return_address % 256) as u8);
    M::lemma_plain(first.1, low_cell, low_cell, (return_address % 256) as u8);
    lemma_unfold_call::<M>(regs, mem);
}

/// A read anywhere does not change the word that the stack returns
/// next, as long as the two cells it comes from are ordinary storage.
proof fn lemma_pull_word_after_read<M: Memory6502>(regs: Registers, mem: M::V, other: u16)
    requires
        M::plain(mem, spec_stack_address(wrap8(regs.sp + 1))),
        M::plain(mem, spec_stack_address(wrap8(wrap8(regs.sp + 1) + 1))),
    ensures
        spec_pull_word::<M>(regs, M::spec_read(mem, other).1).0 == spec_pull_word::<M>(
            regs,
            mem,
        ).0,
        spec_pull_word::<M>(regs, M::spec_read(mem, other).1).1 == spec_pull_word::<M>(
            regs,
            mem,
        ).1,
{
    let low_cell = spec_stack_address(wrap8(regs.sp + 1));
    let high_cell = spec_stack_address(wrap8(wrap8(regs.sp + 1) + 1));
    let after = M::spec_read(mem, other).1;
    M::lemma_plain(mem, low_cell, other, 0);
    M::lemma_plain(mem, high_cell, other, 0);
    M::lemma_plain(mem, low_cell, low_cell, 0);
    M::lemma_plain(mem, high_cell, low_cell, 0);
    M::lemma_plain(after, low_cell, low_cell, 0);
    M::lemma_plain(after, high_cell, low_cell, 0);
}

/// The opcodes of subroutine call and return.
proof fn lemma_decode_call_and_return()
    ensures
        spec_decode(0x20) == Some(
            Instruction {
                operation: Operation::Jsr,
                operand: Operand::Memory(AdressingType::Absolute),
            },
        ),
        spec_decode(0x60) == Some(
            Instruction { operation: Operation::Rts, operand: Operand::Implied },
        ),
{
}

/// A step that meets the opcode of a subroutine call executes the call.
proof fn lemma_step_call<M: Memory6502>(regs: Registers, mem: M::V)
    requires
        regs.pc + 3 <= 0xffff,
        M::spec_read(mem, regs.pc).0 == 0x20,
    ensures
        ({
            let call = Instruction {
                operation: Operation::Jsr,
                operand: Operand::Memory(AdressingType::Absolute),
            };
            let behind = Registers { pc: (regs.pc + 1) as u16, ..regs };
            let done = spec_execute::<M>(call, behind, M::spec_read(mem, regs.pc).1);
            let step = spec_step::<M>(regs, mem);
            &&& step.regs == done.0.regs
            &&& step.mem == done.1
            &&& step.result == (if done.0.regs.pc == regs.pc {
                Err::<u16, CpuError>(CpuError { pc: regs.pc, kind: CpuErrorKind::SelfLoop })
            } else {
                Ok::<u16, CpuError>(done.0.regs.pc)
            })
        }),
{
    lemma_decode_call_and_return();
}

/// A step that meets the opcode of a return executes the return.
proof fn lemma_step_return<M: Memory6502>(regs: Registers, mem: M::V)
    requires
        regs.pc + 1 <= 0xffff,
        M::spec_read(mem, regs.pc).0 == 0x60,
    ensures
        ({
            let back = Instruction { operation: Operation::Rts, operand: Operand::Implied };
            let behind = Registers { pc: (regs.pc + 1) as u16, ..regs };
            let done = spec_execute::<M>(back, behind, M::spec_read(mem, regs.pc).1);
            let step = spec_step::<M>(regs, mem);
            &&& step.regs == done.0.regs
            &&& step.mem == done.1
            &&& step.result == (if done.0.regs.pc == regs.pc {
                Err::<u16, CpuError>(CpuError { pc: regs.pc, kind: CpuErrorKind::SelfLoop })
            } else {
                Ok::<u16, CpuError>(done.0.regs.pc)
            })
        }),
{
    lemma_decode_call_and_return();
}

/// Call and return as two steps of the engine. If the byte at the
/// program counter is the opcode of a subroutine call that fits below
/// the top of the address space, if the call does not target itself,
/// if the byte at its target is the opcode of a return, and if the two
/// stack cells that the call uses are ordinary storage, then the first
/// step succeeds at the target and the second step leaves the program
/// counter at the instruction behind the call, with the stack pointer
/// where it was.
pub proof fn lemma_call_return_steps<M: Memory6502>(regs: Registers, mem: M::V)
    requires
        regs.pc + 3 <= 0xffff,
        M::spec_read(mem, regs.pc).0 == 0x20,
        M::plain(mem, spec_stack_address(regs.sp)),
        M::plain(mem, spec_stack_address(wrap8(regs.sp - 1))),
        spec_step::<M>(regs, mem).regs.pc != regs.pc,
        spec_step::<M>(regs, mem).regs.pc != 0xffff,
        M::spec_read(spec_step::<M>(regs, mem).mem, spec_step::<M>(regs, mem).regs.pc).0 == 0x60,
    ensures
        ({
            let called = spec_step::<M>(regs, mem);
            let returned = spec_step::<M>(called.regs, called.mem);
            &&& called.result == Ok::<u16, CpuError>(called.regs.pc)
            &&& called.regs.pc == spec_read_word::<M>(
                M::spec_read(mem, regs.pc).1,
                (regs.pc + 1) as u16,
            ).0
            &&& returned.regs.pc == regs.pc + 3
            &&& returned.regs.sp == regs.sp
            &&& returned.regs.pc != called.regs.pc ==> returned.result == Ok::<u16, CpuError>(
                (regs.pc + 3) as u16,
            )
        }),
{
    let fetched = M::spec_read(mem, regs.pc);
    let behind = Registers { pc: (regs.pc + 1) as u16, ..regs };
    let high_cell = spec_stack_address(regs.sp);
    let low_cell = spec_stack_address(wrap8(regs.sp - 1));
    M::lemma_plain(mem, high_cell, regs.pc, 0);
    M::lemma_plain(mem, low_cell, regs.pc, 0);
    lemma_step_call::<M>(regs, mem);
    lemma_unfold_call::<M>(behind, fetched.1);
    lemma_call_return::<M>(behind, fetched.1);
    lemma_stack_stays::<M>(behind, fetched.1);
    let called = spec_step::<M>(regs, mem);
    lemma_stack_pointer_returns(regs.sp);
    lemma_stack_pointer_returns(wrap8(regs.sp - 1));
    assert(called.regs.sp == wrap8(wrap8(regs.sp - 1) - 1));
    // Fetching the opcode of the return leaves the stack as it is.
    let opcode = M::spec_read(called.mem, called.regs.pc);
    lemma_pull_word_after_read::<M>(called.regs, called.mem, called.regs.pc);
    lemma_step_return::<M>(called.regs, called.mem);
    lemma_unfold_return::<M>(called.regs, called.mem);
    lemma_unfold_return::<M>(
        Registers { pc: (called.regs.pc + 1) as u16, ..called.regs },
        opcode.1,
    );
}

/// The return from an interrupt, spelled out.
proof fn lemma_unfold_rti<M: Memory6502>(regs: Registers, mem: M::V)
    ensures
        spec_execute::<M>(implied(Operation::Rti), regs, mem) == crate::semantics::spec_exec_rti::<
            M,
        >(regs, mem),
{
    reveal(spec_execute);
}

/// Interrupt and return. An interrupt that is not ignored disables
/// interrupts and leaves three bytes on the stack; if the three stack
/// cells are ordinary storage, a return from interrupt right at the
/// start of the handler resumes at the interrupted program counter,
/// with the stack pointer where it was and every flag as it was
/// (bit 5 comes back clear and bit 4 set). A maskable request that
/// meets the Interrupt-disable flag changes nothing.
pub proof fn lemma_interrupt_return<M: Memory6502>(
    cause: InterruptType,
    regs: Registers,
    mem: M::V,
)
    requires
        M::plain(mem, spec_stack_address(regs.sp)),
        M::plain(mem, spec_stack_address(wrap8(regs.sp - 1))),
        M::plain(mem, spec_stack_address(wrap8(regs.sp - 2))),
    ensures
        ({
            let entered = spec_interrupt::<M>(cause, regs, mem);
            let ignored = cause == InterruptType::INT && regs.p.interrupt_disable();
            let resumed = spec_execute::<M>(implied(Operation::Rti), entered.0, entered.1);
            &&& ignored ==> entered == (regs, mem)
            &&& !ignored ==> {
                &&& entered.0.p.interrupt_disable()
                &&& entered.0.sp == wrap8(regs.sp - 3)
                &&& entered.0.a == regs.a && entered.0.x == regs.x && entered.0.y == regs.y
                &&& resumed.0.regs.pc == regs.pc
                &&& resumed.0.regs.sp == regs.sp
                &&& resumed.0.regs.p.value == (regs.p.value & 0xdf) | 0x10
                &&& resumed.0.regs.p.negative() == regs.p.negative()
                &&& resumed.0.regs.p.overflow() == regs.p.overflow()
                &&& resumed.0.regs.p.decimal() == regs.p.decimal()
                &&& resumed.0.regs.p.interrupt_disable() == regs.p.interrupt_disable()
                &&& resumed.0.regs.p.zero() == regs.p.zero()
                &&& resumed.0.regs.p.carry() == regs.p.carry()
            }
        }),
{
    let ignored = cause == InterruptType::INT && regs.p.interrupt_disable();
    if !ignored {
        let high_cell = spec_stack_address(regs.sp);
        let low_cell = spec_stack_address(wrap8(regs.sp - 1));
        let status_cell = spec_stack_address(wrap8(regs.sp - 2));
        let high_byte = (regs.pc / 256) as u8;
        let low_byte = (regs.pc % 256) as u8;
        let status: u8 = if cause == InterruptType::BRK {
            regs.p.value | 0x30
        } else {
            regs.p.value | 0x20
        };
        let vector = if cause == InterruptType::INT {
            crate::registers::REQUEST_VECTOR
        } else {
            crate::registers::BREAK_VECTOR
        };
        let first = spec_push::<M>(regs, mem, high_byte);
        let second = spec_push::<M>(first.0, first.1, low_byte);
        let third = spec_push::<M>(second.0, second.1, status);
        let vector_low = M::spec_read(third.1, vector);
        let vector_high = M::spec_read(vector_low.1, wrap16(vector + 1));
        let entered = spec_interrupt::<M>(cause, regs, mem);
        assert(entered.1 == vector_high.1);
        lemma_stack_pointer_returns(regs.sp);
        lemma_stack_pointer_returns(wrap8(regs.sp - 1));
        lemma_stack_pointer_returns(wrap8(regs.sp - 2));
        assert(wrap8(wrap8(regs.sp - 1) - 1) == wrap8(regs.sp - 2));
        assert(wrap8(wrap8(regs.sp - 2) - 1) == wrap8(regs.sp - 3));
        assert(wrap8(regs.sp - 2) != regs.sp);
        // Each cell keeps its byte through the later pushes and the
        // reads of the vector.
        M::lemma_plain(mem, high_cell, high_cell, high_byte);
        M::lemma_plain(mem, low_cell, high_cell, high_byte);
        M::lemma_plain(mem, status_cell, high_cell, high_byte);
        M::lemma_plain(first.1, high_cell, low_cell, low_byte);
        M::lemma_plain(first.1, low_cell, low_cell, low_byte);
        M::lemma_plain(first.1, status_cell, low_cell, low_byte);
        M::lemma_plain(second.1, high_cell, status_cell, status);
        M::lemma_plain(second.1, low_cell, status_cell, status);
        M::lemma_plain(second.1, status_cell, status_cell, status);
        M::lemma_plain(third.1, high_cell, vector, 0);
        M::lemma_plain(third.1, low_cell, vector, 0);
        M::lemma_plain(third.1, status_cell, vector, 0);
        M::lemma_plain(vector_low.1, high_cell, wrap16(vector + 1), 0);
        M::lemma_plain(vector_low.1, low_cell, wrap16(vector + 1), 0);
        M::lemma_plain(vector_low.1, status_cell, wrap16(vector + 1), 0);
        // The three pulls of the return.
        let m = entered.1;
        M::lemma_plain(m, status_cell, status_cell, 0);
        M::lemma_plain(m, low_cell, status_cell, 0);
        M::lemma_plain(m, high_cell, status_cell, 0);
        M::lemma_plain(m, low_cell, low_cell, 0);
        M::lemma_plain(m, high_cell, low_cell, 0);
        M::lemma_plain(m, high_cell, high_cell, 0);
        lemma_unfold_rti::<M>(entered.0, entered.1);
        crate::bytes::lemma_word_of_bytes(regs.pc);
        let v = regs.p.value;
        assert((((v | 0x30) & 0xdf) | 0x10) == (v & 0xdf) | 0x10 && (((v | 0x20) & 0xdf) | 0x10)
            == (v & 0xdf) | 0x10 && ((((v & 0xdf) | 0x10) & 0x80 != 0) == (v & 0x80 != 0)) && ((((v
            & 0xdf) | 0x10) & 0x40 != 0) == (v & 0x40 != 0)) && ((((v & 0xdf) | 0x10) & 0x08 != 0)
            == (v & 0x08 != 0)) && ((((v & 0xdf) | 0x10) & 0x04 != 0) == (v & 0x04 != 0)) && ((((v
            & 0xdf) | 0x10) & 0x02 != 0) == (v & 0x02 != 0)) && ((((v & 0xdf) | 0x10) & 0x01 != 0)
            == (v & 0x01 != 0))) by (bit_vector);
        regs.p.lemma_flag_after_set(crate::status::FLAG_I, crate::status::FLAG_I, true);
    }
}

} // verus!
