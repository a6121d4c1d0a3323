//! The engine instruction by instruction: addressing modes, stack,
//! interrupts, failures and the trace.

use rusty_c64::cpu::CPU6502;
use rusty_c64::instruction::{
    decode, length, AdressingType, Flag, Instruction, Operand, Operation, Register,
};
use rusty_c64::memory::{Diagnostic, Memory, Memory6502, Memory6502Debug};
use rusty_c64::registers::{CPUState, CpuError, CpuErrorKind, InterruptType};

fn machine(program: &[u8], at: u16) -> CPU6502<Memory> {
    let mut mem = Memory::new(0x10000);
    for (i, byte) in program.iter().enumerate() {
        mem.write_memory(at + i as u16, *byte);
    }
    let mut cpu = CPU6502::new(mem);
    cpu.reset_at(at);
    cpu
}

fn run(cpu: &mut CPU6502<Memory>, steps: usize) {
    for _ in 0..steps {
        assert!(cpu.run_single().is_ok());
    }
}

#[test]
fn power_on_state() {
    let cpu = CPU6502::new(Memory::new(16));
    assert_eq!((cpu.A, cpu.X, cpu.Y, cpu.PC, cpu.SP, cpu.P.value), (0, 0, 0, 0, 0xff, 0));
    assert!(cpu.trace_entries().is_empty());
}

#[test]
fn reset_loads_the_vector_at_fffc() {
    let mut cpu = machine(&[0x34, 0x12], 0xfffc);
    cpu.reset();
    assert_eq!(cpu.PC, 0x1234);
}

#[test]
fn run_single_returns_the_new_program_counter() {
    let mut cpu = machine(&[0xa9, 0x10, 0xea], 0x0600);
    assert_eq!(cpu.run_single(), Ok(0x0602));
    assert_eq!(cpu.run_single(), Ok(0x0603));
    assert_eq!(cpu.PC, 0x0603);
}

#[test]
fn canonical_self_test_leaves_31_in_the_accumulator() {
    let mut cpu = machine(
        &[
            0xa9, 0x10, 0x85, 0x00, 0x85, 0x01, 0x06, 0x00, 0xa9, 0x30, 0x85, 0x02, 0xa9, 0x02,
            0x85, 0x04, 0xa9, 0x01, 0xaa, 0x01, 0x03,
        ],
        0x0600,
    );
    run(&mut cpu, 11);
    assert_eq!(cpu.A, 0x31);
    assert_eq!(cpu.memory.read_memory(0), 0x20);
    assert_eq!(cpu.memory.read_memory(2), 0x30);
}

#[test]
fn load_sets_negative_and_zero() {
    let mut cpu = machine(&[0xa9, 0x80, 0xa2, 0x00, 0xa0, 0x01], 0x0200);
    run(&mut cpu, 1);
    assert!(cpu.P.get_N() && !cpu.P.get_Z());
    run(&mut cpu, 1);
    assert!(!cpu.P.get_N() && cpu.P.get_Z());
    run(&mut cpu, 1);
    assert!(!cpu.P.get_N() && !cpu.P.get_Z());
    assert_eq!((cpu.A, cpu.X, cpu.Y), (0x80, 0x00, 0x01));
}

#[test]
fn flags_do_not_depend_on_the_addressing_mode() {
    // ADC of 0x90 to 0x90 through each of its eight addressing modes.
    let programs: [&[u8]; 8] = [
        &[0x69, 0x90],
        &[0x65, 0x40],
        &[0x75, 0x3e],
        &[0x6d, 0x40, 0x00],
        &[0x7d, 0x3e, 0x00],
        &[0x79, 0x3d, 0x00],
        &[0x61, 0x5e],
        &[0x71, 0x50],
    ];
    for program in programs {
        let mut cpu = machine(program, 0x0600);
        cpu.memory.write_memory(0x0040, 0x90);
        cpu.memory.write_memory(0x0050, 0x3d);
        cpu.memory.write_memory(0x0051, 0x00);
        cpu.memory.write_memory(0x0060, 0x40);
        cpu.memory.write_memory(0x0061, 0x00);
        cpu.A = 0x90;
        cpu.X = 0x02;
        cpu.Y = 0x03;
        run(&mut cpu, 1);
        assert_eq!(cpu.A, 0x20);
        assert_eq!(cpu.P.value, 0x41);
        assert_eq!(cpu.PC, 0x0600 + program.len() as u16);
    }
}

#[test]
fn zero_page_index_wraps_within_the_page() {
    let mut cpu = machine(&[0xb5, 0xff, 0xb6, 0xff], 0x0600);
    cpu.memory.write_memory(0x0001, 0x11);
    cpu.memory.write_memory(0x0101, 0x22);
    cpu.memory.write_memory(0x0002, 0x33);
    cpu.X = 0x02;
    cpu.Y = 0x03;
    run(&mut cpu, 1);
    assert_eq!(cpu.A, 0x11);
    run(&mut cpu, 1);
    assert_eq!(cpu.X, 0x33);
}

#[test]
fn absolute_index_wraps_at_the_top() {
    let mut cpu = machine(&[0xbd, 0xff, 0xff, 0xb9, 0xfe, 0xff], 0x0600);
    cpu.memory.write_memory(0x0004, 0x44);
    cpu.X = 0x05;
    cpu.Y = 0x06;
    run(&mut cpu, 2);
    assert_eq!(cpu.A, 0x44);
}

#[test]
fn indexed_indirect_adds_x_before_the_lookup() {
    let mut cpu = machine(&[0xa1, 0xfe], 0x0600);
    cpu.memory.write_memory(0x0002, 0x00);
    cpu.memory.write_memory(0x0003, 0x30);
    cpu.memory.write_memory(0x3000, 0x5a);
    cpu.X = 0x04;
    run(&mut cpu, 1);
    assert_eq!(cpu.A, 0x5a);
}

#[test]
fn indirect_indexed_adds_y_after_the_lookup() {
    let mut cpu = machine(&[0xb1, 0x02], 0x0600);
    cpu.memory.write_memory(0x0002, 0xff);
    cpu.memory.write_memory(0x0003, 0x30);
    cpu.memory.write_memory(0x3100, 0x5b);
    cpu.Y = 0x01;
    run(&mut cpu, 1);
    assert_eq!(cpu.A, 0x5b);
}

#[test]
fn indirect_jump_reads_its_target_from_memory() {
    let mut cpu = machine(&[0x6c, 0x00, 0x30], 0x0600);
    cpu.memory.write_memory(0x3000, 0x78);
    cpu.memory.write_memory(0x3001, 0x56);
    assert_eq!(cpu.run_single(), Ok(0x5678));
}

#[test]
fn stores_write_without_touching_flags() {
    let mut cpu = machine(&[0x8d, 0x00, 0x20, 0x86, 0x10, 0x94, 0x10], 0x0600);
    cpu.A = 0x00;
    cpu.X = 0x81;
    cpu.Y = 0x7f;
    cpu.P.value = 0x01;
    run(&mut cpu, 3);
    assert_eq!(cpu.memory.read_memory(0x2000), 0x00);
    assert_eq!(cpu.memory.read_memory(0x0010), 0x81);
    assert_eq!(cpu.memory.read_memory(0x0091), 0x7f);
    assert_eq!(cpu.P.value, 0x01);
}

#[test]
fn memory_rotate_takes_carry_from_the_memory_byte() {
    // Accumulator has bit 7 clear, the memory byte has it set.
    let mut cpu = machine(&[0x26, 0x10, 0x66, 0x11], 0x0600);
    cpu.memory.write_memory(0x0010, 0x80);
    cpu.memory.write_memory(0x0011, 0x01);
    cpu.A = 0x00;
    run(&mut cpu, 1);
    assert_eq!(cpu.memory.read_memory(0x0010), 0x00);
    assert!(cpu.P.get_C() && cpu.P.get_Z());
    run(&mut cpu, 1);
    assert_eq!(cpu.memory.read_memory(0x0011), 0x80);
    assert!(cpu.P.get_C() && cpu.P.get_N());
    assert_eq!(cpu.A, 0x00);
}

#[test]
fn accumulator_shifts() {
    let mut cpu = machine(&[0x0a, 0x4a, 0x2a, 0x6a], 0x0600);
    cpu.A = 0xc1;
    run(&mut cpu, 1);
    assert_eq!((cpu.A, cpu.P.value), (0x82, 0x81));
    run(&mut cpu, 1);
    assert_eq!((cpu.A, cpu.P.value), (0x41, 0x00));
    cpu.P.set_C(true);
    run(&mut cpu, 1);
    assert_eq!((cpu.A, cpu.P.value), (0x83, 0x80));
    cpu.P.set_C(true);
    run(&mut cpu, 1);
    assert_eq!((cpu.A, cpu.P.value), (0xc1, 0x81));
}

#[test]
fn increments_and_decrements_wrap() {
    let mut cpu = machine(&[0xe6, 0x10, 0xc6, 0x11, 0xe8, 0x88, 0xca, 0xc8], 0x0600);
    cpu.memory.write_memory(0x0010, 0xff);
    cpu.memory.write_memory(0x0011, 0x00);
    cpu.X = 0xff;
    cpu.Y = 0x00;
    run(&mut cpu, 1);
    assert_eq!(cpu.memory.read_memory(0x0010), 0x00);
    assert!(cpu.P.get_Z());
    run(&mut cpu, 1);
    assert_eq!(cpu.memory.read_memory(0x0011), 0xff);
    assert!(cpu.P.get_N());
    run(&mut cpu, 1);
    assert_eq!(cpu.X, 0x00);
    run(&mut cpu, 1);
    assert_eq!(cpu.Y, 0xff);
    run(&mut cpu, 2);
    assert_eq!((cpu.X, cpu.Y), (0xff, 0x00));
}

#[test]
fn transfers_set_flags_except_into_the_stack_pointer() {
    let mut cpu = machine(&[0x9a, 0xba, 0xa8, 0x98, 0x8a, 0xaa], 0x0600);
    cpu.X = 0x00;
    cpu.P.value = 0x80;
    run(&mut cpu, 1);
    assert_eq!((cpu.SP, cpu.P.value), (0x00, 0x80));
    cpu.SP = 0x90;
    run(&mut cpu, 1);
    assert_eq!((cpu.X, cpu.P.value), (0x90, 0x80));
    cpu.A = 0x00;
    run(&mut cpu, 1);
    assert_eq!((cpu.Y, cpu.P.value), (0x00, 0x02));
    cpu.Y = 0x7f;
    run(&mut cpu, 1);
    assert_eq!((cpu.A, cpu.P.value), (0x7f, 0x00));
    run(&mut cpu, 1);
    assert_eq!(cpu.A, 0x90);
    cpu.A = 0x01;
    run(&mut cpu, 1);
    assert_eq!(cpu.X, 0x01);
}

#[test]
fn flag_instructions() {
    let mut cpu = machine(&[0x38, 0xf8, 0x78, 0x18, 0xd8, 0x58, 0xb8], 0x0600);
    run(&mut cpu, 3);
    assert_eq!(cpu.P.value, 0x0d);
    cpu.P.value = 0xff;
    run(&mut cpu, 4);
    assert_eq!(cpu.P.value, 0xff & !0x01 & !0x08 & !0x04 & !0x40);
}

#[test]
fn branches_follow_their_flag() {
    // Each pair: opcode, status that takes the branch.
    let cases: [(u8, u8); 8] = [
        (0x10, 0x00),
        (0x30, 0x80),
        (0x50, 0x00),
        (0x70, 0x40),
        (0x90, 0x00),
        (0xb0, 0x01),
        (0xd0, 0x00),
        (0xf0, 0x02),
    ];
    let bit = [0x80u8, 0x80, 0x40, 0x40, 0x01, 0x01, 0x02, 0x02];
    for (i, (opcode, taken)) in cases.iter().enumerate() {
        let mut cpu = machine(&[*opcode, 0x10], 0x0600);
        cpu.P.value = *taken;
        assert_eq!(cpu.run_single(), Ok(0x0612));
        let mut cpu = machine(&[*opcode, 0x10], 0x0600);
        cpu.P.value = *taken ^ bit[i];
        assert_eq!(cpu.run_single(), Ok(0x0602));
    }
}

#[test]
fn backward_branch() {
    let mut cpu = machine(&[0xea, 0xea, 0xd0, 0xfc], 0x0600);
    run(&mut cpu, 2);
    assert_eq!(cpu.run_single(), Ok(0x0600));
}

#[test]
fn push_and_pull_accumulator() {
    let mut cpu = machine(&[0x48, 0xa9, 0x00, 0x68], 0x0600);
    cpu.A = 0x9c;
    run(&mut cpu, 1);
    assert_eq!(cpu.SP, 0xfe);
    assert_eq!(cpu.memory.read_memory(0x01ff), 0x9c);
    run(&mut cpu, 2);
    assert_eq!((cpu.A, cpu.SP), (0x9c, 0xff));
    assert!(cpu.P.get_N());
}

#[test]
fn stack_pointer_wraps_within_its_page() {
    let mut cpu = machine(&[0x48, 0x68], 0x0600);
    cpu.SP = 0x00;
    cpu.A = 0x42;
    run(&mut cpu, 1);
    assert_eq!(cpu.SP, 0xff);
    assert_eq!(cpu.memory.read_memory(0x0100), 0x42);
    cpu.A = 0;
    run(&mut cpu, 1);
    assert_eq!((cpu.A, cpu.SP), (0x42, 0x00));
}

#[test]
fn status_push_forces_bits_four_and_five() {
    for status in [0x00u8, 0xc3, 0xff, 0x4d] {
        let mut cpu = machine(&[0x08, 0x68], 0x0600);
        cpu.P.value = status;
        run(&mut cpu, 1);
        assert_eq!(cpu.memory.read_memory(0x01ff), status | 0x30);
        run(&mut cpu, 1);
        assert_eq!(cpu.A, status | 0x30);
        assert_eq!(cpu.SP, 0xff);
    }
}

#[test]
fn status_pull_masks_bits_four_and_five() {
    for status in [0x00u8, 0xc3, 0xff, 0x4d] {
        let mut cpu = machine(&[0x08, 0x28], 0x0600);
        cpu.P.value = status;
        run(&mut cpu, 2);
        assert_eq!(cpu.P.value, status & 0xcf);
        assert_eq!(cpu.SP, 0xff);
    }
}

#[test]
fn call_and_return_from_any_call_site() {
    for site in [0x0200u16, 0x06fe, 0x10ff, 0x7ffd, 0xfff0] {
        let mut cpu = machine(&[0x20, 0x00, 0x90], site);
        cpu.memory.write_memory(0x9000, 0x60);
        assert_eq!(cpu.run_single(), Ok(0x9000));
        assert_eq!(cpu.SP, 0xfd);
        let pushed = site + 2;
        assert_eq!(cpu.memory.read_memory(0x01ff), (pushed >> 8) as u8);
        assert_eq!(cpu.memory.read_memory(0x01fe), (pushed & 0xff) as u8);
        assert_eq!(cpu.run_single(), Ok(site + 3));
        assert_eq!(cpu.SP, 0xff);
    }
}

#[test]
fn software_interrupt_sequence() {
    let mut cpu = machine(&[0x00], 0x0600);
    cpu.memory.write_memory(0xfffe, 0x00);
    cpu.memory.write_memory(0xffff, 0x80);
    cpu.P.value = 0xc1;
    assert_eq!(cpu.run_single(), Ok(0x8000));
    assert_eq!(cpu.memory.read_memory(0x01ff), 0x06);
    assert_eq!(cpu.memory.read_memory(0x01fe), 0x02);
    assert_eq!(cpu.memory.read_memory(0x01fd), 0xc1 | 0x30);
    assert_eq!(cpu.SP, 0xfc);
    assert_eq!(cpu.P.value, 0xc5);
}

#[test]
fn return_from_interrupt_restores_status_and_program_counter() {
    let mut cpu = machine(&[0x40], 0x8000);
    cpu.SP = 0xfc;
    cpu.memory.write_memory(0x01fd, 0xe3);
    cpu.memory.write_memory(0x01fe, 0x02);
    cpu.memory.write_memory(0x01ff, 0x06);
    assert_eq!(cpu.run_single(), Ok(0x0602));
    assert_eq!(cpu.P.value, 0xd3);
    assert_eq!(cpu.SP, 0xff);
}

#[test]
fn maskable_request_is_ignored_while_disabled() {
    let mut cpu = machine(&[0xea], 0x0600);
    cpu.memory.write_memory(0xfffa, 0x00);
    cpu.memory.write_memory(0xfffb, 0x70);
    cpu.P.set_I(true);
    cpu.interrupt(InterruptType::INT);
    assert_eq!((cpu.PC, cpu.SP, cpu.P.value), (0x0600, 0xff, 0x04));
}

#[test]
fn maskable_request_uses_the_vector_at_fffa() {
    let mut cpu = machine(&[0xea], 0x0600);
    cpu.memory.write_memory(0xfffa, 0x00);
    cpu.memory.write_memory(0xfffb, 0x70);
    cpu.P.value = 0x81;
    cpu.interrupt(InterruptType::INT);
    assert_eq!(cpu.PC, 0x7000);
    assert_eq!(cpu.memory.read_memory(0x01ff), 0x06);
    assert_eq!(cpu.memory.read_memory(0x01fe), 0x00);
    assert_eq!(cpu.memory.read_memory(0x01fd), 0x81 | 0x20);
    assert_eq!(cpu.P.value, 0x85);
    assert_eq!(cpu.SP, 0xfc);
}

#[test]
fn non_maskable_interrupt_is_never_ignored() {
    let mut cpu = machine(&[0xea], 0x0600);
    cpu.memory.write_memory(0xfffe, 0x34);
    cpu.memory.write_memory(0xffff, 0x12);
    cpu.P.set_I(true);
    cpu.interrupt(InterruptType::NMI);
    assert_eq!(cpu.PC, 0x1234);
    assert_eq!(cpu.memory.read_memory(0x01fd), 0x04 | 0x20);
}

#[test]
fn break_cause_is_never_ignored() {
    let mut cpu = machine(&[0xea], 0x0600);
    cpu.memory.write_memory(0xfffe, 0x34);
    cpu.memory.write_memory(0xffff, 0x12);
    cpu.P.set_I(true);
    cpu.interrupt(InterruptType::BRK);
    assert_eq!(cpu.PC, 0x1234);
    assert_eq!(cpu.memory.read_memory(0x01fd), 0x04 | 0x30);
}

#[test]
fn unknown_opcode_is_reported_at_its_address() {
    let mut cpu = machine(&[0x02], 0x0600);
    let error = cpu.run_single().unwrap_err();
    assert_eq!(error, CpuError { pc: 0x0600, kind: CpuErrorKind::UnknownOpcode(0x02) });
    assert_eq!(cpu.PC, 0x0601);
    assert_eq!(error.error_string(), "Unknown instruction: INS=0x02");
    assert_eq!(error.to_text(), "[Unknown instruction: INS=0x02 PC=0x0600]");
}

#[test]
fn every_undefined_opcode_fails_and_every_defined_one_decodes() {
    let mut defined = 0;
    for opcode in 0..=255u8 {
        match decode(opcode) {
            Some(instruction) => {
                defined += 1;
                assert!((1..=3).contains(&length(instruction)));
            }
            None => {
                let mut cpu = machine(&[opcode], 0x0600);
                assert_eq!(
                    cpu.run_single(),
                    Err(CpuError { pc: 0x0600, kind: CpuErrorKind::UnknownOpcode(opcode) })
                );
            }
        }
    }
    assert_eq!(defined, 151);
}

#[test]
fn decode_separates_operation_and_operand() {
    assert_eq!(
        decode(0xb1),
        Some(Instruction {
            operation: Operation::Load(Register::A),
            operand: Operand::Memory(AdressingType::IndirectY),
        })
    );
    assert_eq!(
        decode(0xd0),
        Some(Instruction {
            operation: Operation::Branch(Flag::Zero, false),
            operand: Operand::Relative,
        })
    );
    assert_eq!(
        decode(0x96),
        Some(Instruction {
            operation: Operation::Store(Register::X),
            operand: Operand::Memory(AdressingType::ZeroPageY),
        })
    );
    assert_eq!(length(decode(0x00).unwrap()), 2);
    assert_eq!(length(decode(0xea).unwrap()), 1);
    assert_eq!(length(decode(0x4c).unwrap()), 3);
}

#[test]
fn self_loop_is_detected() {
    let mut cpu = machine(&[0x4c, 0x00, 0x06], 0x0600);
    let error = cpu.run_single().unwrap_err();
    assert_eq!(error, CpuError { pc: 0x0600, kind: CpuErrorKind::SelfLoop });
    assert_eq!(error.to_text(), "[LOOP Detected PC=0x0600]");
    let mut cpu = machine(&[0xd0, 0xfe], 0x3469);
    assert_eq!(cpu.run_single(), Err(CpuError { pc: 0x3469, kind: CpuErrorKind::SelfLoop }));
}

#[test]
fn jump_elsewhere_is_no_self_loop_after_reset() {
    let mut cpu = machine(&[0x4c, 0x00, 0x00], 0x0600);
    assert_eq!(cpu.run_single(), Ok(0x0000));
}

#[test]
fn program_counter_overflow_on_the_opcode() {
    let mut cpu = machine(&[0xea], 0xffff);
    let error = cpu.run_single().unwrap_err();
    assert_eq!(error, CpuError { pc: 0xffff, kind: CpuErrorKind::PcOverflow });
    assert_eq!(error.to_text(), "[CPU Windup PC=0xffff]");
    assert_eq!(cpu.PC, 0xffff);
}

#[test]
fn program_counter_overflow_on_the_operand() {
    let mut cpu = machine(&[0xa9, 0x01], 0xfffe);
    assert_eq!(cpu.run_single(), Err(CpuError { pc: 0xfffe, kind: CpuErrorKind::PcOverflow }));
    assert_eq!((cpu.PC, cpu.A), (0xfffe, 0x00));
    let mut cpu = machine(&[0xea, 0xea], 0xfffe);
    assert_eq!(cpu.run_single(), Ok(0xffff));
}

#[test]
fn trace_is_off_until_enabled() {
    let mut cpu = machine(&[0xea, 0xea], 0x0600);
    run(&mut cpu, 2);
    assert!(cpu.trace_entries().is_empty());
}

#[test]
fn trace_keeps_the_most_recent_instructions() {
    let mut cpu = machine(&[0xa9, 0x01, 0xa2, 0x02, 0xa0, 0x03, 0xea], 0x0600);
    cpu.enable_trace(3);
    run(&mut cpu, 4);
    let trace = cpu.trace_entries();
    assert_eq!(trace.len(), 3);
    assert_eq!(trace.iter().map(|s| s.ins).collect::<Vec<u8>>(), vec![0xa2, 0xa0, 0xea]);
    assert_eq!(trace.iter().map(|s| s.at).collect::<Vec<u16>>(), vec![0x0602, 0x0604, 0x0606]);
    assert_eq!(trace[2], cpu.get_last_state());
}

#[test]
fn trace_with_no_room_stays_empty() {
    let mut cpu = machine(&[0xea, 0xea], 0x0600);
    cpu.enable_trace(0);
    run(&mut cpu, 2);
    assert!(cpu.trace_entries().is_empty());
    assert_eq!(cpu.get_last_state().at, 0x0601);
}

#[test]
fn snapshot_shows_the_instruction_and_the_registers_after_it() {
    let mut cpu = machine(&[0xee, 0x00, 0x20], 0x0600);
    cpu.memory.write_memory(0x2000, 0x7f);
    cpu.enable_trace(8);
    run(&mut cpu, 1);
    let state = cpu.get_last_state();
    assert_eq!(
        state,
        CPUState {
            ins: 0xee,
            op1: 0x7f,
            op2: 0x80,
            A: 0,
            X: 0,
            Y: 0,
            P: cpu.P,
            SP: 0xff,
            PC: 0x0603,
            adr: 0x2000,
            at: 0x0600,
        }
    );
    assert!(state.P.get_N());
    assert_eq!(state.instruction_name(), "INC Absolute");
}

#[test]
fn tracing_does_not_change_execution() {
    let program = [0xa9, 0x10, 0x69, 0xf5, 0x48, 0x2a, 0x85, 0x20, 0x68];
    let mut plain = machine(&program, 0x0600);
    let mut traced = machine(&program, 0x0600);
    traced.enable_trace(2);
    for _ in 0..5 {
        assert_eq!(plain.run_single(), traced.run_single());
        assert_eq!(
            (plain.A, plain.X, plain.Y, plain.PC, plain.SP, plain.P),
            (traced.A, traced.X, traced.Y, traced.PC, traced.SP, traced.P)
        );
    }
}

#[test]
fn instruction_names() {
    let name = |ins: u8| {
        let mut cpu = machine(&[ins], 0x0600);
        let _ = cpu.run_single();
        cpu.get_last_state().instruction_name()
    };
    assert_eq!(name(0x00), "BRK");
    assert_eq!(name(0xa9), "LDA Immediate");
    assert_eq!(name(0x6c), "JMP Indirect");
    assert_eq!(name(0xd5), "CMP ZeroPageX");
    assert_eq!(name(0xfe), "INC AbsoluteX");
    assert_eq!(name(0x02), "INV Invalid");
}

#[test]
fn flat_memory_answers_zero_beyond_its_end() {
    let mut mem = Memory::new(0x0400);
    mem.write_memory(0x03ff, 0xaa);
    mem.write_memory(0x0400, 0xbb);
    assert_eq!(mem.read_memory(0x03ff), 0xaa);
    assert_eq!(mem.read_memory(0x0400), 0x00);
    assert_eq!(mem.read_memory_word(0x03ff), 0x00aa);
    assert_eq!(
        mem.diagnostics(),
        vec![
            Diagnostic::WriteOutOfRange { address: 0x0400, value: 0xbb },
            Diagnostic::ReadOutOfRange { address: 0x0400 },
            Diagnostic::ReadOutOfRange { address: 0x0400 },
        ]
    );
    assert_eq!(mem.size(), 0x0400);
}

#[test]
fn flat_memory_keeps_a_bounded_number_of_diagnostics() {
    let mut mem = Memory::with_diagnostics(4, 2);
    for address in 10..15u16 {
        let _ = mem.read_memory(address);
    }
    assert_eq!(
        mem.diagnostics(),
        vec![
            Diagnostic::ReadOutOfRange { address: 13 },
            Diagnostic::ReadOutOfRange { address: 14 },
        ]
    );
}

#[test]
fn word_reads_wrap_at_the_top_of_the_address_space() {
    let mut mem = Memory::new(0x10000);
    mem.write_memory(0xffff, 0x34);
    mem.write_memory(0x0000, 0x12);
    assert_eq!(mem.read_memory_word(0xffff), 0x1234);
}

#[test]
fn memory_from_an_image() {
    let mut mem = Memory::from_image(vec![1, 2, 3]);
    assert_eq!(mem.read_memory(2), 3);
    assert_eq!(mem.read_memory_word(0), 0x0201);
}

#[test]
fn debug_windows_of_flat_memory() {
    let mut mem = Memory::new(0x0200);
    mem.write_memory(0x0000, 0x11);
    mem.write_memory(0x00ff, 0x22);
    mem.write_memory(0x01f0, 0x33);
    mem.write_memory(0x01ff, 0x44);
    let zero_page = mem.show_zero_page();
    assert_eq!(zero_page.len(), 256);
    assert_eq!((zero_page[0], zero_page[255]), (0x11, 0x22));
    let stack = mem.show_stack();
    assert_eq!(stack.len(), 16);
    assert_eq!((stack[0], stack[15]), (0x33, 0x44));
    assert_eq!(Memory::new(4).show_stack(), vec![0u8; 16]);
}

#[test]
fn interrupt_and_return_resume_where_they_left() {
    for cause in [InterruptType::INT, InterruptType::NMI, InterruptType::BRK] {
        let mut cpu = machine(&[0xea], 0x1234);
        cpu.memory.write_memory(0xfffa, 0x00);
        cpu.memory.write_memory(0xfffb, 0x70);
        cpu.memory.write_memory(0xfffe, 0x00);
        cpu.memory.write_memory(0xffff, 0x70);
        cpu.memory.write_memory(0x7000, 0x40);
        cpu.P.value = 0xcb;
        cpu.SP = 0x01;
        cpu.interrupt(cause);
        assert_eq!((cpu.PC, cpu.SP), (0x7000, 0xfe));
        assert!(cpu.P.get_I());
        assert_eq!(cpu.run_single(), Ok(0x1234));
        assert_eq!(cpu.SP, 0x01);
        assert_eq!(cpu.P.value, 0xdb);
    }
}

#[test]
fn compare_instructions_on_every_operand_pair() {
    for register in 0..=255u8 {
        for value in (0..=255u8).step_by(5) {
            let mut cpu = machine(&[0xc9, value, 0xe0, value, 0xc0, value], 0x0600);
            cpu.A = register;
            cpu.X = register;
            cpu.Y = register;
            for _ in 0..3 {
                cpu.P.value = 0x40;
                assert!(cpu.run_single().is_ok());
                assert_eq!(cpu.P.get_C(), register >= value);
                assert_eq!(cpu.P.get_Z(), register == value);
                assert_eq!(cpu.P.get_N(), register.wrapping_sub(value) & 0x80 != 0);
                assert!(cpu.P.get_V());
            }
            assert_eq!((cpu.A, cpu.X, cpu.Y), (register, register, register));
        }
    }
}

#[test]
fn bit_test_from_memory() {
    let mut cpu = machine(&[0x24, 0x10, 0x2c, 0x00, 0x20], 0x0600);
    cpu.memory.write_memory(0x0010, 0xc0);
    cpu.memory.write_memory(0x2000, 0x01);
    cpu.A = 0x01;
    run(&mut cpu, 1);
    assert_eq!(cpu.P.value, 0xc2);
    run(&mut cpu, 1);
    assert_eq!(cpu.P.value, 0x00);
    assert_eq!(cpu.A, 0x01);
}

#[test]
fn logic_instructions() {
    let mut cpu = machine(&[0x09, 0x0f, 0x29, 0x3c, 0x49, 0xff], 0x0600);
    cpu.A = 0xf0;
    run(&mut cpu, 1);
    assert_eq!((cpu.A, cpu.P.value), (0xff, 0x80));
    run(&mut cpu, 1);
    assert_eq!((cpu.A, cpu.P.value), (0x3c, 0x00));
    run(&mut cpu, 1);
    assert_eq!((cpu.A, cpu.P.value), (0xc3, 0x80));
}

#[test]
fn subtraction_through_memory() {
    let mut cpu = machine(&[0x38, 0xe5, 0x10, 0xf8, 0x38, 0xed, 0x00, 0x20], 0x0600);
    cpu.memory.write_memory(0x0010, 0x01);
    cpu.memory.write_memory(0x2000, 0x19);
    cpu.A = 0x43;
    run(&mut cpu, 2);
    assert_eq!(cpu.A, 0x42);
    run(&mut cpu, 3);
    assert_eq!(cpu.A, 0x23);
    assert!(cpu.P.get_C() && cpu.P.get_D());
}

#[test]
fn sequential_instructions_advance_by_their_length() {
    for opcode in 0..=255u8 {
        let instruction = match decode(opcode) {
            Some(instruction) => instruction,
            None => continue,
        };
        let redirects = matches!(
            instruction.operation,
            Operation::Branch(_, _)
                | Operation::Jmp
                | Operation::Jsr
                | Operation::Rts
                | Operation::Rti
                | Operation::Brk
        );
        if redirects {
            continue;
        }
        let mut cpu = machine(&[opcode, 0x10, 0x20], 0x0600);
        assert_eq!(cpu.run_single(), Ok(0x0600 + length(instruction)));
    }
}

#[test]
fn flat_memory_shows_its_cells() {
    let mut mem = Memory::new(4);
    mem.write_memory(1, 9);
    assert_eq!(mem.cells(), &vec![0, 9, 0, 0]);
}
