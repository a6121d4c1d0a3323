//! Small routines as software would use them.

use rusty_c64::cpu::CPU6502;
use rusty_c64::memory::{Memory, Memory6502};

fn load(program: &[u8], at: u16) -> CPU6502<Memory> {
    let mut mem = Memory::new(0x10000);
    for (i, byte) in program.iter().enumerate() {
        mem.write_memory(at + i as u16, *byte);
    }
    let mut cpu = CPU6502::new(mem);
    cpu.reset_at(at);
    cpu
}

fn run_until(cpu: &mut CPU6502<Memory>, stop: u16, limit: usize) {
    for _ in 0..limit {
        if cpu.PC == stop {
            return;
        }
        assert!(cpu.run_single().is_ok());
    }
    panic!("the routine did not reach {:#06x}", stop);
}

const MULTIPLY: [u8; 20] = [
    0xa9, 0x00, // LDA #0
    0xa2, 0x08, // LDX #8
    0x46, 0x10, // LSR $10
    0x90, 0x03, // BCC +3
    0x18, // CLC
    0x65, 0x11, // ADC $11
    0x6a, // ROR A
    0x66, 0x10, // ROR $10
    0xca, // DEX
    0xd0, 0xf5, // BNE -11
    0x85, 0x12, // STA $12
    0xea, // NOP
];

#[test]
fn shift_and_add_multiplication() {
    for (x, y) in [(13u16, 11u16), (200, 123), (255, 255), (0, 77), (1, 1), (128, 2)] {
        let mut cpu = load(&MULTIPLY, 0x0600);
        cpu.memory.write_memory(0x0010, x as u8);
        cpu.memory.write_memory(0x0011, y as u8);
        run_until(&mut cpu, 0x0613, 200);
        let low = cpu.memory.read_memory(0x0010) as u16;
        let high = cpu.memory.read_memory(0x0012) as u16;
        assert_eq!(high << 8 | low, x * y);
    }
}

#[test]
fn block_copy_through_zero_page_pointers() {
    let program = [
        0xa0, 0x00, // LDY #0
        0xb1, 0x20, // LDA ($20),Y
        0x91, 0x22, // STA ($22),Y
        0xc8, // INY
        0xc0, 0x10, // CPY #16
        0xd0, 0xf7, // BNE -9
        0xea, // NOP
    ];
    let mut cpu = load(&program, 0x0600);
    cpu.memory.write_memory(0x0020, 0xf8);
    cpu.memory.write_memory(0x0021, 0x30);
    cpu.memory.write_memory(0x0022, 0x00);
    cpu.memory.write_memory(0x0023, 0x40);
    for i in 0..16u16 {
        cpu.memory.write_memory(0x30f8 + i, 0xa0 + i as u8);
    }
    run_until(&mut cpu, 0x060b, 200);
    for i in 0..16u16 {
        assert_eq!(cpu.memory.read_memory(0x4000 + i), 0xa0 + i as u8);
    }
    assert_eq!(cpu.Y, 16);
    assert!(cpu.P.get_Z() && cpu.P.get_C());
}

#[test]
fn decimal_counter() {
    let program = [
        0xf8, // SED
        0xa9, 0x00, // LDA #0
        0xa2, 0x63, // LDX #99
        0x18, // CLC
        0x69, 0x01, // ADC #1
        0xca, // DEX
        0xd0, 0xfa, // BNE -6
        0xd8, // CLD
        0xea, // NOP
    ];
    let mut cpu = load(&program, 0x0600);
    run_until(&mut cpu, 0x060c, 1_000);
    assert_eq!(cpu.A, 0x99);
    assert!(!cpu.P.get_D());
}

#[test]
fn nested_subroutines() {
    let program = [
        0x20, 0x10, 0x06, // 0600 JSR $0610
        0xea, // 0603 NOP
        0x00, 0x00, 0x00, 0x00, 0x00, 0x00, 0x00, 0x00, 0x00, 0x00, 0x00, 0x00, //
        0xa9, 0x05, // 0610 LDA #5
        0x20, 0x20, 0x06, // 0612 JSR $0620
        0x69, 0x01, // 0615 ADC #1
        0x60, // 0617 RTS
        0x00, 0x00, 0x00, 0x00, 0x00, 0x00, 0x00, 0x00, //
        0x0a, // 0620 ASL A
        0x48, // 0621 PHA
        0xa9, 0x00, // 0622 LDA #0
        0x68, // 0624 PLA
        0x60, // 0625 RTS
    ];
    let mut cpu = load(&program, 0x0600);
    run_until(&mut cpu, 0x0603, 100);
    assert_eq!(cpu.A, 11);
    assert_eq!(cpu.SP, 0xff);
}
