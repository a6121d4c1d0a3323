//! The same programs, stopped at the first failure of the engine.

use rusty_c64::cpu::CPU6502;
use rusty_c64::memory::{Memory, Memory6502};

#[test]
fn mod_test1() {
    let mut mem = Memory::new(4*1024);

    mem.write_memory(0x600, 0xa9); //LDA
    mem.write_memory(0x601, 0x10); //#$10
    mem.write_memory(0x602, 0x85); //STA
    mem.write_memory(0x603, 0x00); //$00
    mem.write_memory(0x604, 0x85); //STA
    mem.write_memory(0x605, 0x01); //$01
    mem.write_memory(0x606, 0x06); //ASL
    mem.write_memory(0x607, 0x00); //$00
    mem.write_memory(0x608, 0xa9); //LDA
    mem.write_memory(0x609, 0x30); //#$30
    mem.write_memory(0x60a, 0x85); //STA
    mem.write_memory(0x60b, 0x02); //$02
    mem.write_memory(0x60c, 0xa9); //LDA
    mem.write_memory(0x60d, 0x02); //#$02
    mem.write_memory(0x60e, 0x85); //STA
    mem.write_memory(0x60f, 0x04); //$04
    mem.write_memory(0x610, 0xa9); //LDA
    mem.write_memory(0x611, 0x01); //#$01
    mem.write_memory(0x612, 0xaa); //TAX
    mem.write_memory(0x613, 0x01); //ORA
    mem.write_memory(0x614, 0x03); //($03,X)

    let mut cpu = CPU6502::new(mem);

    cpu.reset_at(0x0600);

    println!("CPU: {:?}", cpu);

    for _i in 0..11 {
        match cpu.run_single() {
            Ok(_) => {},
            Err(e) => {
                println!("{:?}", cpu.trace_entries());
                println!("Error: {}", e.to_text());
                break;
            }
        };
    }
    assert_eq!(cpu.A, 0x31);
    assert_eq!(cpu.X, 0x01);
    assert_eq!(cpu.Y, 0x00);
    assert_eq!(cpu.memory.read_memory(0), 0x20);
    assert_eq!(cpu.memory.read_memory(1), 0x10);
    assert_eq!(cpu.memory.read_memory(2), 0x30);
    assert_eq!(cpu.memory.read_memory(3), 0x00);
    assert_eq!(cpu.memory.read_memory(4), 0x02);
}

#[test]
fn mod_test2() {
    let mut mem = Memory::new(4*1024);

    mem.write_memory(0x600, 0xa9); //LDA
    mem.write_memory(0x601, 0xc0); //#$c0
    mem.write_memory(0x602, 0xaa); //TAX
    mem.write_memory(0x603, 0xe8); //INX
    mem.write_memory(0x604, 0x69); //ADC
    mem.write_memory(0x605, 0xc4); //#$c4

    let mut cpu = CPU6502::new(mem);

    cpu.reset_at(0x0600);

    println!("CPU: {:?}", cpu);

    for _i in 0..4 {
        match cpu.run_single() {
            Ok(_) => {},
            Err(e) => {
                println!("{:?}", cpu.trace_entries());
                println!("Error: {}", e.to_text());
                break;
            }
        };
    }
    assert_eq!(cpu.A, 0x84);
    assert_eq!(cpu.X, 0xc1);
    assert_eq!(cpu.Y, 0x00);
    assert!(cpu.P.get_N());
    assert!(cpu.P.get_C());
}

#[test]
#[allow(non_snake_case)]
fn mod_test_BNE() {
    let mut mem = Memory::new(4*1024);

    mem.write_memory(0x600, 0xa9); //LDA
    mem.write_memory(0x601, 0x01); //#$01
    mem.write_memory(0x602, 0xc9); //CMP
    mem.write_memory(0x603, 0x02); //#$02
    mem.write_memory(0x604, 0xd0); //BNE
    mem.write_memory(0x605, 0x02); //+2
    mem.write_memory(0x606, 0x85); //STA
    mem.write_memory(0x607, 0x22); //$22
    mem.write_memory(0x608, 0xea); //NOP

    let mut cpu = CPU6502::new(mem);

    cpu.reset_at(0x0600);

    println!("CPU: {:?}", cpu);

    for _i in 0..4 {
        match cpu.run_single() {
            Ok(_) => {},
            Err(e) => {
                println!("{:?}", cpu.trace_entries());
                println!("Error: {}", e.to_text());
                break;
            }
        };
    }

    assert_eq!(cpu.A, 0x01);
    assert_eq!(cpu.X, 0x00);
    assert_eq!(cpu.Y, 0x00);
    assert!(cpu.P.get_N());
    assert!(!cpu.P.get_C());
    assert!(!cpu.P.get_Z());

}

#[test]
#[allow(non_snake_case)]
fn mod_test_BNE2() {
    let mut mem = Memory::new(4*1024);

    mem.write_memory(0x600, 0xa9); //LDA
    mem.write_memory(0x601, 0x01); //#$01
    mem.write_memory(0x602, 0xc9); //CMP
    mem.write_memory(0x603, 0x01); //#$02
    mem.write_memory(0x604, 0xd0); //BNE
    mem.write_memory(0x605, 0x02); //+2
    mem.write_memory(0x606, 0x85); //STA
    mem.write_memory(0x607, 0x22); //$22
    mem.write_memory(0x608, 0xea); //NOP

    let mut cpu = CPU6502::new(mem);

    cpu.reset_at(0x0600);

    println!("CPU: {:?}", cpu);

    for _i in 0..4 {
        match cpu.run_single() {
            Ok(_) => {},
            Err(e) => {
                println!("{:?}", cpu.trace_entries());
                println!("Error: {}", e.to_text());
                break;
            }
        };
    }

    assert_eq!(cpu.A, 0x01);
    assert_eq!(cpu.X, 0x00);
    assert_eq!(cpu.Y, 0x00);
    assert_eq!(cpu.memory.read_memory(0x22), 0x01);
    assert!(!cpu.P.get_N());
    assert!(cpu.P.get_C());
    assert!(cpu.P.get_Z());
}

#[test]
fn mod_test_ind_jmp() {
    let mut mem = Memory::new(4*1024);

    mem.write_memory(0x600, 0xa9); //LDA
    mem.write_memory(0x601, 0x01); //#$01
    mem.write_memory(0x602, 0x85); //STA
    mem.write_memory(0x603, 0xf0); //$f0
    mem.write_memory(0x604, 0xa9); //LDA
    mem.write_memory(0x605, 0xcc); //#$cc
    mem.write_memory(0x606, 0x85); //STA
    mem.write_memory(0x607, 0xf1); //$f1
    mem.write_memory(0x608, 0x6c); //JMP
    mem.write_memory(0x609, 0xf0); //($f0)
    mem.write_memory(0x60a, 0x00); //($00) //($00f0)

    let mut cpu = CPU6502::new(mem);

    cpu.reset_at(0x0600);

    println!("CPU: {:?}", cpu);

    for _i in 0..5 {
        match cpu.run_single() {
            Ok(_) => {},
            Err(e) => {
                println!("{:?}", cpu.trace_entries());
                println!("Error: {}", e.to_text());
                break;
            }
        };
    }

    assert_eq!(cpu.PC, 0xcc01);
}

#[test]
fn mod_test_lda_indx() {
    let mut mem = Memory::new(4*1024);

    mem.write_memory(0x600, 0xa2); //LDX
    mem.write_memory(0x601, 0x01); //#$01
    mem.write_memory(0x602, 0xa9); //LDA
    mem.write_memory(0x603, 0x05); //#$05
    mem.write_memory(0x604, 0x85); //STA
    mem.write_memory(0x605, 0x01); //$01
    mem.write_memory(0x606, 0xa9); //LDA
    mem.write_memory(0x607, 0x07); //#$07
    mem.write_memory(0x608, 0x85); //STA
    mem.write_memory(0x609, 0x02); //$02
    mem.write_memory(0x60a, 0xa0); //LDY
    mem.write_memory(0x60b, 0x0a); //#$0a
    mem.write_memory(0x60c, 0x8c); //STY
    mem.write_memory(0x60d, 0x05); //
    mem.write_memory(0x60e, 0x07); //$0705
    mem.write_memory(0x60f, 0xa1); //LDA
    mem.write_memory(0x610, 0x00); //$(00,X)
    mem.write_memory(0x611, 0xea); //NOP

    let mut cpu = CPU6502::new(mem);

    cpu.reset_at(0x0600);

    println!("CPU: {:?}", cpu);

    for _i in 0..9 {
        match cpu.run_single() {
            Ok(_) => {},
            Err(e) => {
                println!("{:?}", cpu.trace_entries());
                println!("Error: {}", e.to_text());
                break;
            }
        };
    }

    assert_eq!(cpu.A, 0x0a);
    assert_eq!(cpu.X, 0x01);
    assert_eq!(cpu.Y, 0x0a);
    assert_eq!(cpu.memory.read_memory(0x0705), 0x0a);
    assert!(!cpu.P.get_N());
    assert!(!cpu.P.get_C());
    assert!(!cpu.P.get_Z());

}

#[test]
fn mod_test_lda_indy() {
    let mut mem = Memory::new(4*1024);

    mem.write_memory(0x600, 0xa0); //LDY
    mem.write_memory(0x601, 0x01); //#$01
    mem.write_memory(0x602, 0xa9); //LDA
    mem.write_memory(0x603, 0x03); //#$03
    mem.write_memory(0x604, 0x85); //STA
    mem.write_memory(0x605, 0x01); //$01
    mem.write_memory(0x606, 0xa9); //LDA
    mem.write_memory(0x607, 0x07); //#$07
    mem.write_memory(0x608, 0x85); //STA
    mem.write_memory(0x609, 0x02); //$02
    mem.write_memory(0x60a, 0xa2); //LDX
    mem.write_memory(0x60b, 0x0a); //#$0a
    mem.write_memory(0x60c, 0x8e); //STX
    mem.write_memory(0x60d, 0x04); //
    mem.write_memory(0x60e, 0x07); //$0704
    mem.write_memory(0x60f, 0xb1); //LDA
    mem.write_memory(0x610, 0x01); //$(01),Y
    mem.write_memory(0x611, 0xea); //NOP

    let mut cpu = CPU6502::new(mem);

    cpu.reset_at(0x0600);

    println!("CPU: {:?}", cpu);

    for _i in 0..9 {
        match cpu.run_single() {
            Ok(_) => {},
            Err(e) => {
                println!("{:?}", cpu.trace_entries());
                println!("Error: {}", e.to_text());
                break;
            }
        };
    }

    assert_eq!(cpu.A, 0x0a);
    assert_eq!(cpu.X, 0x0a);
    assert_eq!(cpu.Y, 0x01);
    assert_eq!(cpu.memory.read_memory(0x0704), 0x0a);
    assert!(!cpu.P.get_N());
    assert!(!cpu.P.get_C());
    assert!(!cpu.P.get_Z());

}

#[test]
fn mod_test_stack() {
    let mut mem = Memory::new(4*1024);

    mem.write_memory(0x600, 0xa2); //LDX
    mem.write_memory(0x601, 0x00); //#$01
    mem.write_memory(0x602, 0xa0); //LDY
    mem.write_memory(0x603, 0x00); //#$00
    mem.write_memory(0x604, 0x8a); //TXA
    mem.write_memory(0x605, 0x99); //STA
    mem.write_memory(0x606, 0x00);
    mem.write_memory(0x607, 0x02); //$0200,Y
    mem.write_memory(0x608, 0x48); //PHA
    mem.write_memory(0x609, 0xe8); //INX
    mem.write_memory(0x60a, 0xc8); //INY
    mem.write_memory(0x60b, 0xc0); //CPY
    mem.write_memory(0x60c, 0x10); //#$10
    mem.write_memory(0x60d, 0xd0); //BNE
    mem.write_memory(0x60e, 0xf5); //$0604
    mem.write_memory(0x60f, 0x68); //PLA
    mem.write_memory(0x610, 0x99); //STA
    mem.write_memory(0x611, 0x00);
    mem.write_memory(0x612, 0x02); //$0200,Y
    mem.write_memory(0x613, 0xc8); //INY
    mem.write_memory(0x614, 0xc0); //CPY
    mem.write_memory(0x615, 0x20); //#$20
    mem.write_memory(0x616, 0xd0); //BNE
    mem.write_memory(0x617, 0xf7); //$060f
    mem.write_memory(0x618, 0xea); //NOP

    let mut cpu = CPU6502::new(mem);

    cpu.reset_at(0x0600);

    for _i in 0..195 {
        match cpu.run_single() {
            Ok(_) => {},
            Err(e) => {
                println!("{:?}", cpu.trace_entries());
                println!("Error: {}", e.to_text());
                break;
            }
        };
    }

    println!("CPU: {:?}", cpu);

    assert_eq!(cpu.A, 0x00);
    assert_eq!(cpu.X, 0x10);
    assert_eq!(cpu.Y, 0x20);
    assert!(!cpu.P.get_N());
    assert!(cpu.P.get_C());
    assert!(cpu.P.get_Z());

}

#[test]
fn mod_test_jmp() {
    let mut mem = Memory::new(4*1024);

    mem.write_memory(0x600, 0xa9); //LDA
    mem.write_memory(0x601, 0x03); //#$03
    mem.write_memory(0x602, 0x4c); //JMP
    mem.write_memory(0x603, 0x08);
    mem.write_memory(0x604, 0x06); //$0608
    mem.write_memory(0x605, 0x00); //BRK
    mem.write_memory(0x606, 0x00); //BRK
    mem.write_memory(0x607, 0x00); //BRK
    mem.write_memory(0x608, 0x8d); //STA
    mem.write_memory(0x609, 0x00);
    mem.write_memory(0x60a, 0x02); //$0200
    mem.write_memory(0x60b, 0xea); //NOP

    let mut cpu = CPU6502::new(mem);

    cpu.reset_at(0x0600);

    println!("CPU: {:?}", cpu);

    for _i in 0..4 {
        match cpu.run_single() {
            Ok(_) => {},
            Err(e) => {
                println!("{:?}", cpu.trace_entries());
                println!("Error: {}", e.to_text());
                break;
            }
        };
    }

    assert_eq!(cpu.A, 0x03);
    assert_eq!(cpu.X, 0x00);
    assert_eq!(cpu.Y, 0x00);
    assert!(!cpu.P.get_N());
    assert!(!cpu.P.get_C());
    assert!(!cpu.P.get_Z());
    assert_eq!(cpu.memory.read_memory(0x0200), 0x03);
}

#[test]
fn mod_test_jsr_rts() {
    let mut mem = Memory::new(4*1024);

    mem.write_memory(0x600, 0x20); //JSR
    mem.write_memory(0x601, 0x09); //
    mem.write_memory(0x602, 0x06); //$0609
    mem.write_memory(0x603, 0x20); //JSR
    mem.write_memory(0x604, 0x0c); //
    mem.write_memory(0x605, 0x06); //$060c
    mem.write_memory(0x606, 0x20); //JSR
    mem.write_memory(0x607, 0x12); //
    mem.write_memory(0x608, 0x06); //$0612
    mem.write_memory(0x609, 0xa2); //LDX
    mem.write_memory(0x60a, 0x00); //#$00
    mem.write_memory(0x60b, 0x60); //RTS
    mem.write_memory(0x60c, 0xe8); //INX
    mem.write_memory(0x60d, 0xe0); //CPX
    mem.write_memory(0x60e, 0x05); //#$05
    mem.write_memory(0x60f, 0xd0); //BNE
    mem.write_memory(0x610, 0xfb); //$060c
    mem.write_memory(0x611, 0x60); //RTS
    mem.write_memory(0x612, 0xea); //NOP

    let mut cpu = CPU6502::new(mem);

    cpu.reset_at(0x0600);

    println!("CPU: {:?}", cpu);

    for _i in 0..22 {
        match cpu.run_single() {
            Ok(_) => {},
            Err(e) => {
                println!("{:?}", cpu.trace_entries());
                println!("Error: {}", e.to_text());
                break;
            }
        };
    }

    assert_eq!(cpu.A, 0x00);
    assert_eq!(cpu.X, 0x05);
    assert_eq!(cpu.Y, 0x00);
    assert!(!cpu.P.get_N());
    assert!(cpu.P.get_C());
    assert!(cpu.P.get_Z());
}
