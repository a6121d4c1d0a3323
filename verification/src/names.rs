//! The names under which the trace shows the instructions.

use crate::registers::CPUState;
use vstd::prelude::*;

verus! {

/// The name of the instruction behind an opcode: its mnemonic and, for
/// most opcodes, its addressing mode. Undefined opcodes are shown as
/// invalid.
pub open spec fn spec_instruction_name(ins: u8) -> Seq<char> {
    match ins {
        0x00 => "BRK"@,
        0x01 => "ORA IndirectX"@,
        0x05 => "ORA ZeroPage"@,
        0x06 => "ASL ZeroPage"@,
        0x08 => "PHP"@,
        0x09 => "ORA Immediate"@,
        0x0a => "ASL Accumulator"@,
        0x0d => "ORA Absolute"@,
        0x0e => "ASL Absolute"@,
        0x10 => "BPL"@,
        0x11 => "ORA AbsoluteX"@,
        0x15 => "ORA ZeroPageX"@,
        0x16 => "ASL ZeroPageX"@,
        0x18 => "CLC"@,
        0x19 => "ORA AbsoluteY"@,
        0x1d => "ORA AbsoluteX"@,
        0x1e => "ASL AbsoluteX"@,
        0x20 => "JSR"@,
        0x21 => "AND IndirectX"@,
        0x24 => "BIT ZeroPage"@,
        0x25 => "AND ZeroPage"@,
        0x26 => "ROL ZeroPage"@,
        0x28 => "PLP"@,
        0x29 => "AND Immidiate"@,
        0x2a => "ROL Accumulator"@,
        0x2c => "BIT Absolute"@,
        0x2d => "AND Absolute"@,
        0x2e => "ROL Absolute"@,
        0x30 => "BMI Relative"@,
        0x31 => "AND IndirectY"@,
        0x35 => "AND ZeroPageX"@,
        0x36 => "ROL ZeroPageX"@,
        0x38 => "SEC"@,
        0x39 => "AND AbsoluteY"@,
        0x3d => "AND AbsoluteX"@,
        0x3e => "ROL AbsoluteX"@,
        0x40 => "RTI"@,
        0x41 => "EOR IndirectX"@,
        0x45 => "EOR ZeroPage"@,
        0x46 => "LSR ZeroPage"@,
        0x48 => "PHA"@,
        0x49 => "EOR Immediate"@,
        0x4a => "LSR Accumulator"@,
        0x4c => "JMP Absolute"@,
        0x4d => "EOR Absolute"@,
        0x4e => "LSR Absolute"@,
        0x50 => "BVC"@,
        0x51 => "EOR IndirectY"@,
        0x55 => "EOR ZeroPageX"@,
        0x56 => "LSR ZeroPageX"@,
        0x58 => "CLI"@,
        0x59 => "EOR AbsoluteY"@,
        0x5d => "EOR AbsoluteX"@,
        0x5e => "LSR AbsoluteX"@,
        0x60 => "RTS"@,
        0x61 => "ADC IndirectX"@,
        0x65 => "ADC ZeroPage"@,
        0x66 => "ROR ZeroPage"@,
        0x68 => "PLA"@,
        0x69 => "ADC Immediate"@,
        0x6a => "ROR Accumulator"@,
        0x6c => "JMP Indirect"@,
        0x6d => "ADC Absolute"@,
        0x6e => "ROR Absolute"@,
        0x70 => "BVS"@,
        0x71 => "ADC IndirectY"@,
        0x75 => "ADC ZeroPageX"@,
        0x76 => "ROR ZeroPageX"@,
        0x78 => "SEI"@,
        0x79 => "ADC AbsoluteY"@,
        0x7d => "ADC AbsoluteX"@,
        0x7e => "ROR AbsoluteX"@,
        0x81 => "STA IndirectX"@,
        0x84 => "STY ZeroPage"@,
        0x85 => "STA ZeroPage"@,
        0x86 => "STX ZeroPage"@,
        0x88 => "DEY"@,
        0x8a => "TXA"@,
        0x8c => "STY Absolute"@,
        0x8d => "STA Absolute"@,
        0x8e => "STX Absolute"@,
        0x90 => "BCC"@,
        0x91 => "STA IndirectY"@,
        0x94 => "STY ZeroPageX"@,
        0x95 => "STA ZeroPageX"@,
        0x96 => "STX ZeroPageY"@,
        0x98 => "TYA"@,
        0x99 => "STA AbsoluteY"@,
        0x9a => "TXS"@,
        0x9d => "STA AbsoluteX"@,
        0xa0 => "LDY Immediate"@,
        0xa1 => "LDA IndirectX"@,
        0xa2 => "LDX Immediate"@,
        0xa4 => "LDY ZeroPage"@,
        0xa5 => "LDA ZeroPage"@,
        0xa6 => "LDX ZeroPage"@,
        0xa8 => "TAY"@,
        0xa9 => "LDA Immediate"@,
        0xaa => "TAX"@,
        0xac => "LDY Absolute"@,
        0xad => "LDA Absolute"@,
        0xae => "LDX Absolute"@,
        0xb0 => "BCS"@,
        0xb1 => "LDA IndirectY"@,
        0xb4 => "LDY ZeroPageX"@,
        0xb5 => "LDA ZeroPageX"@,
        0xb6 => "LDX ZeroPageY"@,
        0xb8 => "CLV"@,
        0xb9 => "LDA AbsoluteY"@,
        0xba => "TSX"@,
        0xbc => "LDY AbsoluteX"@,
        0xbd => "LDA AbsoluteX"@,
        0xbe => "LDX AbsoluteY"@,
        0xc0 => "CPY Immediate"@,
        0xc1 => "CMP IndirectX"@,
        0xc4 => "CPY ZeroPage"@,
        0xc5 => "CMP ZeroPage"@,
        0xc6 => "DEC ZeroPage"@,
        0xc8 => "INY"@,
        0xc9 => "CMP Immediate"@,
        0xca => "DEX"@,
        0xcc => "CPY Absolute"@,
        0xcd => "CMP Absolute"@,
        0xce => "DEC Absolute"@,
        0xd0 => "BNE Relative"@,
        0xd1 => "CMP IndirectY"@,
        0xd5 => "CMP ZeroPageX"@,
        0xd6 => "DEC ZeroPageX"@,
        0xd8 => "CLD"@,
        0xd9 => "CMP AbsoluteY"@,
        0xdd => "CMP AbsoluteX"@,
        0xde => "DEC AbsoluteX"@,
        0xe0 => "CPX Immediate"@,
        0xe1 => "SBC IndirectX"@,
        0xe4 => "CPX ZeroPage"@,
        0xe5 => "SBC ZeroPage"@,
        0xe6 => "INC ZeroPage"@,
        0xe8 => "INX"@,
        0xe9 => "SBC Immidiate"@,
        0xea => "NOP"@,
        0xec => "CPX Absolute"@,
        0xed => "SBC Absolute"@,
        0xee => "INC Absolute"@,
        0xf0 => "BEQ Relative"@,
        0xf1 => "SBC IndirectY"@,
        0xf5 => "SBC ZeroPageX"@,
        0xf6 => "INC ZeroPageX"@,
        0xf8 => "SED"@,
        0xf9 => "SBC AbsoluteY"@,
        0xfd => "SBC AbsoluteX"@,
        0xfe => "INC AbsoluteX"@,
        _ => "INV Invalid"@,
    }
}

impl CPUState {
    /// The name of the instruction that this snapshot was taken of.
    pub fn instruction_name(&self) -> (name: String)
        ensures
            name@ == spec_instruction_name(self.ins),
    {
        let name: &str = match self.ins {
            0x00 => "BRK",
            0x01 => "ORA IndirectX",
            0x05 => "ORA ZeroPage",
            0x06 => "ASL ZeroPage",
            0x08 => "PHP",
            0x09 => "ORA Immediate",
            0x0a => "ASL Accumulator",
            0x0d => "ORA Absolute",
            0x0e => "ASL Absolute",
            0x10 => "BPL",
            0x11 => "ORA AbsoluteX",
            0x15 => "ORA ZeroPageX",
            0x16 => "ASL ZeroPageX",
            0x18 => "CLC",
            0x19 => "ORA AbsoluteY",
            0x1d => "ORA AbsoluteX",
            0x1e => "ASL AbsoluteX",
            0x20 => "JSR",
            0x21 => "AND IndirectX",
            0x24 => "BIT ZeroPage",
            0x25 => "AND ZeroPage",
            0x26 => "ROL ZeroPage",
            0x28 => "PLP",
            0x29 => "AND Immidiate",
            0x2a => "ROL Accumulator",
            0x2c => "BIT Absolute",
            0x2d => "AND Absolute",
            0x2e => "ROL Absolute",
            0x30 => "BMI Relative",
            0x31 => "AND IndirectY",
            0x35 => "AND ZeroPageX",
            0x36 => "ROL ZeroPageX",
            0x38 => "SEC",
            0x39 => "AND AbsoluteY",
            0x3d => "AND AbsoluteX",
            0x3e => "ROL AbsoluteX",
            0x40 => "RTI",
            0x41 => "EOR IndirectX",
            0x45 => "EOR ZeroPage",
            0x46 => "LSR ZeroPage",
            0x48 => "PHA",
            0x49 => "EOR Immediate",
            0x4a => "LSR Accumulator",
            0x4c => "JMP Absolute",
            0x4d => "EOR Absolute",
            0x4e => "LSR Absolute",
            0x50 => "BVC",
            0x51 => "EOR IndirectY",
            0x55 => "EOR ZeroPageX",
            0x56 => "LSR ZeroPageX",
            0x58 => "CLI",
            0x59 => "EOR AbsoluteY",
            0x5d => "EOR AbsoluteX",
            0x5e => "LSR AbsoluteX",
            0x60 => "RTS",
            0x61 => "ADC IndirectX",
            0x65 => "ADC ZeroPage",
            0x66 => "ROR ZeroPage",
            0x68 => "PLA",
            0x69 => "ADC Immediate",
            0x6a => "ROR Accumulator",
            0x6c => "JMP Indirect",
            0x6d => "ADC Absolute",
            0x6e => "ROR Absolute",
            0x70 => "BVS",
            0x71 => "ADC IndirectY",
            0x75 => "ADC ZeroPageX",
            0x76 => "ROR ZeroPageX",
            0x78 => "SEI",
            0x79 => "ADC AbsoluteY",
            0x7d => "ADC AbsoluteX",
            0x7e => "ROR AbsoluteX",
            0x81 => "STA IndirectX",
            0x84 => "STY ZeroPage",
            0x85 => "STA ZeroPage",
            0x86 => "STX ZeroPage",
            0x88 => "DEY",
            0x8a => "TXA",
            0x8c => "STY Absolute",
            0x8d => "STA Absolute",
            0x8e => "STX Absolute",
            0x90 => "BCC",
            0x91 => "STA IndirectY",
            0x94 => "STY ZeroPageX",
            0x95 => "STA ZeroPageX",
            0x96 => "STX ZeroPageY",
            0x98 => "TYA",
            0x99 => "STA AbsoluteY",
            0x9a => "TXS",
            0x9d => "STA AbsoluteX",
            0xa0 => "LDY Immediate",
            0xa1 => "LDA IndirectX",
            0xa2 => "LDX Immediate",
            0xa4 => "LDY ZeroPage",
            0xa5 => "LDA ZeroPage",
            0xa6 => "LDX ZeroPage",
            0xa8 => "TAY",
            0xa9 => "LDA Immediate",
            0xaa => "TAX",
            0xac => "LDY Absolute",
            0xad => "LDA Absolute",
            0xae => "LDX Absolute",
            0xb0 => "BCS",
            0xb1 => "LDA IndirectY",
            0xb4 => "LDY ZeroPageX",
            0xb5 => "LDA ZeroPageX",
            0xb6 => "LDX ZeroPageY",
            0xb8 => "CLV",
            0xb9 => "LDA AbsoluteY",
            0xba => "TSX",
            0xbc => "LDY AbsoluteX",
            0xbd => "LDA AbsoluteX",
            0xbe => "LDX AbsoluteY",
            0xc0 => "CPY Immediate",
            0xc1 => "CMP IndirectX",
            0xc4 => "CPY ZeroPage",
            0xc5 => "CMP ZeroPage",
            0xc6 => "DEC ZeroPage",
            0xc8 => "INY",
            0xc9 => "CMP Immediate",
            0xca => "DEX",
            0xcc => "CPY Absolute",
            0xcd => "CMP Absolute",
            0xce => "DEC Absolute",
            0xd0 => "BNE Relative",
            0xd1 => "CMP IndirectY",
            0xd5 => "CMP ZeroPageX",
            0xd6 => "DEC ZeroPageX",
            0xd8 => "CLD",
            0xd9 => "CMP AbsoluteY",
            0xdd => "CMP AbsoluteX",
            0xde => "DEC AbsoluteX",
            0xe0 => "CPX Immediate",
            0xe1 => "SBC IndirectX",
            0xe4 => "CPX ZeroPage",
            0xe5 => "SBC ZeroPage",
            0xe6 => "INC ZeroPage",
            0xe8 => "INX",
            0xe9 => "SBC Immidiate",
            0xea => "NOP",
            0xec => "CPX Absolute",
            0xed => "SBC Absolute",
            0xee => "INC Absolute",
            0xf0 => "BEQ Relative",
            0xf1 => "SBC IndirectY",
            0xf5 => "SBC ZeroPageX",
            0xf6 => "INC ZeroPageX",
            0xf8 => "SED",
            0xf9 => "SBC AbsoluteY",
            0xfd => "SBC AbsoluteX",
            0xfe => "INC AbsoluteX",
            _ => "INV Invalid",
        };
        name.to_owned()
    }
}

} // verus!
