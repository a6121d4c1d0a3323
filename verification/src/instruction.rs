//! The instruction set: which operation and which kind of operand each
//! opcode byte stands for.

use vstd::prelude::*;

verus! {

/// The nine ways in which an instruction names a memory operand.
#[derive(Clone, Copy, Debug, PartialEq, Eq, Structural)]
pub enum AdressingType {
    /// One byte: an address in the first 256 bytes.
    ZeroPage,
    /// One byte plus X, wrapping within the zero page.
    ZeroPageX,
    /// One byte plus Y, wrapping within the zero page.
    ZeroPageY,
    /// Two bytes: a full address.
    Absolute,
    /// Two bytes plus X, wrapping at 0xFFFF.
    AbsoluteX,
    /// Two bytes plus Y, wrapping at 0xFFFF.
    AbsoluteY,
    /// Two bytes naming the word that holds the address.
    Indirect,
    /// One byte plus X names the zero-page word that holds the address.
    IndirectX,
    /// One byte names the zero-page word to which Y is added.
    IndirectY,
}

/// Where an instruction finds what it works on.
#[derive(Clone, Copy, Debug, PartialEq, Eq, Structural)]
pub enum Operand {
    /// Nothing follows the opcode.
    Implied,
    /// The accumulator is read and written.
    Accumulator,
    /// The byte after the opcode is the value.
    Immediate,
    /// The byte after the opcode is a signed branch distance.
    Relative,
    /// The operand lives in memory.
    Memory(AdressingType),
}

/// The registers that instructions name.
#[derive(Clone, Copy, Debug, PartialEq, Eq, Structural)]
pub enum Register {
    /// Accumulator.
    A,
    /// Index register X.
    X,
    /// Index register Y.
    Y,
    /// Stack pointer.
    S,
}

/// The condition flags that instructions test or assign.
#[derive(Clone, Copy, Debug, PartialEq, Eq, Structural)]
pub enum Flag {
    Carry,
    Zero,
    InterruptDisable,
    Decimal,
    Overflow,
    Negative,
}

/// What an instruction does, apart from where its operand comes from.
#[derive(Clone, Copy, Debug, PartialEq, Eq, Structural)]
pub enum Operation {
    /// LDA, LDX, LDY.
    Load(Register),
    /// STA, STX, STY.
    Store(Register),
    Ora,
    And,
    Eor,
    Adc,
    Sbc,
    Bit,
    /// CMP, CPX, CPY.
    Compare(Register),
    Asl,
    Lsr,
    Rol,
    Ror,
    Inc,
    Dec,
    /// INX, INY.
    IncRegister(Register),
    /// DEX, DEY.
    DecRegister(Register),
    /// TAX, TAY, TXA, TYA, TSX, TXS: source, then destination.
    Transfer(Register, Register),
    /// The eight conditional branches: taken when the flag has the
    /// given state.
    Branch(Flag, bool),
    /// CLC, SEC, CLD, SED, CLI, SEI, CLV.
    SetFlag(Flag, bool),
    Jmp,
    Jsr,
    Rts,
    Rti,
    Brk,
    Nop,
    Pha,
    Php,
    Pla,
    Plp,
}

/// A decoded opcode.
#[derive(Clone, Copy, Debug, PartialEq, Eq, Structural)]
pub struct Instruction {
    pub operation: Operation,
    pub operand: Operand,
}

/// Number of bytes that follow the opcode as its operand.
pub open spec fn spec_operand_size(operand: Operand) -> int {
    match operand {
        Operand::Implied | Operand::Accumulator => 0,
        Operand::Immediate | Operand::Relative => 1,
        Operand::Memory(mode) => match mode {
            AdressingType::Absolute
            | AdressingType::AbsoluteX
            | AdressingType::AbsoluteY
            | AdressingType::Indirect => 2,
            _ => 1,
        },
    }
}

/// Number of bytes over which the program counter moves while the
/// instruction is fetched. The software interrupt skips one byte behind
/// its opcode.
pub open spec fn spec_length(instruction: Instruction) -> int {
    if instruction.operation == Operation::Brk {
        2
    } else {
        1 + spec_operand_size(instruction.operand)
    }
}

/// A row of the instruction table.
pub open spec fn spec_entry(operation: Operation, operand: Operand) -> Option<Instruction> {
    Some(Instruction { operation, operand })
}

/// A row of the instruction table.
#[verifier::when_used_as_spec(spec_entry)]
pub fn entry(operation: Operation, operand: Operand) -> (row: Option<Instruction>)
    ensures
        row == spec_entry(operation, operand),
{
    Some(Instruction { operation, operand })
}

/// The instruction table of the 6502: its 151 documented opcodes. Every
/// other byte decodes to nothing.
pub open spec fn spec_decode(opcode: u8) -> Option<Instruction> {
    match opcode {
        0x00 => entry(Operation::Brk, Operand::Implied),
        0x01 => entry(Operation::Ora, Operand::Memory(AdressingType::IndirectX)),
        0x05 => entry(Operation::Ora, Operand::Memory(AdressingType::ZeroPage)),
        0x06 => entry(Operation::Asl, Operand::Memory(AdressingType::ZeroPage)),
        0x08 => entry(Operation::Php, Operand::Implied),
        0x09 => entry(Operation::Ora, Operand::Immediate),
        0x0a => entry(Operation::Asl, Operand::Accumulator),
        0x0d => entry(Operation::Ora, Operand::Memory(AdressingType::Absolute)),
        0x0e => entry(Operation::Asl, Operand::Memory(AdressingType::Absolute)),
        0x10 => entry(Operation::Branch(Flag::Negative, false), Operand::Relative),
        0x11 => entry(Operation::Ora, Operand::Memory(AdressingType::IndirectY)),
        0x15 => entry(Operation::Ora, Operand::Memory(AdressingType::ZeroPageX)),
        0x16 => entry(Operation::Asl, Operand::Memory(AdressingType::ZeroPageX)),
        0x18 => entry(Operation::SetFlag(Flag::Carry, false), Operand::Implied),
        0x19 => entry(Operation::Ora, Operand::Memory(AdressingType::AbsoluteY)),
        0x1d => entry(Operation::Ora, Operand::Memory(AdressingType::AbsoluteX)),
        0x1e => entry(Operation::Asl, Operand::Memory(AdressingType::AbsoluteX)),
        0x20 => entry(Operation::Jsr, Operand::Memory(AdressingType::Absolute)),
        0x21 => entry(Operation::And, Operand::Memory(AdressingType::IndirectX)),
        0x24 => entry(Operation::Bit, Operand::Memory(AdressingType::ZeroPage)),
        0x25 => entry(Operation::And, Operand::Memory(AdressingType::ZeroPage)),
        0x26 => entry(Operation::Rol, Operand::Memory(AdressingType::ZeroPage)),
        0x28 => entry(Operation::Plp, Operand::Implied),
        0x29 => entry(Operation::And, Operand::Immediate),
        0x2a => entry(Operation::Rol, Operand::Accumulator),
        0x2c => entry(Operation::Bit, Operand::Memory(AdressingType::Absolute)),
        0x2d => entry(Operation::And, Operand::Memory(AdressingType::Absolute)),
        0x2e => entry(Operation::Rol, Operand::Memory(AdressingType::Absolute)),
        0x30 => entry(Operation::Branch(Flag::Negative, true), Operand::Relative),
        0x31 => entry(Operation::And, Operand::Memory(AdressingType::IndirectY)),
        0x35 => entry(Operation::And, Operand::Memory(AdressingType::ZeroPageX)),
        0x36 => entry(Operation::Rol, Operand::Memory(AdressingType::ZeroPageX)),
        0x38 => entry(Operation::SetFlag(Flag::Carry, true), Operand::Implied),
        0x39 => entry(Operation::And, Operand::Memory(AdressingType::AbsoluteY)),
        0x3d => entry(Operation::And, Operand::Memory(AdressingType::AbsoluteX)),
        0x3e => entry(Operation::Rol, Operand::Memory(AdressingType::AbsoluteX)),
        0x40 => entry(Operation::Rti, Operand::Implied),
        0x41 => entry(Operation::Eor, Operand::Memory(AdressingType::IndirectX)),
        0x45 => entry(Operation::Eor, Operand::Memory(AdressingType::ZeroPage)),
        0x46 => entry(Operation::Lsr, Operand::Memory(AdressingType::ZeroPage)),
        0x48 => entry(Operation::Pha, Operand::Implied),
        0x49 => entry(Operation::Eor, Operand::Immediate),
        0x4a => entry(Operation::Lsr, Operand::Accumulator),
        0x4c => entry(Operation::Jmp, Operand::Memory(AdressingType::Absolute)),
        0x4d => entry(Operation::Eor, Operand::Memory(AdressingType::Absolute)),
        0x4e => entry(Operation::Lsr, Operand::Memory(AdressingType::Absolute)),
        0x50 => entry(Operation::Branch(Flag::Overflow, false), Operand::Relative),
        0x51 => entry(Operation::Eor, Operand::Memory(AdressingType::IndirectY)),
        0x55 => entry(Operation::Eor, Operand::Memory(AdressingType::ZeroPageX)),
        0x56 => entry(Operation::Lsr, Operand::Memory(AdressingType::ZeroPageX)),
        0x58 => entry(Operation::SetFlag(Flag::InterruptDisable, false), Operand::Implied),
        0x59 => entry(Operation::Eor, Operand::Memory(AdressingType::AbsoluteY)),
        0x5d => entry(Operation::Eor, Operand::Memory(AdressingType::AbsoluteX)),
        0x5e => entry(Operation::Lsr, Operand::Memory(AdressingType::AbsoluteX)),
        0x60 => entry(Operation::Rts, Operand::Implied),
        0x61 => entry(Operation::Adc, Operand::Memory(AdressingType::IndirectX)),
        0x65 => entry(Operation::Adc, Operand::Memory(AdressingType::ZeroPage)),
        0x66 => entry(Operation::Ror, Operand::Memory(AdressingType::ZeroPage)),
        0x68 => entry(Operation::Pla, Operand::Implied),
        0x69 => entry(Operation::Adc, Operand::Immediate),
        0x6a => entry(Operation::Ror, Operand::Accumulator),
        0x6c => entry(Operation::Jmp, Operand::Memory(AdressingType::Indirect)),
        0x6d => entry(Operation::Adc, Operand::Memory(AdressingType::Absolute)),
        0x6e => entry(Operation::Ror, Operand::Memory(AdressingType::Absolute)),
        0x70 => entry(Operation::Branch(Flag::Overflow, true), Operand::Relative),
        0x71 => entry(Operation::Adc, Operand::Memory(AdressingType::IndirectY)),
        0x75 => entry(Operation::Adc, Operand::Memory(AdressingType::ZeroPageX)),
        0x76 => entry(Operation::Ror, Operand::Memory(AdressingType::ZeroPageX)),
        0x78 => entry(Operation::SetFlag(Flag::InterruptDisable, true), Operand::Implied),
        0x79 => entry(Operation::Adc, Operand::Memory(AdressingType::AbsoluteY)),
        0x7d => entry(Operation::Adc, Operand::Memory(AdressingType::AbsoluteX)),
        0x7e => entry(Operation::Ror, Operand::Memory(AdressingType::AbsoluteX)),
        0x81 => entry(Operation::Store(Register::A), Operand::Memory(AdressingType::IndirectX)),
        0x84 => entry(Operation::Store(Register::Y), Operand::Memory(AdressingType::ZeroPage)),
        0x85 => entry(Operation::Store(Register::A), Operand::Memory(AdressingType::ZeroPage)),
        0x86 => entry(Operation::Store(Register::X), Operand::Memory(AdressingType::ZeroPage)),
        0x88 => entry(Operation::DecRegister(Register::Y), Operand::Implied),
        0x8a => entry(Operation::Transfer(Register::X, Register::A), Operand::Implied),
        0x8c => entry(Operation::Store(Register::Y), Operand::Memory(AdressingType::Absolute)),
        0x8d => entry(Operation::Store(Register::A), Operand::Memory(AdressingType::Absolute)),
        0x8e => entry(Operation::Store(Register::X), Operand::Memory(AdressingType::Absolute)),
        0x90 => entry(Operation::Branch(Flag::Carry, false), Operand::Relative),
        0x91 => entry(Operation::Store(Register::A), Operand::Memory(AdressingType::IndirectY)),
        0x94 => entry(Operation::Store(Register::Y), Operand::Memory(AdressingType::ZeroPageX)),
        0x95 => entry(Operation::Store(Register::A), Operand::Memory(AdressingType::ZeroPageX)),
        0x96 => entry(Operation::Store(Register::X), Operand::Memory(AdressingType::ZeroPageY)),
        0x98 => entry(Operation::Transfer(Register::Y, Register::A), Operand::Implied),
        0x99 => entry(Operation::Store(Register::A), Operand::Memory(AdressingType::AbsoluteY)),
        0x9a => entry(Operation::Transfer(Register::X, Register::S), Operand::Implied),
        0x9d => entry(Operation::Store(Register::A), Operand::Memory(AdressingType::AbsoluteX)),
        0xa0 => entry(Operation::Load(Register::Y), Operand::Immediate),
        0xa1 => entry(Operation::Load(Register::A), Operand::Memory(AdressingType::IndirectX)),
        0xa2 => entry(Operation::Load(Register::X), Operand::Immediate),
        0xa4 => entry(Operation::Load(Register::Y), Operand::Memory(AdressingType::ZeroPage)),
        0xa5 => entry(Operation::Load(Register::A), Operand::Memory(AdressingType::ZeroPage)),
        0xa6 => entry(Operation::Load(Register::X), Operand::Memory(AdressingType::ZeroPage)),
        0xa8 => entry(Operation::Transfer(Register::A, Register::Y), Operand::Implied),
        0xa9 => entry(Operation::Load(Register::A), Operand::Immediate),
        0xaa => entry(Operation::Transfer(Register::A, Register::X), Operand::Implied),
        0xac => entry(Operation::Load(Register::Y), Operand::Memory(AdressingType::Absolute)),
        0xad => entry(Operation::Load(Register::A), Operand::Memory(AdressingType::Absolute)),
        0xae => entry(Operation::Load(Register::X), Operand::Memory(AdressingType::Absolute)),
        0xb0 => entry(Operation::Branch(Flag::Carry, true), Operand::Relative),
        0xb1 => entry(Operation::Load(Register::A), Operand::Memory(AdressingType::IndirectY)),
        0xb4 => entry(Operation::Load(Register::Y), Operand::Memory(AdressingType::ZeroPageX)),
        0xb5 => entry(Operation::Load(Register::A), Operand::Memory(AdressingType::ZeroPageX)),
        0xb6 => entry(Operation::Load(Register::X), Operand::Memory(AdressingType::ZeroPageY)),
        0xb8 => entry(Operation::SetFlag(Flag::Overflow, false), Operand::Implied),
        0xb9 => entry(Operation::Load(Register::A), Operand::Memory(AdressingType::AbsoluteY)),
        0xba => entry(Operation::Transfer(Register::S, Register::X), Operand::Implied),
        0xbc => entry(Operation::Load(Register::Y), Operand::Memory(AdressingType::AbsoluteX)),
        0xbd => entry(Operation::Load(Register::A), Operand::Memory(AdressingType::AbsoluteX)),
        0xbe => entry(Operation::Load(Register::X), Operand::Memory(AdressingType::AbsoluteY)),
        0xc0 => entry(Operation::Compare(Register::Y), Operand::Immediate),
        0xc1 => entry(Operation::Compare(Register::A), Operand::Memory(AdressingType::IndirectX)),
        0xc4 => entry(Operation::Compare(Register::Y), Operand::Memory(AdressingType::ZeroPage)),
        0xc5 => entry(Operation::Compare(Register::A), Operand::Memory(AdressingType::ZeroPage)),
        0xc6 => entry(Operation::Dec, Operand::Memory(AdressingType::ZeroPage)),
        0xc8 => entry(Operation::IncRegister(Register::Y), Operand::Implied),
        0xc9 => entry(Operation::Compare(Register::A), Operand::Immediate),
        0xca => entry(Operation::DecRegister(Register::X), Operand::Implied),
        0xcc => entry(Operation::Compare(Register::Y), Operand::Memory(AdressingType::Absolute)),
        0xcd => entry(Operation::Compare(Register::A), Operand::Memory(AdressingType::Absolute)),
        0xce => entry(Operation::Dec, Operand::Memory(AdressingType::Absolute)),
        0xd0 => entry(Operation::Branch(Flag::Zero, false), Operand::Relative),
        0xd1 => entry(Operation::Compare(Register::A), Operand::Memory(AdressingType::IndirectY)),
        0xd5 => entry(Operation::Compare(Register::A), Operand::Memory(AdressingType::ZeroPageX)),
        0xd6 => entry(Operation::Dec, Operand::Memory(AdressingType::ZeroPageX)),
        0xd8 => entry(Operation::SetFlag(Flag::Decimal, false), Operand::Implied),
        0xd9 => entry(Operation::Compare(Register::A), Operand::Memory(AdressingType::AbsoluteY)),
        0xdd => entry(Operation::Compare(Register::A), Operand::Memory(AdressingType::AbsoluteX)),
        0xde => entry(Operation::Dec, Operand::Memory(AdressingType::AbsoluteX)),
        0xe0 => entry(Operation::Compare(Register::X), Operand::Immediate),
        0xe1 => entry(Operation::Sbc, Operand::Memory(AdressingType::IndirectX)),
        0xe4 => entry(Operation::Compare(Register::X), Operand::Memory(AdressingType::ZeroPage)),
        0xe5 => entry(Operation::Sbc, Operand::Memory(AdressingType::ZeroPage)),
        0xe6 => entry(Operation::Inc, Operand::Memory(AdressingType::ZeroPage)),
        0xe8 => entry(Operation::IncRegister(Register::X), Operand::Implied),
        0xe9 => entry(Operation::Sbc, Operand::Immediate),
        0xea => entry(Operation::Nop, Operand::Implied),
        0xec => entry(Operation::Compare(Register::X), Operand::Memory(AdressingType::Absolute)),
        0xed => entry(Operation::Sbc, Operand::Memory(AdressingType::Absolute)),
        0xee => entry(Operation::Inc, Operand::Memory(AdressingType::Absolute)),
        0xf0 => entry(Operation::Branch(Flag::Zero, true), Operand::Relative),
        0xf1 => entry(Operation::Sbc, Operand::Memory(AdressingType::IndirectY)),
        0xf5 => entry(Operation::Sbc, Operand::Memory(AdressingType::ZeroPageX)),
        0xf6 => entry(Operation::Inc, Operand::Memory(AdressingType::ZeroPageX)),
        0xf8 => entry(Operation::SetFlag(Flag::Decimal, true), Operand::Implied),
        0xf9 => entry(Operation::Sbc, Operand::Memory(AdressingType::AbsoluteY)),
        0xfd => entry(Operation::Sbc, Operand::Memory(AdressingType::AbsoluteX)),
        0xfe => entry(Operation::Inc, Operand::Memory(AdressingType::AbsoluteX)),
        _ => None,
    }
}

/// Decodes an opcode byte.
pub fn decode(opcode: u8) -> (decoded: Option<Instruction>)
    ensures
        decoded == spec_decode(opcode),
{
    match opcode {
        0x00 => entry(Operation::Brk, Operand::Implied),
        0x01 => entry(Operation::Ora, Operand::Memory(AdressingType::IndirectX)),
        0x05 => entry(Operation::Ora, Operand::Memory(AdressingType::ZeroPage)),
        0x06 => entry(Operation::Asl, Operand::Memory(AdressingType::ZeroPage)),
        0x08 => entry(Operation::Php, Operand::Implied),
        0x09 => entry(Operation::Ora, Operand::Immediate),
        0x0a => entry(Operation::Asl, Operand::Accumulator),
        0x0d => entry(Operation::Ora, Operand::Memory(AdressingType::Absolute)),
        0x0e => entry(Operation::Asl, Operand::Memory(AdressingType::Absolute)),
        0x10 => entry(Operation::Branch(Flag::Negative, false), Operand::Relative),
        0x11 => entry(Operation::Ora, Operand::Memory(AdressingType::IndirectY)),
        0x15 => entry(Operation::Ora, Operand::Memory(AdressingType::ZeroPageX)),
        0x16 => entry(Operation::Asl, Operand::Memory(AdressingType::ZeroPageX)),
        0x18 => entry(Operation::SetFlag(Flag::Carry, false), Operand::Implied),
        0x19 => entry(Operation::Ora, Operand::Memory(AdressingType::AbsoluteY)),
        0x1d => entry(Operation::Ora, Operand::Memory(AdressingType::AbsoluteX)),
        0x1e => entry(Operation::Asl, Operand::Memory(AdressingType::AbsoluteX)),
        0x20 => entry(Operation::Jsr, Operand::Memory(AdressingType::Absolute)),
        0x21 => entry(Operation::And, Operand::Memory(AdressingType::IndirectX)),
        0x24 => entry(Operation::Bit, Operand::Memory(AdressingType::ZeroPage)),
        0x25 => entry(Operation::And, Operand::Memory(AdressingType::ZeroPage)),
        0x26 => entry(Operation::Rol, Operand::Memory(AdressingType::ZeroPage)),
        0x28 => entry(Operation::Plp, Operand::Implied),
        0x29 => entry(Operation::And, Operand::Immediate),
        0x2a => entry(Operation::Rol, Operand::Accumulator),
        0x2c => entry(Operation::Bit, Operand::Memory(AdressingType::Absolute)),
        0x2d => entry(Operation::And, Operand::Memory(AdressingType::Absolute)),
        0x2e => entry(Operation::Rol, Operand::Memory(AdressingType::Absolute)),
        0x30 => entry(Operation::Branch(Flag::Negative, true), Operand::Relative),
        0x31 => entry(Operation::And, Operand::Memory(AdressingType::IndirectY)),
        0x35 => entry(Operation::And, Operand::Memory(AdressingType::ZeroPageX)),
        0x36 => entry(Operation::Rol, Operand::Memory(AdressingType::ZeroPageX)),
        0x38 => entry(Operation::SetFlag(Flag::Carry, true), Operand::Implied),
        0x39 => entry(Operation::And, Operand::Memory(AdressingType::AbsoluteY)),
        0x3d => entry(Operation::And, Operand::Memory(AdressingType::AbsoluteX)),
        0x3e => entry(Operation::Rol, Operand::Memory(AdressingType::AbsoluteX)),
        0x40 => entry(Operation::Rti, Operand::Implied),
        0x41 => entry(Operation::Eor, Operand::Memory(AdressingType::IndirectX)),
        0x45 => entry(Operation::Eor, Operand::Memory(AdressingType::ZeroPage)),
        0x46 => entry(Operation::Lsr, Operand::Memory(AdressingType::ZeroPage)),
        0x48 => entry(Operation::Pha, Operand::Implied),
        0x49 => entry(Operation::Eor, Operand::Immediate),
        0x4a => entry(Operation::Lsr, Operand::Accumulator),
        0x4c => entry(Operation::Jmp, Operand::Memory(AdressingType::Absolute)),
        0x4d => entry(Operation::Eor, Operand::Memory(AdressingType::Absolute)),
        0x4e => entry(Operation::Lsr, Operand::Memory(AdressingType::Absolute)),
        0x50 => entry(Operation::Branch(Flag::Overflow, false), Operand::Relative),
        0x51 => entry(Operation::Eor, Operand::Memory(AdressingType::IndirectY)),
        0x55 => entry(Operation::Eor, Operand::Memory(AdressingType::ZeroPageX)),
        0x56 => entry(Operation::Lsr, Operand::Memory(AdressingType::ZeroPageX)),
        0x58 => entry(Operation::SetFlag(Flag::InterruptDisable, false), Operand::Implied),
        0x59 => entry(Operation::Eor, Operand::Memory(AdressingType::AbsoluteY)),
        0x5d => entry(Operation::Eor, Operand::Memory(AdressingType::AbsoluteX)),
        0x5e => entry(Operation::Lsr, Operand::Memory(AdressingType::AbsoluteX)),
        0x60 => entry(Operation::Rts, Operand::Implied),
        0x61 => entry(Operation::Adc, Operand::Memory(AdressingType::IndirectX)),
        0x65 => entry(Operation::Adc, Operand::Memory(AdressingType::ZeroPage)),
        0x66 => entry(Operation::Ror, Operand::Memory(AdressingType::ZeroPage)),
        0x68 => entry(Operation::Pla, Operand::Implied),
        0x69 => entry(Operation::Adc, Operand::Immediate),
        0x6a => entry(Operation::Ror, Operand::Accumulator),
        0x6c => entry(Operation::Jmp, Operand::Memory(AdressingType::Indirect)),
        0x6d => entry(Operation::Adc, Operand::Memory(AdressingType::Absolute)),
        0x6e => entry(Operation::Ror, Operand::Memory(AdressingType::Absolute)),
        0x70 => entry(Operation::Branch(Flag::Overflow, true), Operand::Relative),
        0x71 => entry(Operation::Adc, Operand::Memory(AdressingType::IndirectY)),
        0x75 => entry(Operation::Adc, Operand::Memory(AdressingType::ZeroPageX)),
        0x76 => entry(Operation::Ror, Operand::Memory(AdressingType::ZeroPageX)),
        0x78 => entry(Operation::SetFlag(Flag::InterruptDisable, true), Operand::Implied),
        0x79 => entry(Operation::Adc, Operand::Memory(AdressingType::AbsoluteY)),
        0x7d => entry(Operation::Adc, Operand::Memory(AdressingType::AbsoluteX)),
        0x7e => entry(Operation::Ror, Operand::Memory(AdressingType::AbsoluteX)),
        0x81 => entry(Operation::Store(Register::A), Operand::Memory(AdressingType::IndirectX)),
        0x84 => entry(Operation::Store(Register::Y), Operand::Memory(AdressingType::ZeroPage)),
        0x85 => entry(Operation::Store(Register::A), Operand::Memory(AdressingType::ZeroPage)),
        0x86 => entry(Operation::Store(Register::X), Operand::Memory(AdressingType::ZeroPage)),
        0x88 => entry(Operation::DecRegister(Register::Y), Operand::Implied),
        0x8a => entry(Operation::Transfer(Register::X, Register::A), Operand::Implied),
        0x8c => entry(Operation::Store(Register::Y), Operand::Memory(AdressingType::Absolute)),
        0x8d => entry(Operation::Store(Register::A), Operand::Memory(AdressingType::Absolute)),
        0x8e => entry(Operation::Store(Register::X), Operand::Memory(AdressingType::Absolute)),
        0x90 => entry(Operation::Branch(Flag::Carry, false), Operand::Relative),
        0x91 => entry(Operation::Store(Register::A), Operand::Memory(AdressingType::IndirectY)),
        0x94 => entry(Operation::Store(Register::Y), Operand::Memory(AdressingType::ZeroPageX)),
        0x95 => entry(Operation::Store(Register::A), Operand::Memory(AdressingType::ZeroPageX)),
        0x96 => entry(Operation::Store(Register::X), Operand::Memory(AdressingType::ZeroPageY)),
        0x98 => entry(Operation::Transfer(Register::Y, Register::A), Operand::Implied),
        0x99 => entry(Operation::Store(Register::A), Operand::Memory(AdressingType::AbsoluteY)),
        0x9a => entry(Operation::Transfer(Register::X, Register::S), Operand::Implied),
        0x9d => entry(Operation::Store(Register::A), Operand::Memory(AdressingType::AbsoluteX)),
        0xa0 => entry(Operation::Load(Register::Y), Operand::Immediate),
        0xa1 => entry(Operation::Load(Register::A), Operand::Memory(AdressingType::IndirectX)),
        0xa2 => entry(Operation::Load(Register::X), Operand::Immediate),
        0xa4 => entry(Operation::Load(Register::Y), Operand::Memory(AdressingType::ZeroPage)),
        0xa5 => entry(Operation::Load(Register::A), Operand::Memory(AdressingType::ZeroPage)),
        0xa6 => entry(Operation::Load(Register::X), Operand::Memory(AdressingType::ZeroPage)),
        0xa8 => entry(Operation::Transfer(Register::A, Register::Y), Operand::Implied),
        0xa9 => entry(Operation::Load(Register::A), Operand::Immediate),
        0xaa => entry(Operation::Transfer(Register::A, Register::X), Operand::Implied),
        0xac => entry(Operation::Load(Register::Y), Operand::Memory(AdressingType::Absolute)),
        0xad => entry(Operation::Load(Register::A), Operand::Memory(AdressingType::Absolute)),
        0xae => entry(Operation::Load(Register::X), Operand::Memory(AdressingType::Absolute)),
        0xb0 => entry(Operation::Branch(Flag::Carry, true), Operand::Relative),
        0xb1 => entry(Operation::Load(Register::A), Operand::Memory(AdressingType::IndirectY)),
        0xb4 => entry(Operation::Load(Register::Y), Operand::Memory(AdressingType::ZeroPageX)),
        0xb5 => entry(Operation::Load(Register::A), Operand::Memory(AdressingType::ZeroPageX)),
        0xb6 => entry(Operation::Load(Register::X), Operand::Memory(AdressingType::ZeroPageY)),
        0xb8 => entry(Operation::SetFlag(Flag::Overflow, false), Operand::Implied),
        0xb9 => entry(Operation::Load(Register::A), Operand::Memory(AdressingType::AbsoluteY)),
        0xba => entry(Operation::Transfer(Register::S, Register::X), Operand::Implied),
        0xbc => entry(Operation::Load(Register::Y), Operand::Memory(AdressingType::AbsoluteX)),
        0xbd => entry(Operation::Load(Register::A), Operand::Memory(AdressingType::AbsoluteX)),
        0xbe => entry(Operation::Load(Register::X), Operand::Memory(AdressingType::AbsoluteY)),
        0xc0 => entry(Operation::Compare(Register::Y), Operand::Immediate),
        0xc1 => entry(Operation::Compare(Register::A), Operand::Memory(AdressingType::IndirectX)),
        0xc4 => entry(Operation::Compare(Register::Y), Operand::Memory(AdressingType::ZeroPage)),
        0xc5 => entry(Operation::Compare(Register::A), Operand::Memory(AdressingType::ZeroPage)),
        0xc6 => entry(Operation::Dec, Operand::Memory(AdressingType::ZeroPage)),
        0xc8 => entry(Operation::IncRegister(Register::Y), Operand::Implied),
        0xc9 => entry(Operation::Compare(Register::A), Operand::Immediate),
        0xca => entry(Operation::DecRegister(Register::X), Operand::Implied),
        0xcc => entry(Operation::Compare(Register::Y), Operand::Memory(AdressingType::Absolute)),
        0xcd => entry(Operation::Compare(Register::A), Operand::Memory(AdressingType::Absolute)),
        0xce => entry(Operation::Dec, Operand::Memory(AdressingType::Absolute)),
        0xd0 => entry(Operation::Branch(Flag::Zero, false), Operand::Relative),
        0xd1 => entry(Operation::Compare(Register::A), Operand::Memory(AdressingType::IndirectY)),
        0xd5 => entry(Operation::Compare(Register::A), Operand::Memory(AdressingType::ZeroPageX)),
        0xd6 => entry(Operation::Dec, Operand::Memory(AdressingType::ZeroPageX)),
        0xd8 => entry(Operation::SetFlag(Flag::Decimal, false), Operand::Implied),
        0xd9 => entry(Operation::Compare(Register::A), Operand::Memory(AdressingType::AbsoluteY)),
        0xdd => entry(Operation::Compare(Register::A), Operand::Memory(AdressingType::AbsoluteX)),
        0xde => entry(Operation::Dec, Operand::Memory(AdressingType::AbsoluteX)),
        0xe0 => entry(Operation::Compare(Register::X), Operand::Immediate),
        0xe1 => entry(Operation::Sbc, Operand::Memory(AdressingType::IndirectX)),
        0xe4 => entry(Operation::Compare(Register::X), Operand::Memory(AdressingType::ZeroPage)),
        0xe5 => entry(Operation::Sbc, Operand::Memory(AdressingType::ZeroPage)),
        0xe6 => entry(Operation::Inc, Operand::Memory(AdressingType::ZeroPage)),
        0xe8 => entry(Operation::IncRegister(Register::X), Operand::Implied),
        0xe9 => entry(Operation::Sbc, Operand::Immediate),
        0xea => entry(Operation::Nop, Operand::Implied),
        0xec => entry(Operation::Compare(Register::X), Operand::Memory(AdressingType::Absolute)),
        0xed => entry(Operation::Sbc, Operand::Memory(AdressingType::Absolute)),
        0xee => entry(Operation::Inc, Operand::Memory(AdressingType::Absolute)),
        0xf0 => entry(Operation::Branch(Flag::Zero, true), Operand::Relative),
        0xf1 => entry(Operation::Sbc, Operand::Memory(AdressingType::IndirectY)),
        0xf5 => entry(Operation::Sbc, Operand::Memory(AdressingType::ZeroPageX)),
        0xf6 => entry(Operation::Inc, Operand::Memory(AdressingType::ZeroPageX)),
        0xf8 => entry(Operation::SetFlag(Flag::Decimal, true), Operand::Implied),
        0xf9 => entry(Operation::Sbc, Operand::Memory(AdressingType::AbsoluteY)),
        0xfd => entry(Operation::Sbc, Operand::Memory(AdressingType::AbsoluteX)),
        0xfe => entry(Operation::Inc, Operand::Memory(AdressingType::AbsoluteX)),
        _ => None,
    }
}

/// Number of bytes over which the program counter moves while
/// `instruction` is fetched: one to three.
pub fn length(instruction: Instruction) -> (bytes: u16)
    ensures
        bytes == spec_length(instruction),
        1 <= bytes <= 3,
{
    match instruction.operation {
        Operation::Brk => 2,
        _ => match instruction.operand {
            Operand::Implied | Operand::Accumulator => 1,
            Operand::Immediate | Operand::Relative => 2,
            Operand::Memory(mode) => match mode {
                AdressingType::Absolute
                | AdressingType::AbsoluteX
                | AdressingType::AbsoluteY
                | AdressingType::Indirect => 3,
                _ => 2,
            },
        },
    }
}

/// True when an operation can work with a kind of operand: value
/// operations take an immediate byte or a memory operand (the bit test
/// and the stores only a memory operand), modifying operations the
/// accumulator or a memory operand, branches a relative distance, jumps
/// and calls an address, and everything else nothing.
pub open spec fn operand_fits(instruction: Instruction) -> bool {
    match instruction.operation {
        Operation::Load(_)
        | Operation::Ora
        | Operation::And
        | Operation::Eor
        | Operation::Adc
        | Operation::Sbc
        | Operation::Compare(_) => instruction.operand == Operand::Immediate
            || instruction.operand is Memory,
        Operation::Bit | Operation::Store(_) | Operation::Inc | Operation::Dec
        | Operation::Jmp | Operation::Jsr => instruction.operand is Memory,
        Operation::Asl | Operation::Lsr | Operation::Rol | Operation::Ror => instruction.operand
            == Operand::Accumulator || instruction.operand is Memory,
        Operation::Branch(_, _) => instruction.operand == Operand::Relative,
        _ => instruction.operand == Operand::Implied,
    }
}

/// Every row of the instruction table pairs its operation with a kind
/// of operand that the operation can work with, and names only the
/// accumulator and the index registers where a register is loaded,
/// stored, compared or counted.
#[verifier::rlimit(50)]
pub proof fn lemma_table_is_well_formed(opcode: u8)
    ensures
        spec_decode(opcode) matches Some(instruction) ==> {
            &&& operand_fits(instruction)
            &&& 1 <= spec_length(instruction) <= 3
            &&& match instruction.operation {
                Operation::Load(register)
                | Operation::Store(register)
                | Operation::Compare(register) => register != Register::S,
                Operation::IncRegister(register) | Operation::DecRegister(register) => register
                    == Register::X || register == Register::Y,
                Operation::Transfer(from, to) => from != to,
                _ => true,
            }
        },
{
    if opcode < 0x10 {
    } else if opcode < 0x20 {
    } else if opcode < 0x30 {
    } else if opcode < 0x40 {
    } else if opcode < 0x50 {
    } else if opcode < 0x60 {
    } else if opcode < 0x70 {
    } else if opcode < 0x80 {
    } else if opcode < 0x90 {
    } else if opcode < 0xa0 {
    } else if opcode < 0xb0 {
    } else if opcode < 0xc0 {
    } else if opcode < 0xd0 {
    } else if opcode < 0xe0 {
    } else if opcode < 0xf0 {
    } else {
    }
}

} // verus!
