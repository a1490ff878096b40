use vstd::prelude::*;

use crate::error::{ExecutionError, InvalidOpCode};
use crate::hardware::cpu::{
    bus_read, byte_of, effective_address, flags_of, is_negative, operand, store_operand, with_flags,
    AddressingMode, CpuState, Flags, Registers, Sign, MMU,
};
use crate::hardware::memory::{
    le_u16, pop_state, push_state, read_16_of, Memory, MemoryMapper, Stack,
};
use crate::hardware::ppu::{Registers as PpuRegisters, PPU};

verus! {

/// The official operations of the processor.
#[derive(Debug, Copy, Clone, Eq, PartialEq, Structural)]
pub enum InstructionType {
    ADC,
    SBC,
    LDA,
    LDX,
    LDY,
    STA,
    STX,
    STY,
    INC,
    INX,
    INY,
    DEC,
    DEX,
    DEY,
    ASL,
    LSR,
    ROL,
    ROR,
    AND,
    ORA,
    EOR,
    CMP,
    CPX,
    CPY,
    BIT,
    BCC,
    BCS,
    BNE,
    BEQ,
    BPL,
    BMI,
    BVC,
    BVS,
    TAX,
    TXA,
    TAY,
    TYA,
    TSX,
    TXS,
    PHA,
    PLA,
    PHP,
    PLP,
    JMP,
    JSR,
    RTS,
    RTI,
    CLC,
    SEC,
    CLD,
    SED,
    CLI,
    SEI,
    CLV,
    BRK,
    NOP,
}

impl InstructionType {
    /// Whether the operation sets the program counter itself.
    pub open spec fn is_control_flow(self) -> bool {
        match self {
            InstructionType::JMP | InstructionType::JSR | InstructionType::RTS
            | InstructionType::RTI | InstructionType::BRK => true,
            _ => false,
        }
    }

    /// Whether the program counter moves past the instruction after it ran.
    pub fn increments_pc(&self) -> (r: bool)
        ensures
            r == !self.is_control_flow(),
    {
        match self {
            InstructionType::JMP | InstructionType::JSR | InstructionType::RTS
            | InstructionType::RTI | InstructionType::BRK => false,
            _ => true,
        }
    }
}

#[derive(Debug, Copy, Clone, Eq, PartialEq, Structural)]
pub struct Instruction {
    pub instruction_type: InstructionType,
    pub addressing_mode: AddressingMode,
}

/// The opcode byte of an operation in an addressing mode, over the official
/// instruction set; the operand does not matter.
pub open spec fn opcode(instruction_type: InstructionType, mode: AddressingMode) -> Option<u8> {
    match (instruction_type, mode) {
        (InstructionType::ADC, AddressingMode::Immediate(_)) => Some(0x69),
        (InstructionType::ADC, AddressingMode::ZeroPage(_)) => Some(0x65),
        (InstructionType::ADC, AddressingMode::ZeroPageX(_)) => Some(0x75),
        (InstructionType::ADC, AddressingMode::Absolute(_)) => Some(0x6D),
        (InstructionType::ADC, AddressingMode::AbsoluteX(_)) => Some(0x7D),
        (InstructionType::ADC, AddressingMode::AbsoluteY(_)) => Some(0x79),
        (InstructionType::ADC, AddressingMode::IndexedIndirect(_)) => Some(0x61),
        (InstructionType::ADC, AddressingMode::IndirectIndexed(_)) => Some(0x71),
        (InstructionType::SBC, AddressingMode::Immediate(_)) => Some(0xE9),
        (InstructionType::SBC, AddressingMode::ZeroPage(_)) => Some(0xE5),
        (InstructionType::SBC, AddressingMode::ZeroPageX(_)) => Some(0xF5),
        (InstructionType::SBC, AddressingMode::Absolute(_)) => Some(0xED),
        (InstructionType::SBC, AddressingMode::AbsoluteX(_)) => Some(0xFD),
        (InstructionType::SBC, AddressingMode::AbsoluteY(_)) => Some(0xF9),
        (InstructionType::SBC, AddressingMode::IndexedIndirect(_)) => Some(0xE1),
        (InstructionType::SBC, AddressingMode::IndirectIndexed(_)) => Some(0xF1),
        (InstructionType::LDA, AddressingMode::Immediate(_)) => Some(0xA9),
        (InstructionType::LDA, AddressingMode::ZeroPage(_)) => Some(0xA5),
        (InstructionType::LDA, AddressingMode::ZeroPageX(_)) => Some(0xB5),
        (InstructionType::LDA, AddressingMode::Absolute(_)) => Some(0xAD),
        (InstructionType::LDA, AddressingMode::AbsoluteX(_)) => Some(0xBD),
        (InstructionType::LDA, AddressingMode::AbsoluteY(_)) => Some(0xB9),
        (InstructionType::LDA, AddressingMode::IndexedIndirect(_)) => Some(0xA1),
        (InstructionType::LDA, AddressingMode::IndirectIndexed(_)) => Some(0xB1),
        (InstructionType::LDX, AddressingMode::Immediate(_)) => Some(0xA2),
        (InstructionType::LDX, AddressingMode::ZeroPage(_)) => Some(0xA6),
        (InstructionType::LDX, AddressingMode::ZeroPageY(_)) => Some(0xB6),
        (InstructionType::LDX, AddressingMode::Absolute(_)) => Some(0xAE),
        (InstructionType::LDX, AddressingMode::AbsoluteY(_)) => Some(0xBE),
        (InstructionType::LDY, AddressingMode::Immediate(_)) => Some(0xA0),
        (InstructionType::LDY, AddressingMode::ZeroPage(_)) => Some(0xA4),
        (InstructionType::LDY, AddressingMode::ZeroPageX(_)) => Some(0xB4),
        (InstructionType::LDY, AddressingMode::Absolute(_)) => Some(0xAC),
        (InstructionType::LDY, AddressingMode::AbsoluteX(_)) => Some(0xBC),
        (InstructionType::STA, AddressingMode::ZeroPage(_)) => Some(0x85),
        (InstructionType::STA, AddressingMode::ZeroPageX(_)) => Some(0x95),
        (InstructionType::STA, AddressingMode::Absolute(_)) => Some(0x8D),
        (InstructionType::STA, AddressingMode::AbsoluteX(_)) => Some(0x9D),
        (InstructionType::STA, AddressingMode::AbsoluteY(_)) => Some(0x99),
        (InstructionType::STA, AddressingMode::IndexedIndirect(_)) => Some(0x81),
        (InstructionType::STA, AddressingMode::IndirectIndexed(_)) => Some(0x91),
        (InstructionType::STX, AddressingMode::ZeroPage(_)) => Some(0x86),
        (InstructionType::STX, AddressingMode::ZeroPageY(_)) => Some(0x96),
        (InstructionType::STX, AddressingMode::Absolute(_)) => Some(0x8E),
        (InstructionType::STY, AddressingMode::ZeroPage(_)) => Some(0x84),
        (InstructionType::STY, AddressingMode::ZeroPageX(_)) => Some(0x94),
        (InstructionType::STY, AddressingMode::Absolute(_)) => Some(0x8C),
        (InstructionType::INC, AddressingMode::ZeroPage(_)) => Some(0xE6),
        (InstructionType::INC, AddressingMode::ZeroPageX(_)) => Some(0xF6),
        (InstructionType::INC, AddressingMode::Absolute(_)) => Some(0xEE),
        (InstructionType::INC, AddressingMode::AbsoluteX(_)) => Some(0xFE),
        (InstructionType::INX, AddressingMode::Implied) => Some(0xE8),
        (InstructionType::INY, AddressingMode::Implied) => Some(0xC8),
        (InstructionType::DEC, AddressingMode::ZeroPage(_)) => Some(0xC6),
        (InstructionType::DEC, AddressingMode::ZeroPageX(_)) => Some(0xD6),
        (InstructionType::DEC, AddressingMode::Absolute(_)) => Some(0xCE),
        (InstructionType::DEC, AddressingMode::AbsoluteX(_)) => Some(0xDE),
        (InstructionType::DEX, AddressingMode::Implied) => Some(0xCA),
        (InstructionType::DEY, AddressingMode::Implied) => Some(0x88),
        (InstructionType::ASL, AddressingMode::Accumulator) => Some(0x0A),
        (InstructionType::ASL, AddressingMode::ZeroPage(_)) => Some(0x06),
        (InstructionType::ASL, AddressingMode::ZeroPageX(_)) => Some(0x16),
        (InstructionType::ASL, AddressingMode::Absolute(_)) => Some(0x0E),
        (InstructionType::ASL, AddressingMode::AbsoluteX(_)) => Some(0x1E),
        (InstructionType::LSR, AddressingMode::Accumulator) => Some(0x4A),
        (InstructionType::LSR, AddressingMode::ZeroPage(_)) => Some(0x46),
        (InstructionType::LSR, AddressingMode::ZeroPageX(_)) => Some(0x56),
        (InstructionType::LSR, AddressingMode::Absolute(_)) => Some(0x4E),
        (InstructionType::LSR, AddressingMode::AbsoluteX(_)) => Some(0x5E),
        (InstructionType::ROL, AddressingMode::Accumulator) => Some(0x2A),
        (InstructionType::ROL, AddressingMode::ZeroPage(_)) => Some(0x26),
        (InstructionType::ROL, AddressingMode::ZeroPageX(_)) => Some(0x36),
        (InstructionType::ROL, AddressingMode::Absolute(_)) => Some(0x2E),
        (InstructionType::ROL, AddressingMode::AbsoluteX(_)) => Some(0x3E),
        (InstructionType::ROR, AddressingMode::Accumulator) => Some(0x6A),
        (InstructionType::ROR, AddressingMode::ZeroPage(_)) => Some(0x66),
        (InstructionType::ROR, AddressingMode::ZeroPageX(_)) => Some(0x76),
        (InstructionType::ROR, AddressingMode::Absolute(_)) => Some(0x6E),
        (InstructionType::ROR, AddressingMode::AbsoluteX(_)) => Some(0x7E),
        (InstructionType::AND, AddressingMode::Immediate(_)) => Some(0x29),
        (InstructionType::AND, AddressingMode::ZeroPage(_)) => Some(0x25),
        (InstructionType::AND, AddressingMode::ZeroPageX(_)) => Some(0x35),
        (InstructionType::AND, AddressingMode::Absolute(_)) => Some(0x2D),
        (InstructionType::AND, AddressingMode::AbsoluteX(_)) => Some(0x3D),
        (InstructionType::AND, AddressingMode::AbsoluteY(_)) => Some(0x39),
        (InstructionType::AND, AddressingMode::IndexedIndirect(_)) => Some(0x21),
        (InstructionType::AND, AddressingMode::IndirectIndexed(_)) => Some(0x31),
        (InstructionType::ORA, AddressingMode::Immediate(_)) => Some(0x09),
        (InstructionType::ORA, AddressingMode::ZeroPage(_)) => Some(0x05),
        (InstructionType::ORA, AddressingMode::ZeroPageX(_)) => Some(0x15),
        (InstructionType::ORA, AddressingMode::Absolute(_)) => Some(0x0D),
        (InstructionType::ORA, AddressingMode::AbsoluteX(_)) => Some(0x1D),
        (InstructionType::ORA, AddressingMode::AbsoluteY(_)) => Some(0x19),
        (InstructionType::ORA, AddressingMode::IndexedIndirect(_)) => Some(0x01),
        (InstructionType::ORA, AddressingMode::IndirectIndexed(_)) => Some(0x11),
        (InstructionType::EOR, AddressingMode::Immediate(_)) => Some(0x49),
        (InstructionType::EOR, AddressingMode::ZeroPage(_)) => Some(0x45),
        (InstructionType::EOR, AddressingMode::ZeroPageX(_)) => Some(0x55),
        (InstructionType::EOR, AddressingMode::Absolute(_)) => Some(0x4D),
        (InstructionType::EOR, AddressingMode::AbsoluteX(_)) => Some(0x5D),
        (InstructionType::EOR, AddressingMode::AbsoluteY(_)) => Some(0x59),
        (InstructionType::EOR, AddressingMode::IndexedIndirect(_)) => Some(0x41),
        (InstructionType::EOR, AddressingMode::IndirectIndexed(_)) => Some(0x51),
        (InstructionType::CMP, AddressingMode::Immediate(_)) => Some(0xC9),
        (InstructionType::CMP, AddressingMode::ZeroPage(_)) => Some(0xC5),
        (InstructionType::CMP, AddressingMode::ZeroPageX(_)) => Some(0xD5),
        (InstructionType::CMP, AddressingMode::Absolute(_)) => Some(0xCD),
        (InstructionType::CMP, AddressingMode::AbsoluteX(_)) => Some(0xDD),
        (InstructionType::CMP, AddressingMode::AbsoluteY(_)) => Some(0xD9),
        (InstructionType::CMP, AddressingMode::IndexedIndirect(_)) => Some(0xC1),
        (InstructionType::CMP, AddressingMode::IndirectIndexed(_)) => Some(0xD1),
        (InstructionType::CPX, AddressingMode::Immediate(_)) => Some(0xE0),
        (InstructionType::CPX, AddressingMode::ZeroPage(_)) => Some(0xE4),
        (InstructionType::CPX, AddressingMode::Absolute(_)) => Some(0xEC),
        (InstructionType::CPY, AddressingMode::Immediate(_)) => Some(0xC0),
        (InstructionType::CPY, AddressingMode::ZeroPage(_)) => Some(0xC4),
        (InstructionType::CPY, AddressingMode::Absolute(_)) => Some(0xCC),
        (InstructionType::BIT, AddressingMode::ZeroPage(_)) => Some(0x24),
        (InstructionType::BIT, AddressingMode::Absolute(_)) => Some(0x2C),
        (InstructionType::BCC, AddressingMode::Relative(_)) => Some(0x90),
        (InstructionType::BCS, AddressingMode::Relative(_)) => Some(0xB0),
        (InstructionType::BNE, AddressingMode::Relative(_)) => Some(0xD0),
        (InstructionType::BEQ, AddressingMode::Relative(_)) => Some(0xF0),
        (InstructionType::BPL, AddressingMode::Relative(_)) => Some(0x10),
        (InstructionType::BMI, AddressingMode::Relative(_)) => Some(0x30),
        (InstructionType::BVC, AddressingMode::Relative(_)) => Some(0x50),
        (InstructionType::BVS, AddressingMode::Relative(_)) => Some(0x70),
        (InstructionType::TAX, AddressingMode::Implied) => Some(0xAA),
        (InstructionType::TXA, AddressingMode::Implied) => Some(0x8A),
        (InstructionType::TAY, AddressingMode::Implied) => Some(0xA8),
        (InstructionType::TYA, AddressingMode::Implied) => Some(0x98),
        (InstructionType::TSX, AddressingMode::Implied) => Some(0xBA),
        (InstructionType::TXS, AddressingMode::Implied) => Some(0x9A),
        (InstructionType::PHA, AddressingMode::Implied) => Some(0x48),
        (InstructionType::PLA, AddressingMode::Implied) => Some(0x68),
        (InstructionType::PHP, AddressingMode::Implied) => Some(0x08),
        (InstructionType::PLP, AddressingMode::Implied) => Some(0x28),
        (InstructionType::JMP, AddressingMode::Absolute(_)) => Some(0x4C),
        (InstructionType::JMP, AddressingMode::Indirect(_)) => Some(0x6C),
        (InstructionType::JSR, AddressingMode::Absolute(_)) => Some(0x20),
        (InstructionType::RTS, AddressingMode::Implied) => Some(0x60),
        (InstructionType::RTI, AddressingMode::Implied) => Some(0x40),
        (InstructionType::CLC, AddressingMode::Implied) => Some(0x18),
        (InstructionType::SEC, AddressingMode::Implied) => Some(0x38),
        (InstructionType::CLD, AddressingMode::Implied) => Some(0xD8),
        (InstructionType::SED, AddressingMode::Implied) => Some(0xF8),
        (InstructionType::CLI, AddressingMode::Implied) => Some(0x58),
        (InstructionType::SEI, AddressingMode::Implied) => Some(0x78),
        (InstructionType::CLV, AddressingMode::Implied) => Some(0xB8),
        (InstructionType::BRK, AddressingMode::Implied) => Some(0x00),
        (InstructionType::NOP, AddressingMode::Implied) => Some(0xEA),
        _ => None,
    }
}

/// What an opcode byte stands for: the operation and the mode, with its
/// operand zeroed.
pub open spec fn opcode_entry(op_code: u8) -> Option<(InstructionType, AddressingMode)> {
    match op_code {
        0x00 => Some((InstructionType::BRK, AddressingMode::Implied)),
        0x01 => Some((InstructionType::ORA, AddressingMode::IndexedIndirect(0))),
        0x05 => Some((InstructionType::ORA, AddressingMode::ZeroPage(0))),
        0x06 => Some((InstructionType::ASL, AddressingMode::ZeroPage(0))),
        0x08 => Some((InstructionType::PHP, AddressingMode::Implied)),
        0x09 => Some((InstructionType::ORA, AddressingMode::Immediate(0))),
        0x0A => Some((InstructionType::ASL, AddressingMode::Accumulator)),
        0x0D => Some((InstructionType::ORA, AddressingMode::Absolute(0))),
        0x0E => Some((InstructionType::ASL, AddressingMode::Absolute(0))),
        0x10 => Some((InstructionType::BPL, AddressingMode::Relative(0))),
        0x11 => Some((InstructionType::ORA, AddressingMode::IndirectIndexed(0))),
        0x15 => Some((InstructionType::ORA, AddressingMode::ZeroPageX(0))),
        0x16 => Some((InstructionType::ASL, AddressingMode::ZeroPageX(0))),
        0x18 => Some((InstructionType::CLC, AddressingMode::Implied)),
        0x19 => Some((InstructionType::ORA, AddressingMode::AbsoluteY(0))),
        0x1D => Some((InstructionType::ORA, AddressingMode::AbsoluteX(0))),
        0x1E => Some((InstructionType::ASL, AddressingMode::AbsoluteX(0))),
        0x20 => Some((InstructionType::JSR, AddressingMode::Absolute(0))),
        0x21 => Some((InstructionType::AND, AddressingMode::IndexedIndirect(0))),
        0x24 => Some((InstructionType::BIT, AddressingMode::ZeroPage(0))),
        0x25 => Some((InstructionType::AND, AddressingMode::ZeroPage(0))),
        0x26 => Some((InstructionType::ROL, AddressingMode::ZeroPage(0))),
        0x28 => Some((InstructionType::PLP, AddressingMode::Implied)),
        0x29 => Some((InstructionType::AND, AddressingMode::Immediate(0))),
        0x2A => Some((InstructionType::ROL, AddressingMode::Accumulator)),
        0x2C => Some((InstructionType::BIT, AddressingMode::Absolute(0))),
        0x2D => Some((InstructionType::AND, AddressingMode::Absolute(0))),
        0x2E => Some((InstructionType::ROL, AddressingMode::Absolute(0))),
        0x30 => Some((InstructionType::BMI, AddressingMode::Relative(0))),
        0x31 => Some((InstructionType::AND, AddressingMode::IndirectIndexed(0))),
        0x35 => Some((InstructionType::AND, AddressingMode::ZeroPageX(0))),
        0x36 => Some((InstructionType::ROL, AddressingMode::ZeroPageX(0))),
        0x38 => Some((InstructionType::SEC, AddressingMode::Implied)),
        0x39 => Some((InstructionType::AND, AddressingMode::AbsoluteY(0))),
        0x3D => Some((InstructionType::AND, AddressingMode::AbsoluteX(0))),
        0x3E => Some((InstructionType::ROL, AddressingMode::AbsoluteX(0))),
        0x40 => Some((InstructionType::RTI, AddressingMode::Implied)),
        0x41 => Some((InstructionType::EOR, AddressingMode::IndexedIndirect(0))),
        0x45 => Some((InstructionType::EOR, AddressingMode::ZeroPage(0))),
        0x46 => Some((InstructionType::LSR, AddressingMode::ZeroPage(0))),
        0x48 => Some((InstructionType::PHA, AddressingMode::Implied)),
        0x49 => Some((InstructionType::EOR, AddressingMode::Immediate(0))),
        0x4A => Some((InstructionType::LSR, AddressingMode::Accumulator)),
        0x4C => Some((InstructionType::JMP, AddressingMode::Absolute(0))),
        0x4D => Some((InstructionType::EOR, AddressingMode::Absolute(0))),
        0x4E => Some((InstructionType::LSR, AddressingMode::Absolute(0))),
        0x50 => Some((InstructionType::BVC, AddressingMode::Relative(0))),
        0x51 => Some((InstructionType::EOR, AddressingMode::IndirectIndexed(0))),
        0x55 => Some((InstructionType::EOR, AddressingMode::ZeroPageX(0))),
        0x56 => Some((InstructionType::LSR, AddressingMode::ZeroPageX(0))),
        0x58 => Some((InstructionType::CLI, AddressingMode::Implied)),
        0x59 => Some((InstructionType::EOR, AddressingMode::AbsoluteY(0))),
        0x5D => Some((InstructionType::EOR, AddressingMode::AbsoluteX(0))),
        0x5E => Some((InstructionType::LSR, AddressingMode::AbsoluteX(0))),
        0x60 => Some((InstructionType::RTS, AddressingMode::Implied)),
        0x61 => Some((InstructionType::ADC, AddressingMode::IndexedIndirect(0))),
        0x65 => Some((InstructionType::ADC, AddressingMode::ZeroPage(0))),
        0x66 => Some((InstructionType::ROR, AddressingMode::ZeroPage(0))),
        0x68 => Some((InstructionType::PLA, AddressingMode::Implied)),
        0x69 => Some((InstructionType::ADC, AddressingMode::Immediate(0))),
        0x6A => Some((InstructionType::ROR, AddressingMode::Accumulator)),
        0x6C => Some((InstructionType::JMP, AddressingMode::Indirect(0))),
        0x6D => Some((InstructionType::ADC, AddressingMode::Absolute(0))),
        0x6E => Some((InstructionType::ROR, AddressingMode::Absolute(0))),
        0x70 => Some((InstructionType::BVS, AddressingMode::Relative(0))),
        0x71 => Some((InstructionType::ADC, AddressingMode::IndirectIndexed(0))),
        0x75 => Some((InstructionType::ADC, AddressingMode::ZeroPageX(0))),
        0x76 => Some((InstructionType::ROR, AddressingMode::ZeroPageX(0))),
        0x78 => Some((InstructionType::SEI, AddressingMode::Implied)),
        0x79 => Some((InstructionType::ADC, AddressingMode::AbsoluteY(0))),
        0x7D => Some((InstructionType::ADC, AddressingMode::AbsoluteX(0))),
        0x7E => Some((InstructionType::ROR, AddressingMode::AbsoluteX(0))),
        0x81 => Some((InstructionType::STA, AddressingMode::IndexedIndirect(0))),
        0x84 => Some((InstructionType::STY, AddressingMode::ZeroPage(0))),
        0x85 => Some((InstructionType::STA, AddressingMode::ZeroPage(0))),
        0x86 => Some((InstructionType::STX, AddressingMode::ZeroPage(0))),
        0x88 => Some((InstructionType::DEY, AddressingMode::Implied)),
        0x8A => Some((InstructionType::TXA, AddressingMode::Implied)),
        0x8C => Some((InstructionType::STY, AddressingMode::Absolute(0))),
        0x8D => Some((InstructionType::STA, AddressingMode::Absolute(0))),
        0x8E => Some((InstructionType::STX, AddressingMode::Absolute(0))),
        0x90 => Some((InstructionType::BCC, AddressingMode::Relative(0))),
        0x91 => Some((InstructionType::STA, AddressingMode::IndirectIndexed(0))),
        0x94 => Some((InstructionType::STY, AddressingMode::ZeroPageX(0))),
        0x95 => Some((InstructionType::STA, AddressingMode::ZeroPageX(0))),
        0x96 => Some((InstructionType::STX, AddressingMode::ZeroPageY(0))),
        0x98 => Some((InstructionType::TYA, AddressingMode::Implied)),
        0x99 => Some((InstructionType::STA, AddressingMode::AbsoluteY(0))),
        0x9A => Some((InstructionType::TXS, AddressingMode::Implied)),
        0x9D => Some((InstructionType::STA, AddressingMode::AbsoluteX(0))),
        0xA0 => Some((InstructionType::LDY, AddressingMode::Immediate(0))),
        0xA1 => Some((InstructionType::LDA, AddressingMode::IndexedIndirect(0))),
        0xA2 => Some((InstructionType::LDX, AddressingMode::Immediate(0))),
        0xA4 => Some((InstructionType::LDY, AddressingMode::ZeroPage(0))),
        0xA5 => Some((InstructionType::LDA, AddressingMode::ZeroPage(0))),
        0xA6 => Some((InstructionType::LDX, AddressingMode::ZeroPage(0))),
        0xA8 => Some((InstructionType::TAY, AddressingMode::Implied)),
        0xA9 => Some((InstructionType::LDA, AddressingMode::Immediate(0))),
        0xAA => Some((InstructionType::TAX, AddressingMode::Implied)),
        0xAC => Some((InstructionType::LDY, AddressingMode::Absolute(0))),
        0xAD => Some((InstructionType::LDA, AddressingMode::Absolute(0))),
        0xAE => Some((InstructionType::LDX, AddressingMode::Absolute(0))),
        0xB0 => Some((InstructionType::BCS, AddressingMode::Relative(0))),
        0xB1 => Some((InstructionType::LDA, AddressingMode::IndirectIndexed(0))),
        0xB4 => Some((InstructionType::LDY, AddressingMode::ZeroPageX(0))),
        0xB5 => Some((InstructionType::LDA, AddressingMode::ZeroPageX(0))),
        0xB6 => Some((InstructionType::LDX, AddressingMode::ZeroPageY(0))),
        0xB8 => Some((InstructionType::CLV, AddressingMode::Implied)),
        0xB9 => Some((InstructionType::LDA, AddressingMode::AbsoluteY(0))),
        0xBA => Some((InstructionType::TSX, AddressingMode::Implied)),
        0xBC => Some((InstructionType::LDY, AddressingMode::AbsoluteX(0))),
        0xBD => Some((InstructionType::LDA, AddressingMode::AbsoluteX(0))),
        0xBE => Some((InstructionType::LDX, AddressingMode::AbsoluteY(0))),
        0xC0 => Some((InstructionType::CPY, AddressingMode::Immediate(0))),
        0xC1 => Some((InstructionType::CMP, AddressingMode::IndexedIndirect(0))),
        0xC4 => Some((InstructionType::CPY, AddressingMode::ZeroPage(0))),
        0xC5 => Some((InstructionType::CMP, AddressingMode::ZeroPage(0))),
        0xC6 => Some((InstructionType::DEC, AddressingMode::ZeroPage(0))),
        0xC8 => Some((InstructionType::INY, AddressingMode::Implied)),
        0xC9 => Some((InstructionType::CMP, AddressingMode::Immediate(0))),
        0xCA => Some((InstructionType::DEX, AddressingMode::Implied)),
        0xCC => Some((InstructionType::CPY, AddressingMode::Absolute(0))),
        0xCD => Some((InstructionType::CMP, AddressingMode::Absolute(0))),
        0xCE => Some((InstructionType::DEC, AddressingMode::Absolute(0))),
        0xD0 => Some((InstructionType::BNE, AddressingMode::Relative(0))),
        0xD1 => Some((InstructionType::CMP, AddressingMode::IndirectIndexed(0))),
        0xD5 => Some((InstructionType::CMP, AddressingMode::ZeroPageX(0))),
        0xD6 => Some((InstructionType::DEC, AddressingMode::ZeroPageX(0))),
        0xD8 => Some((InstructionType::CLD, AddressingMode::Implied)),
        0xD9 => Some((InstructionType::CMP, AddressingMode::AbsoluteY(0))),
        0xDD => Some((InstructionType::CMP, AddressingMode::AbsoluteX(0))),
        0xDE => Some((InstructionType::DEC, AddressingMode::AbsoluteX(0))),
        0xE0 => Some((InstructionType::CPX, AddressingMode::Immediate(0))),
        0xE1 => Some((InstructionType::SBC, AddressingMode::IndexedIndirect(0))),
        0xE4 => Some((InstructionType::CPX, AddressingMode::ZeroPage(0))),
        0xE5 => Some((InstructionType::SBC, AddressingMode::ZeroPage(0))),
        0xE6 => Some((InstructionType::INC, AddressingMode::ZeroPage(0))),
        0xE8 => Some((InstructionType::INX, AddressingMode::Implied)),
        0xE9 => Some((InstructionType::SBC, AddressingMode::Immediate(0))),
        0xEA => Some((InstructionType::NOP, AddressingMode::Implied)),
        0xEC => Some((InstructionType::CPX, AddressingMode::Absolute(0))),
        0xED => Some((InstructionType::SBC, AddressingMode::Absolute(0))),
        0xEE => Some((InstructionType::INC, AddressingMode::Absolute(0))),
        0xF0 => Some((InstructionType::BEQ, AddressingMode::Relative(0))),
        0xF1 => Some((InstructionType::SBC, AddressingMode::IndirectIndexed(0))),
        0xF5 => Some((InstructionType::SBC, AddressingMode::ZeroPageX(0))),
        0xF6 => Some((InstructionType::INC, AddressingMode::ZeroPageX(0))),
        0xF8 => Some((InstructionType::SED, AddressingMode::Implied)),
        0xF9 => Some((InstructionType::SBC, AddressingMode::AbsoluteY(0))),
        0xFD => Some((InstructionType::SBC, AddressingMode::AbsoluteX(0))),
        0xFE => Some((InstructionType::INC, AddressingMode::AbsoluteX(0))),
        _ => None,
    }
}

/// A mode with its operand zeroed: what the opcode alone tells of it.
pub open spec fn shape(mode: AddressingMode) -> AddressingMode {
    match mode {
        AddressingMode::Implied => AddressingMode::Implied,
        AddressingMode::Accumulator => AddressingMode::Accumulator,
        AddressingMode::Immediate(_) => AddressingMode::Immediate(0),
        AddressingMode::ZeroPage(_) => AddressingMode::ZeroPage(0),
        AddressingMode::ZeroPageX(_) => AddressingMode::ZeroPageX(0),
        AddressingMode::ZeroPageY(_) => AddressingMode::ZeroPageY(0),
        AddressingMode::Relative(_) => AddressingMode::Relative(0),
        AddressingMode::Absolute(_) => AddressingMode::Absolute(0),
        AddressingMode::AbsoluteX(_) => AddressingMode::AbsoluteX(0),
        AddressingMode::AbsoluteY(_) => AddressingMode::AbsoluteY(0),
        AddressingMode::Indirect(_) => AddressingMode::Indirect(0),
        AddressingMode::IndexedIndirect(_) => AddressingMode::IndexedIndirect(0),
        AddressingMode::IndirectIndexed(_) => AddressingMode::IndirectIndexed(0),
    }
}

impl Instruction {
    /// The instruction's machine code: its opcode and then its operand
    /// bytes; `None` for a pairing that no opcode encodes.
    pub open spec fn machine_code(self) -> Option<Seq<u8>> {
        match opcode(self.instruction_type, self.addressing_mode) {
            Some(op_code) => Some(seq![op_code] + self.addressing_mode.operand_bytes()),
            None => None,
        }
    }
}

/// `memory` starts with the machine code of `instruction`.
pub open spec fn decodes_to(memory: Seq<u8>, instruction: Instruction) -> bool {
    match instruction.machine_code() {
        Some(code) => code.len() <= memory.len() && memory.subrange(0, code.len() as int) == code,
        None => false,
    }
}

/// Decoding: nothing from no bytes, the instruction whose machine code the
/// bytes start with, or the first byte as an invalid opcode when there is
/// none.
#[verifier::opaque]
pub open spec fn decode(memory: Seq<u8>) -> Result<Option<Instruction>, InvalidOpCode> {
    if memory.len() == 0 {
        Ok(None)
    } else if exists|i: Instruction| decodes_to(memory, i) {
        Ok(Some(choose|i: Instruction| decodes_to(memory, i)))
    } else {
        Err(InvalidOpCode(memory[0]))
    }
}

/// The opcode of an instruction depends on its mode's kind alone.
pub proof fn lemma_opcode_shape(instruction_type: InstructionType, mode: AddressingMode)
    ensures
        opcode(instruction_type, mode) == opcode(instruction_type, shape(mode)),
        shape(shape(mode)) == shape(mode),
        shape(mode).operand_bytes().len() == mode.operand_bytes().len(),
{
}

/// Every opcode names its operation and mode kind in the decoding table.
pub proof fn lemma_opcode_entry(instruction_type: InstructionType, mode: AddressingMode)
    ensures
        opcode(instruction_type, mode) matches Some(op_code) ==> opcode_entry(op_code) == Some(
            (instruction_type, shape(mode)),
        ),
{
}

/// Every entry of the decoding table encodes back to its byte.
pub proof fn lemma_entry_opcode(op_code: u8)
    ensures
        opcode_entry(op_code) matches Some((instruction_type, mode)) ==> opcode(
            instruction_type,
            mode,
        ) == Some(op_code) && shape(mode) == mode,
{
}

/// A mode is fixed by its kind and its operand bytes.
pub proof fn lemma_mode_determined(a: AddressingMode, b: AddressingMode)
    requires
        shape(a) == shape(b),
        a.operand_bytes() == b.operand_bytes(),
    ensures
        a == b,
{
    let (ba, bb) = (a.operand_bytes(), b.operand_bytes());
    if ba.len() >= 1 {
        assert(ba[0] == bb[0]);
    }
    if ba.len() == 2 {
        assert(ba[1] == bb[1]);
    }
    match a {
        AddressingMode::Relative(x) => {
            let y = b->Relative_0;
            assert(x as u8 == y as u8 ==> x == y) by (bit_vector);
        },
        AddressingMode::Absolute(x) => lemma_word_bytes(x, b->Absolute_0),
        AddressingMode::AbsoluteX(x) => lemma_word_bytes(x, b->AbsoluteX_0),
        AddressingMode::AbsoluteY(x) => lemma_word_bytes(x, b->AbsoluteY_0),
        AddressingMode::Indirect(x) => lemma_word_bytes(x, b->Indirect_0),
        _ => {},
    }
}

proof fn lemma_word_bytes(x: u16, y: u16)
    ensures
        (x % 256) as u8 == (y % 256) as u8 && (x / 256) as u8 == (y / 256) as u8 ==> x == y,
{
    assert((x % 256) as u8 == (y % 256) as u8 && (x / 256) as u8 == (y / 256) as u8 ==> x == y)
        by (bit_vector);
}

/// At most one instruction's machine code starts a run of bytes.
pub proof fn lemma_decoding_unique(memory: Seq<u8>, a: Instruction, b: Instruction)
    requires
        decodes_to(memory, a),
        decodes_to(memory, b),
    ensures
        a == b,
{
    let ca = a.machine_code().unwrap();
    let cb = b.machine_code().unwrap();
    assert(ca[0] == memory[0]);
    assert(cb[0] == memory[0]);
    lemma_opcode_entry(a.instruction_type, a.addressing_mode);
    lemma_opcode_entry(b.instruction_type, b.addressing_mode);
    lemma_opcode_shape(a.instruction_type, a.addressing_mode);
    lemma_opcode_shape(b.instruction_type, b.addressing_mode);
    assert(ca.len() == cb.len());
    assert(a.addressing_mode.operand_bytes() =~= ca.subrange(1, ca.len() as int));
    assert(b.addressing_mode.operand_bytes() =~= cb.subrange(1, cb.len() as int));
    lemma_mode_determined(a.addressing_mode, b.addressing_mode);
}

/// A decoded instruction took exactly the bytes of its machine code: its
/// opcode and as many operand bytes as its mode's length calls for.
pub proof fn lemma_decoded_length(memory: Seq<u8>)
    ensures
        decode(memory) matches Ok(Some(i)) ==> i.machine_code() == Some(
            memory.subrange(0, 1 + i.addressing_mode.operand_bytes().len() as int),
        ),
{
    reveal(decode);
}

/// Each official opcode, followed by zero operand bytes, decodes to an
/// instruction whose machine code starts with that opcode; any other byte
/// is reported as an invalid opcode.
pub proof fn lemma_opcode_decodes(op_code: u8)
    ensures
        (exists|t: InstructionType, m: AddressingMode| opcode(t, m) == Some(op_code)) ==> (decode(
            seq![op_code, 0, 0],
        ) matches Ok(Some(i)) && i.machine_code() matches Some(code) && code[0] == op_code),
        !(exists|t: InstructionType, m: AddressingMode| opcode(t, m) == Some(op_code)) ==> decode(
            seq![op_code, 0, 0],
        ) == Err::<Option<Instruction>, InvalidOpCode>(InvalidOpCode(op_code)),
{
    reveal(decode);
    let memory = seq![op_code, 0u8, 0u8];
    if exists|t: InstructionType, m: AddressingMode| opcode(t, m) == Some(op_code) {
        let (t, m) = choose|t: InstructionType, m: AddressingMode| opcode(t, m) == Some(op_code);
        lemma_opcode_shape(t, m);
        let kind = shape(m);
        let zeroed = Instruction { instruction_type: t, addressing_mode: kind };
        let code = zeroed.machine_code().unwrap();
        assert(memory.subrange(0, code.len() as int) =~= code);
        assert(decodes_to(memory, zeroed));
        let chosen = choose|i: Instruction| decodes_to(memory, i);
        lemma_decoding_unique(memory, chosen, zeroed);
    } else {
        assert forall|i: Instruction| !decodes_to(memory, i) by {
            if decodes_to(memory, i) {
                assert(i.machine_code().unwrap()[0] == memory[0]);
            }
        }
    }
}

/// No instruction's machine code starts `memory` when its first byte is no
/// opcode, or when its operand bytes are missing.
proof fn lemma_no_decoding(memory: Seq<u8>)
    requires
        memory.len() > 0,
        match opcode_entry(memory[0]) {
            Some((_, mode)) => memory.len() < 1 + mode.operand_bytes().len(),
            None => true,
        },
    ensures
        forall|i: Instruction| !decodes_to(memory, i),
{
    assert forall|i: Instruction| !decodes_to(memory, i) by {
        lemma_opcode_entry(i.instruction_type, i.addressing_mode);
        lemma_opcode_shape(i.instruction_type, i.addressing_mode);
        if decodes_to(memory, i) {
            assert(i.machine_code().unwrap()[0] == memory[0]);
        }
    }
}

/// The mode of kind `mode` with operand bytes `low` and `high`, as many of
/// them as the kind takes.
fn with_operands(mode: AddressingMode, low: u8, high: u8) -> (r: AddressingMode)
    ensures
        shape(r) == shape(mode),
        r.operand_bytes().len() >= 1 ==> r.operand_bytes()[0] == low,
        r.operand_bytes().len() == 2 ==> r.operand_bytes()[1] == high,
{
    let word = low as u16 + 256 * high as u16;
    assert((word % 256) as u8 == low && (word / 256) as u8 == high) by (bit_vector)
        requires
            word == low as u16 + 256 * high as u16,
    ;
    let r = match mode {
        AddressingMode::Implied => AddressingMode::Implied,
        AddressingMode::Accumulator => AddressingMode::Accumulator,
        AddressingMode::Immediate(_) => AddressingMode::Immediate(low),
        AddressingMode::ZeroPage(_) => AddressingMode::ZeroPage(low),
        AddressingMode::ZeroPageX(_) => AddressingMode::ZeroPageX(low),
        AddressingMode::ZeroPageY(_) => AddressingMode::ZeroPageY(low),
        AddressingMode::Relative(_) => AddressingMode::Relative(low as i8),
        AddressingMode::Absolute(_) => AddressingMode::Absolute(word),
        AddressingMode::AbsoluteX(_) => AddressingMode::AbsoluteX(word),
        AddressingMode::AbsoluteY(_) => AddressingMode::AbsoluteY(word),
        AddressingMode::Indirect(_) => AddressingMode::Indirect(word),
        AddressingMode::IndexedIndirect(_) => AddressingMode::IndexedIndirect(low),
        AddressingMode::IndirectIndexed(_) => AddressingMode::IndirectIndexed(low),
    };
    proof {
        if r is Relative {
            assert((low as i8) as u8 == low) by (bit_vector);
        }
    }
    r
}

impl Instruction {
    pub fn new(instruction_type: InstructionType, addressing_mode: AddressingMode) -> (r: Self)
        ensures
            r == (Instruction { instruction_type, addressing_mode }),
    {
        Self { instruction_type, addressing_mode }
    }

    /// The operation and operand-free mode that an opcode byte stands for.
    fn lookup(op_code: u8) -> (r: Option<(InstructionType, AddressingMode)>)
        ensures
            r == opcode_entry(op_code),
    {
        match op_code {
            0x00 => Some((InstructionType::BRK, AddressingMode::Implied)),
            0x01 => Some((InstructionType::ORA, AddressingMode::IndexedIndirect(0))),
            0x05 => Some((InstructionType::ORA, AddressingMode::ZeroPage(0))),
            0x06 => Some((InstructionType::ASL, AddressingMode::ZeroPage(0))),
            0x08 => Some((InstructionType::PHP, AddressingMode::Implied)),
            0x09 => Some((InstructionType::ORA, AddressingMode::Immediate(0))),
            0x0A => Some((InstructionType::ASL, AddressingMode::Accumulator)),
            0x0D => Some((InstructionType::ORA, AddressingMode::Absolute(0))),
            0x0E => Some((InstructionType::ASL, AddressingMode::Absolute(0))),
            0x10 => Some((InstructionType::BPL, AddressingMode::Relative(0))),
            0x11 => Some((InstructionType::ORA, AddressingMode::IndirectIndexed(0))),
            0x15 => Some((InstructionType::ORA, AddressingMode::ZeroPageX(0))),
            0x16 => Some((InstructionType::ASL, AddressingMode::ZeroPageX(0))),
            0x18 => Some((InstructionType::CLC, AddressingMode::Implied)),
            0x19 => Some((InstructionType::ORA, AddressingMode::AbsoluteY(0))),
            0x1D => Some((InstructionType::ORA, AddressingMode::AbsoluteX(0))),
            0x1E => Some((InstructionType::ASL, AddressingMode::AbsoluteX(0))),
            0x20 => Some((InstructionType::JSR, AddressingMode::Absolute(0))),
            0x21 => Some((InstructionType::AND, AddressingMode::IndexedIndirect(0))),
            0x24 => Some((InstructionType::BIT, AddressingMode::ZeroPage(0))),
            0x25 => Some((InstructionType::AND, AddressingMode::ZeroPage(0))),
            0x26 => Some((InstructionType::ROL, AddressingMode::ZeroPage(0))),
            0x28 => Some((InstructionType::PLP, AddressingMode::Implied)),
            0x29 => Some((InstructionType::AND, AddressingMode::Immediate(0))),
            0x2A => Some((InstructionType::ROL, AddressingMode::Accumulator)),
            0x2C => Some((InstructionType::BIT, AddressingMode::Absolute(0))),
            0x2D => Some((InstructionType::AND, AddressingMode::Absolute(0))),
            0x2E => Some((InstructionType::ROL, AddressingMode::Absolute(0))),
            0x30 => Some((InstructionType::BMI, AddressingMode::Relative(0))),
            0x31 => Some((InstructionType::AND, AddressingMode::IndirectIndexed(0))),
            0x35 => Some((InstructionType::AND, AddressingMode::ZeroPageX(0))),
            0x36 => Some((InstructionType::ROL, AddressingMode::ZeroPageX(0))),
            0x38 => Some((InstructionType::SEC, AddressingMode::Implied)),
            0x39 => Some((InstructionType::AND, AddressingMode::AbsoluteY(0))),
            0x3D => Some((InstructionType::AND, AddressingMode::AbsoluteX(0))),
            0x3E => Some((InstructionType::ROL, AddressingMode::AbsoluteX(0))),
            0x40 => Some((InstructionType::RTI, AddressingMode::Implied)),
            0x41 => Some((InstructionType::EOR, AddressingMode::IndexedIndirect(0))),
            0x45 => Some((InstructionType::EOR, AddressingMode::ZeroPage(0))),
            0x46 => Some((InstructionType::LSR, AddressingMode::ZeroPage(0))),
            0x48 => Some((InstructionType::PHA, AddressingMode::Implied)),
            0x49 => Some((InstructionType::EOR, AddressingMode::Immediate(0))),
            0x4A => Some((InstructionType::LSR, AddressingMode::Accumulator)),
            0x4C => Some((InstructionType::JMP, AddressingMode::Absolute(0))),
            0x4D => Some((InstructionType::EOR, AddressingMode::Absolute(0))),
            0x4E => Some((InstructionType::LSR, AddressingMode::Absolute(0))),
            0x50 => Some((InstructionType::BVC, AddressingMode::Relative(0))),
            0x51 => Some((InstructionType::EOR, AddressingMode::IndirectIndexed(0))),
            0x55 => Some((InstructionType::EOR, AddressingMode::ZeroPageX(0))),
            0x56 => Some((InstructionType::LSR, AddressingMode::ZeroPageX(0))),
            0x58 => Some((InstructionType::CLI, AddressingMode::Implied)),
            0x59 => Some((InstructionType::EOR, AddressingMode::AbsoluteY(0))),
            0x5D => Some((InstructionType::EOR, AddressingMode::AbsoluteX(0))),
            0x5E => Some((InstructionType::LSR, AddressingMode::AbsoluteX(0))),
            0x60 => Some((InstructionType::RTS, AddressingMode::Implied)),
            0x61 => Some((InstructionType::ADC, AddressingMode::IndexedIndirect(0))),
            0x65 => Some((InstructionType::ADC, AddressingMode::ZeroPage(0))),
            0x66 => Some((InstructionType::ROR, AddressingMode::ZeroPage(0))),
            0x68 => Some((InstructionType::PLA, AddressingMode::Implied)),
            0x69 => Some((InstructionType::ADC, AddressingMode::Immediate(0))),
            0x6A => Some((InstructionType::ROR, AddressingMode::Accumulator)),
            0x6C => Some((InstructionType::JMP, AddressingMode::Indirect(0))),
            0x6D => Some((InstructionType::ADC, AddressingMode::Absolute(0))),
            0x6E => Some((InstructionType::ROR, AddressingMode::Absolute(0))),
            0x70 => Some((InstructionType::BVS, AddressingMode::Relative(0))),
            0x71 => Some((InstructionType::ADC, AddressingMode::IndirectIndexed(0))),
            0x75 => Some((InstructionType::ADC, AddressingMode::ZeroPageX(0))),
            0x76 => Some((InstructionType::ROR, AddressingMode::ZeroPageX(0))),
            0x78 => Some((InstructionType::SEI, AddressingMode::Implied)),
            0x79 => Some((InstructionType::ADC, AddressingMode::AbsoluteY(0))),
            0x7D => Some((InstructionType::ADC, AddressingMode::AbsoluteX(0))),
            0x7E => Some((InstructionType::ROR, AddressingMode::AbsoluteX(0))),
            0x81 => Some((InstructionType::STA, AddressingMode::IndexedIndirect(0))),
            0x84 => Some((InstructionType::STY, AddressingMode::ZeroPage(0))),
            0x85 => Some((InstructionType::STA, AddressingMode::ZeroPage(0))),
            0x86 => Some((InstructionType::STX, AddressingMode::ZeroPage(0))),
            0x88 => Some((InstructionType::DEY, AddressingMode::Implied)),
            0x8A => Some((InstructionType::TXA, AddressingMode::Implied)),
            0x8C => Some((InstructionType::STY, AddressingMode::Absolute(0))),
            0x8D => Some((InstructionType::STA, AddressingMode::Absolute(0))),
            0x8E => Some((InstructionType::STX, AddressingMode::Absolute(0))),
            0x90 => Some((InstructionType::BCC, AddressingMode::Relative(0))),
            0x91 => Some((InstructionType::STA, AddressingMode::IndirectIndexed(0))),
            0x94 => Some((InstructionType::STY, AddressingMode::ZeroPageX(0))),
            0x95 => Some((InstructionType::STA, AddressingMode::ZeroPageX(0))),
            0x96 => Some((InstructionType::STX, AddressingMode::ZeroPageY(0))),
            0x98 => Some((InstructionType::TYA, AddressingMode::Implied)),
            0x99 => Some((InstructionType::STA, AddressingMode::AbsoluteY(0))),
            0x9A => Some((InstructionType::TXS, AddressingMode::Implied)),
            0x9D => Some((InstructionType::STA, AddressingMode::AbsoluteX(0))),
            0xA0 => Some((InstructionType::LDY, AddressingMode::Immediate(0))),
            0xA1 => Some((InstructionType::LDA, AddressingMode::IndexedIndirect(0))),
            0xA2 => Some((InstructionType::LDX, AddressingMode::Immediate(0))),
            0xA4 => Some((InstructionType::LDY, AddressingMode::ZeroPage(0))),
            0xA5 => Some((InstructionType::LDA, AddressingMode::ZeroPage(0))),
            0xA6 => Some((InstructionType::LDX, AddressingMode::ZeroPage(0))),
            0xA8 => Some((InstructionType::TAY, AddressingMode::Implied)),
            0xA9 => Some((InstructionType::LDA, AddressingMode::Immediate(0))),
            0xAA => Some((InstructionType::TAX, AddressingMode::Implied)),
            0xAC => Some((InstructionType::LDY, AddressingMode::Absolute(0))),
            0xAD => Some((InstructionType::LDA, AddressingMode::Absolute(0))),
            0xAE => Some((InstructionType::LDX, AddressingMode::Absolute(0))),
            0xB0 => Some((InstructionType::BCS, AddressingMode::Relative(0))),
            0xB1 => Some((InstructionType::LDA, AddressingMode::IndirectIndexed(0))),
            0xB4 => Some((InstructionType::LDY, AddressingMode::ZeroPageX(0))),
            0xB5 => Some((InstructionType::LDA, AddressingMode::ZeroPageX(0))),
            0xB6 => Some((InstructionType::LDX, AddressingMode::ZeroPageY(0))),
            0xB8 => Some((InstructionType::CLV, AddressingMode::Implied)),
            0xB9 => Some((InstructionType::LDA, AddressingMode::AbsoluteY(0))),
            0xBA => Some((InstructionType::TSX, AddressingMode::Implied)),
            0xBC => Some((InstructionType::LDY, AddressingMode::AbsoluteX(0))),
            0xBD => Some((InstructionType::LDA, AddressingMode::AbsoluteX(0))),
            0xBE => Some((InstructionType::LDX, AddressingMode::AbsoluteY(0))),
            0xC0 => Some((InstructionType::CPY, AddressingMode::Immediate(0))),
            0xC1 => Some((InstructionType::CMP, AddressingMode::IndexedIndirect(0))),
            0xC4 => Some((InstructionType::CPY, AddressingMode::ZeroPage(0))),
            0xC5 => Some((InstructionType::CMP, AddressingMode::ZeroPage(0))),
            0xC6 => Some((InstructionType::DEC, AddressingMode::ZeroPage(0))),
            0xC8 => Some((InstructionType::INY, AddressingMode::Implied)),
            0xC9 => Some((InstructionType::CMP, AddressingMode::Immediate(0))),
            0xCA => Some((InstructionType::DEX, AddressingMode::Implied)),
            0xCC => Some((InstructionType::CPY, AddressingMode::Absolute(0))),
            0xCD => Some((InstructionType::CMP, AddressingMode::Absolute(0))),
            0xCE => Some((InstructionType::DEC, AddressingMode::Absolute(0))),
            0xD0 => Some((InstructionType::BNE, AddressingMode::Relative(0))),
            0xD1 => Some((InstructionType::CMP, AddressingMode::IndirectIndexed(0))),
            0xD5 => Some((InstructionType::CMP, AddressingMode::ZeroPageX(0))),
            0xD6 => Some((InstructionType::DEC, AddressingMode::ZeroPageX(0))),
            0xD8 => Some((InstructionType::CLD, AddressingMode::Implied)),
            0xD9 => Some((InstructionType::CMP, AddressingMode::AbsoluteY(0))),
            0xDD => Some((InstructionType::CMP, AddressingMode::AbsoluteX(0))),
            0xDE => Some((InstructionType::DEC, AddressingMode::AbsoluteX(0))),
            0xE0 => Some((InstructionType::CPX, AddressingMode::Immediate(0))),
            0xE1 => Some((InstructionType::SBC, AddressingMode::IndexedIndirect(0))),
            0xE4 => Some((InstructionType::CPX, AddressingMode::ZeroPage(0))),
            0xE5 => Some((InstructionType::SBC, AddressingMode::ZeroPage(0))),
            0xE6 => Some((InstructionType::INC, AddressingMode::ZeroPage(0))),
            0xE8 => Some((InstructionType::INX, AddressingMode::Implied)),
            0xE9 => Some((InstructionType::SBC, AddressingMode::Immediate(0))),
            0xEA => Some((InstructionType::NOP, AddressingMode::Implied)),
            0xEC => Some((InstructionType::CPX, AddressingMode::Absolute(0))),
            0xED => Some((InstructionType::SBC, AddressingMode::Absolute(0))),
            0xEE => Some((InstructionType::INC, AddressingMode::Absolute(0))),
            0xF0 => Some((InstructionType::BEQ, AddressingMode::Relative(0))),
            0xF1 => Some((InstructionType::SBC, AddressingMode::IndirectIndexed(0))),
            0xF5 => Some((InstructionType::SBC, AddressingMode::ZeroPageX(0))),
            0xF6 => Some((InstructionType::INC, AddressingMode::ZeroPageX(0))),
            0xF8 => Some((InstructionType::SED, AddressingMode::Implied)),
            0xF9 => Some((InstructionType::SBC, AddressingMode::AbsoluteY(0))),
            0xFD => Some((InstructionType::SBC, AddressingMode::AbsoluteX(0))),
            0xFE => Some((InstructionType::INC, AddressingMode::AbsoluteX(0))),
            _ => None,
        }
    }

    /// Decodes the instruction at the start of `memory`.
    pub fn from_machine_code(memory: &[u8]) -> (r: Result<Option<Self>, InvalidOpCode>)
        ensures
            r == decode(memory@),
    {
        reveal(decode);
        if memory.len() == 0 {
            return Ok(None);
        }
        let op_code = memory[0];
        match Self::lookup(op_code) {
            None => {
                proof {
                    lemma_no_decoding(memory@);
                }
                Err(InvalidOpCode::new(op_code))
            },
            Some((instruction_type, kind)) => {
                let length = kind.byte_length() as usize;
                if memory.len() < length {
                    proof {
                        lemma_no_decoding(memory@);
                    }
                    return Err(InvalidOpCode::new(op_code));
                }
                let low = if length > 1 {
                    memory[1]
                } else {
                    0
                };
                let high = if length > 2 {
                    memory[2]
                } else {
                    0
                };
                let instruction = Self::new(instruction_type, with_operands(kind, low, high));
                proof {
                    let mode = instruction.addressing_mode;
                    lemma_entry_opcode(op_code);
                    lemma_opcode_shape(instruction_type, mode);
                    lemma_opcode_shape(instruction_type, kind);
                    let code = instruction.machine_code().unwrap();
                    assert(memory@.subrange(0, code.len() as int) =~= code);
                    assert(decodes_to(memory@, instruction));
                    let chosen = choose|i: Instruction| decodes_to(memory@, i);
                    lemma_decoding_unique(memory@, chosen, instruction);
                }
                Ok(Some(instruction))
            },
        }
    }
}

/// An integer reduced to a byte.
pub open spec fn wrap8(value: int) -> u8 {
    (value % 256) as u8
}

/// An integer reduced to a 16-bit word.
pub open spec fn wrap16(value: int) -> u16 {
    (value % 65536) as u16
}

pub open spec fn with_registers(cpu: CpuState, registers: Registers) -> CpuState {
    CpuState { registers, ..cpu }
}

/// Two wrapping additions or subtractions of bytes agree with the sum or
/// difference reduced to a byte.
proof fn lemma_wrapping_arithmetic(a: u8, b: u8, c: u8)
    ensures
        vstd::wrapping::u8_specs::wrapping_add(vstd::wrapping::u8_specs::wrapping_add(a, b), c)
            == wrap8(a + b + c),
        vstd::wrapping::u8_specs::wrapping_sub(vstd::wrapping::u8_specs::wrapping_sub(a, b), c)
            == wrap8(a - b - c),
{
}

/// A successful step that changed the registers alone.
pub open spec fn updated(cpu: CpuState, ppu: PpuRegisters, registers: Registers) -> Result<
    (CpuState, PpuRegisters),
    ExecutionError,
> {
    Ok((with_registers(cpu, registers), ppu))
}

/// Zero and negative set from `value`.
pub open spec fn with_zero_negative(registers: Registers, value: u8) -> Registers {
    with_flags(
        registers,
        Flags { zero: value == 0, negative: is_negative(value), ..flags_of(registers.p) },
    )
}

/// The flags after an addition or subtraction that left `registers.a`:
/// zero, negative, the given carry, and overflow when the result's sign
/// differs from both the old accumulator's and the operand's.
pub open spec fn with_arithmetic_flags(
    registers: Registers,
    old_a: u8,
    value: u8,
    carry: bool,
) -> Registers {
    let a = registers.a;
    with_flags(
        registers,
        Flags {
            negative: is_negative(a),
            overflow: is_negative(a) != is_negative(old_a) && is_negative(a) != is_negative(value),
            zero: a == 0,
            carry,
            ..flags_of(registers.p)
        },
    )
}

/// Zero and negative from a shifted value, and the bit shifted out as carry.
pub open spec fn with_shift_flags(registers: Registers, value: u8, carry: bool) -> Registers {
    with_flags(
        registers,
        Flags { negative: is_negative(value), zero: value == 0, carry, ..flags_of(registers.p) },
    )
}

/// The flags of a comparison of a register with a memory value.
pub open spec fn with_compare_flags(
    registers: Registers,
    register_value: u8,
    memory_value: u8,
) -> Registers {
    with_flags(
        registers,
        Flags {
            negative: is_negative(wrap8(register_value - memory_value)),
            zero: register_value == memory_value,
            carry: register_value >= memory_value,
            ..flags_of(registers.p)
        },
    )
}

/// Stores `value` where `mode` points, then sets zero and negative from it,
/// and the carry when one is given.
pub open spec fn store_and_flag(
    cpu: CpuState,
    ppu: PpuRegisters,
    mode: AddressingMode,
    value: u8,
    carry: Option<bool>,
) -> Result<(CpuState, PpuRegisters), ExecutionError> {
    match store_operand(cpu, ppu, mode, value) {
        Ok((after, registers)) => Ok(
            (
                with_registers(
                    after,
                    match carry {
                        Some(c) => with_shift_flags(after.registers, value, c),
                        None => with_zero_negative(after.registers, value),
                    },
                ),
                registers,
            ),
        ),
        Err(e) => Err(e),
    }
}

/// A branch: when taken, the signed offset of a relative mode moves the
/// program counter.
pub open spec fn branch(cpu: CpuState, mode: AddressingMode, taken: bool) -> Result<
    CpuState,
    ExecutionError,
> {
    if !taken {
        Ok(cpu)
    } else {
        match mode {
            AddressingMode::Relative(offset) => Ok(
                with_registers(
                    cpu,
                    Registers { pc: wrap16(cpu.registers.pc + offset), ..cpu.registers },
                ),
            ),
            _ => Err(ExecutionError::InvalidAddressingMode),
        }
    }
}

/// Where a jump goes: the word read at an indirect mode's pointer, or the
/// effective address of another mode.
#[verifier::opaque]
pub open spec fn jump_target<'b>(
    cpu: CpuState,
    ppu: PpuRegisters,
    mapper: Option<&MemoryMapper<'b>>,
    mode: AddressingMode,
) -> Result<u16, ExecutionError> {
    match mode {
        AddressingMode::Indirect(pointer) => match read_16_of(
            bus_read(cpu, ppu, mapper, pointer),
            if pointer < 0xFFFF {
                bus_read(cpu, ppu, mapper, (pointer + 1) as u16)
            } else {
                None
            },
        ) {
            Some(target) => Ok(target),
            None => Err(ExecutionError::UnmappedRead(pointer)),
        },
        _ => match effective_address(cpu, mode) {
            Some(target) => Ok(target),
            None => Err(ExecutionError::InvalidAddressingMode),
        },
    }
}

/// The outcome of an addition or subtraction with carry.
pub open spec fn arithmetic_spec<'b>(
    cpu: CpuState,
    ppu: PpuRegisters,
    mapper: Option<&MemoryMapper<'b>>,
    instruction: Instruction,
) -> Result<(CpuState, PpuRegisters), ExecutionError> {
    let mode = instruction.addressing_mode;
    let r = cpu.registers;
    let f = flags_of(r.p);
    let carry_in: int = if f.carry {
        1
    } else {
        0
    };
    let value = operand(cpu, ppu, mapper, mode);
    match instruction.instruction_type {
        InstructionType::ADC => match value {
            Ok(v) => {
                let a = wrap8(r.a + v + carry_in);
                updated(cpu, ppu, with_arithmetic_flags(Registers { a, ..r }, r.a, v, a < r.a))
            },
            Err(e) => Err(e),
        },
        _ => match value {
            Ok(v) => {
                let a = wrap8(r.a - v - carry_in);
                updated(cpu, ppu, with_arithmetic_flags(Registers { a, ..r }, r.a, v, a > r.a))
            },
            Err(e) => Err(e),
        },
    }
}

/// The outcome of a load or a logical operation on the accumulator.
pub open spec fn load_spec<'b>(
    cpu: CpuState,
    ppu: PpuRegisters,
    mapper: Option<&MemoryMapper<'b>>,
    instruction: Instruction,
) -> Result<(CpuState, PpuRegisters), ExecutionError> {
    let mode = instruction.addressing_mode;
    let r = cpu.registers;
    let f = flags_of(r.p);
    let value = operand(cpu, ppu, mapper, mode);
    match instruction.instruction_type {
        InstructionType::LDA => match value {
            Ok(v) => updated(cpu, ppu, with_zero_negative(Registers { a: v, ..r }, v)),
            Err(e) => Err(e),
        },
        InstructionType::LDX => match value {
            Ok(v) => updated(cpu, ppu, with_zero_negative(Registers { x: v, ..r }, v)),
            Err(e) => Err(e),
        },
        InstructionType::LDY => match value {
            Ok(v) => updated(cpu, ppu, with_zero_negative(Registers { y: v, ..r }, v)),
            Err(e) => Err(e),
        },
        InstructionType::AND => match value {
            Ok(v) => updated(cpu, ppu, with_zero_negative(Registers { a: r.a & v, ..r }, r.a & v)),
            Err(e) => Err(e),
        },
        InstructionType::ORA => match value {
            Ok(v) => updated(cpu, ppu, with_zero_negative(Registers { a: r.a | v, ..r }, r.a | v)),
            Err(e) => Err(e),
        },
        _ => match value {
            Ok(v) => updated(cpu, ppu, with_zero_negative(Registers { a: r.a ^ v, ..r }, r.a ^ v)),
            Err(e) => Err(e),
        },
    }
}

/// The outcome of a comparison or a bit test.
pub open spec fn compare_spec<'b>(
    cpu: CpuState,
    ppu: PpuRegisters,
    mapper: Option<&MemoryMapper<'b>>,
    instruction: Instruction,
) -> Result<(CpuState, PpuRegisters), ExecutionError> {
    let mode = instruction.addressing_mode;
    let r = cpu.registers;
    let f = flags_of(r.p);
    let value = operand(cpu, ppu, mapper, mode);
    match instruction.instruction_type {
        InstructionType::CMP => match value {
            Ok(v) => updated(cpu, ppu, with_compare_flags(r, r.a, v)),
            Err(e) => Err(e),
        },
        InstructionType::CPX => match value {
            Ok(v) => updated(cpu, ppu, with_compare_flags(r, r.x, v)),
            Err(e) => Err(e),
        },
        InstructionType::CPY => match value {
            Ok(v) => updated(cpu, ppu, with_compare_flags(r, r.y, v)),
            Err(e) => Err(e),
        },
        _ => match value {
            Ok(v) => updated(cpu, ppu, 
                with_flags(
                    r,
                    Flags {
                        negative: v & 0x80 != 0,
                        overflow: v & 0x40 != 0,
                        zero: r.a & v == 0,
                        ..f
                    },
                ),
            ),
            Err(e) => Err(e),
        },
    }
}

/// The outcome of a store.
pub open spec fn store_spec<'b>(
    cpu: CpuState,
    ppu: PpuRegisters,
    mapper: Option<&MemoryMapper<'b>>,
    instruction: Instruction,
) -> Result<(CpuState, PpuRegisters), ExecutionError> {
    let mode = instruction.addressing_mode;
    let r = cpu.registers;
    match instruction.instruction_type {
        InstructionType::STA => store_operand(cpu, ppu, mode, r.a),
        InstructionType::STX => store_operand(cpu, ppu, mode, r.x),
        _ => store_operand(cpu, ppu, mode, r.y),
    }
}

/// The outcome of a read-modify-write operation.
pub open spec fn modify_spec<'b>(
    cpu: CpuState,
    ppu: PpuRegisters,
    mapper: Option<&MemoryMapper<'b>>,
    instruction: Instruction,
) -> Result<(CpuState, PpuRegisters), ExecutionError> {
    let mode = instruction.addressing_mode;
    let r = cpu.registers;
    let f = flags_of(r.p);
    let carry_in: int = if f.carry {
        1
    } else {
        0
    };
    let value = operand(cpu, ppu, mapper, mode);
    match instruction.instruction_type {
        InstructionType::INC => match value {
            Ok(v) => store_and_flag(cpu, ppu, mode, wrap8(v + 1), None),
            Err(e) => Err(e),
        },
        InstructionType::DEC => match value {
            Ok(v) => store_and_flag(cpu, ppu, mode, wrap8(v - 1), None),
            Err(e) => Err(e),
        },
        InstructionType::ASL => match value {
            Ok(v) => store_and_flag(cpu, ppu, mode, wrap8(2 * v), Some(v >= 0x80)),
            Err(e) => Err(e),
        },
        InstructionType::LSR => match value {
            Ok(v) => store_and_flag(cpu, ppu, mode, (v / 2) as u8, Some(v % 2 == 1)),
            Err(e) => Err(e),
        },
        InstructionType::ROL => match value {
            Ok(v) => store_and_flag(cpu, ppu, mode, wrap8(2 * v + carry_in), Some(v >= 0x80)),
            Err(e) => Err(e),
        },
        _ => match value {
            Ok(v) => store_and_flag(
                cpu,
                ppu,
                mode,
                (v / 2 + 0x80 * carry_in) as u8,
                Some(v % 2 == 1),
            ),
            Err(e) => Err(e),
        },
    }
}

/// The outcome of a step or transfer between registers.
pub open spec fn register_spec<'b>(
    cpu: CpuState,
    ppu: PpuRegisters,
    mapper: Option<&MemoryMapper<'b>>,
    instruction: Instruction,
) -> Result<(CpuState, PpuRegisters), ExecutionError> {
    let r = cpu.registers;
    match instruction.instruction_type {
        InstructionType::INX => updated(
            cpu,
            ppu,
            with_zero_negative(Registers { x: wrap8(r.x + 1), ..r }, wrap8(r.x + 1)),
        ),
        InstructionType::INY => updated(
            cpu,
            ppu,
            with_zero_negative(Registers { y: wrap8(r.y + 1), ..r }, wrap8(r.y + 1)),
        ),
        InstructionType::DEX => updated(
            cpu,
            ppu,
            with_zero_negative(Registers { x: wrap8(r.x - 1), ..r }, wrap8(r.x - 1)),
        ),
        InstructionType::DEY => updated(
            cpu,
            ppu,
            with_zero_negative(Registers { y: wrap8(r.y - 1), ..r }, wrap8(r.y - 1)),
        ),
        InstructionType::TAX => updated(
            cpu,
            ppu,
            with_zero_negative(Registers { x: r.a, ..r }, r.a),
        ),
        InstructionType::TXA => updated(
            cpu,
            ppu,
            with_zero_negative(Registers { a: r.x, ..r }, r.x),
        ),
        InstructionType::TAY => updated(
            cpu,
            ppu,
            with_zero_negative(Registers { y: r.a, ..r }, r.a),
        ),
        InstructionType::TYA => updated(
            cpu,
            ppu,
            with_zero_negative(Registers { a: r.y, ..r }, r.y),
        ),
        InstructionType::TSX => updated(
            cpu,
            ppu,
            with_zero_negative(Registers { x: r.s, ..r }, r.s),
        ),
        _ => updated(cpu, ppu, with_zero_negative(Registers { s: r.x, ..r }, r.x)),
    }
}

/// The outcome of a conditional branch.
pub open spec fn branch_spec<'b>(
    cpu: CpuState,
    ppu: PpuRegisters,
    mapper: Option<&MemoryMapper<'b>>,
    instruction: Instruction,
) -> Result<(CpuState, PpuRegisters), ExecutionError> {
    let mode = instruction.addressing_mode;
    let r = cpu.registers;
    let f = flags_of(r.p);
    match instruction.instruction_type {
        _ => {
            let taken = match instruction.instruction_type {
                InstructionType::BCC => !f.carry,
                InstructionType::BCS => f.carry,
                InstructionType::BNE => !f.zero,
                InstructionType::BEQ => f.zero,
                InstructionType::BPL => !f.negative,
                InstructionType::BMI => f.negative,
                InstructionType::BVC => !f.overflow,
                _ => f.overflow,
            };
            match branch(cpu, mode, taken) {
                Ok(after) => Ok((after, ppu)),
                Err(e) => Err(e),
            }
        },
    }
}

/// The outcome of a push or pull.
pub open spec fn stack_spec<'b>(
    cpu: CpuState,
    ppu: PpuRegisters,
    mapper: Option<&MemoryMapper<'b>>,
    instruction: Instruction,
) -> Result<(CpuState, PpuRegisters), ExecutionError> {
    let r = cpu.registers;
    match instruction.instruction_type {
        InstructionType::PHA => Ok((push_state(cpu, r.a), ppu)),
        InstructionType::PHP => Ok((push_state(cpu, r.p), ppu)),
        InstructionType::PLA => {
            let (after, v) = pop_state(cpu);
            Ok(
                (
                    with_registers(after, with_zero_negative(Registers { a: v, ..after.registers }, v)),
                    ppu,
                ),
            )
        },
        _ => {
            let (after, v) = pop_state(cpu);
            Ok((with_registers(after, Registers { p: v, ..after.registers }), ppu))
        },
    }
}

/// The outcome of a jump, call, return or break.
pub open spec fn control_spec<'b>(
    cpu: CpuState,
    ppu: PpuRegisters,
    mapper: Option<&MemoryMapper<'b>>,
    instruction: Instruction,
) -> Result<(CpuState, PpuRegisters), ExecutionError> {
    let mode = instruction.addressing_mode;
    let r = cpu.registers;
    let f = flags_of(r.p);
    match instruction.instruction_type {
        InstructionType::JMP => match jump_target(cpu, ppu, mapper, mode) {
            Ok(target) => updated(cpu, ppu, Registers { pc: target, ..r }),
            Err(e) => Err(e),
        },
        InstructionType::JSR => match mode {
            AddressingMode::Absolute(target) => {
                let back = wrap16(r.pc + 2);
                let pushed = push_state(push_state(cpu, (back / 256) as u8), (back % 256) as u8);
                Ok((with_registers(pushed, Registers { pc: target, ..pushed.registers }), ppu))
            },
            _ => Err(ExecutionError::InvalidAddressingMode),
        },
        InstructionType::RTS => {
            let (first, low) = pop_state(cpu);
            let (second, high) = pop_state(first);
            Ok(
                (
                    with_registers(
                        second,
                        Registers { pc: wrap16(le_u16(low, high) + 1), ..second.registers },
                    ),
                    ppu,
                ),
            )
        },
        InstructionType::RTI => {
            let (first, status) = pop_state(cpu);
            let (second, low) = pop_state(first);
            let (third, high) = pop_state(second);
            Ok(
                (
                    with_registers(
                        third,
                        with_flags(
                            Registers { pc: le_u16(low, high), ..third.registers },
                            flags_of(status),
                        ),
                    ),
                    ppu,
                ),
            )
        },
        _ => {
            let pushed = push_state(
                push_state(push_state(cpu, (r.pc / 256) as u8), (r.pc % 256) as u8),
                byte_of(f),
            );
            Ok(
                (
                    with_registers(
                        pushed,
                        with_flags(pushed.registers, Flags { break_command: true, ..f }),
                    ),
                    ppu,
                ),
            )
        },
    }
}

/// The outcome of a flag operation or no operation.
pub open spec fn flag_spec<'b>(
    cpu: CpuState,
    ppu: PpuRegisters,
    mapper: Option<&MemoryMapper<'b>>,
    instruction: Instruction,
) -> Result<(CpuState, PpuRegisters), ExecutionError> {
    let r = cpu.registers;
    let f = flags_of(r.p);
    match instruction.instruction_type {
        InstructionType::CLC => updated(cpu, ppu, with_flags(r, Flags { carry: false, ..f })),
        InstructionType::SEC => updated(cpu, ppu, with_flags(r, Flags { carry: true, ..f })),
        InstructionType::CLD => updated(cpu, ppu, with_flags(r, Flags { decimal: false, ..f })),
        InstructionType::SED => updated(cpu, ppu, with_flags(r, Flags { decimal: true, ..f })),
        InstructionType::CLI => updated(
            cpu,
            ppu,
            with_flags(r, Flags { interrupt_disable: false, ..f }),
        ),
        InstructionType::SEI => updated(
            cpu,
            ppu,
            with_flags(r, Flags { interrupt_disable: true, ..f }),
        ),
        InstructionType::CLV => updated(cpu, ppu, with_flags(r, Flags { overflow: false, ..f })),
        _ => Ok((cpu, ppu)),
    }
}

/// The state after the processor runs `instruction`, or the reason it
/// cannot.
#[verifier::opaque]
pub open spec fn execute_spec<'b>(
    cpu: CpuState,
    ppu: PpuRegisters,
    mapper: Option<&MemoryMapper<'b>>,
    instruction: Instruction,
) -> Result<(CpuState, PpuRegisters), ExecutionError> {
    match instruction.instruction_type {
        InstructionType::ADC | InstructionType::SBC => arithmetic_spec(
            cpu,
            ppu,
            mapper,
            instruction,
        ),
        InstructionType::LDA | InstructionType::LDX | InstructionType::LDY
        | InstructionType::AND | InstructionType::ORA | InstructionType::EOR => {
            load_spec(cpu, ppu, mapper, instruction)
        },
        InstructionType::CMP | InstructionType::CPX | InstructionType::CPY
        | InstructionType::BIT => compare_spec(cpu, ppu, mapper, instruction),
        InstructionType::STA | InstructionType::STX | InstructionType::STY => store_spec(
            cpu,
            ppu,
            mapper,
            instruction,
        ),
        InstructionType::INC | InstructionType::DEC | InstructionType::ASL
        | InstructionType::LSR | InstructionType::ROL | InstructionType::ROR => {
            modify_spec(cpu, ppu, mapper, instruction)
        },
        InstructionType::INX | InstructionType::INY | InstructionType::DEX
        | InstructionType::DEY | InstructionType::TAX | InstructionType::TXA
        | InstructionType::TAY | InstructionType::TYA | InstructionType::TSX
        | InstructionType::TXS => register_spec(cpu, ppu, mapper, instruction),
        InstructionType::BCC | InstructionType::BCS | InstructionType::BNE
        | InstructionType::BEQ | InstructionType::BPL | InstructionType::BMI
        | InstructionType::BVC | InstructionType::BVS => branch_spec(cpu, ppu, mapper, instruction),
        InstructionType::PHA | InstructionType::PHP | InstructionType::PLA
        | InstructionType::PLP => stack_spec(cpu, ppu, mapper, instruction),
        InstructionType::JMP | InstructionType::JSR | InstructionType::RTS
        | InstructionType::RTI | InstructionType::BRK => {
            control_spec(cpu, ppu, mapper, instruction)
        },
        InstructionType::CLC | InstructionType::SEC | InstructionType::CLD
        | InstructionType::SED | InstructionType::CLI | InstructionType::SEI
        | InstructionType::CLV | InstructionType::NOP => flag_spec(cpu, ppu, mapper, instruction),
    }
}

/// `r` and the state after report `outcome`, an outcome of a step from
/// the state before; on an error nothing changed.
pub open spec fn reports(
    outcome: Result<(CpuState, PpuRegisters), ExecutionError>,
    cpu: CpuState,
    ppu: PPU,
    cpu_after: CpuState,
    ppu_after: PPU,
    r: Result<(), ExecutionError>,
) -> bool {
    match outcome {
        Ok((c, registers)) => r is Ok && cpu_after == c && ppu_after == (PPU { registers, ..ppu }),
        Err(e) => r == Err::<(), ExecutionError>(e) && cpu_after == cpu && ppu_after == ppu,
    }
}

/// Runs instructions against the processor's bus.
pub struct InstructionExecutor<'a, 'mmu, 'mapped> {
    pub mmu: &'a mut MMU<'mmu, 'mapped>,
}

impl<'a, 'mmu, 'mapped> InstructionExecutor<'a, 'mmu, 'mapped> {
    pub open spec fn cpu_state(&self) -> CpuState {
        self.mmu.cpu_state()
    }

    pub open spec fn ppu(&self) -> PPU {
        *self.mmu.ppu
    }

    pub open spec fn mapper(&self) -> Option<&'mmu MemoryMapper<'mapped>> {
        self.mmu.mapper
    }

    pub fn new(mmu: &'a mut MMU<'mmu, 'mapped>) -> (r: Self)
        ensures
            *r.mmu == *old(mmu),
            *final(mmu) == *final(r.mmu),
    {
        Self { mmu }
    }

    fn execute_control(&mut self, instruction: Instruction) -> (r: Result<(), ExecutionError>)
        requires
            instruction.instruction_type is JMP
                || instruction.instruction_type is JSR
                || instruction.instruction_type is RTS
                || instruction.instruction_type is RTI
                || instruction.instruction_type is BRK,
        ensures
            reports(
                control_spec(
                    old(self).cpu_state(),
                    old(self).ppu().registers,
                    old(self).mapper(),
                    instruction,
                ),
                old(self).cpu_state(),
                old(self).ppu(),
                final(self).cpu_state(),
                final(self).ppu(),
                r,
            ),
            final(self).mapper() == old(self).mapper(),
            *final(final(self).mmu) == *final(old(self).mmu),
            *final(final(self).mmu.cpu) == *final(old(self).mmu.cpu),
            *final(final(self).mmu.ppu) == *final(old(self).mmu.ppu),
    {
        match instruction.instruction_type {
            InstructionType::JMP => self.execute_jmp(instruction),
            InstructionType::JSR => self.execute_jsr(instruction),
            InstructionType::RTS => self.execute_rts(instruction),
            InstructionType::RTI => self.execute_rti(instruction),
            _ => self.execute_brk(instruction),
        }
    }

    fn execute_jmp(&mut self, instruction: Instruction) -> (r: Result<(), ExecutionError>)
        requires
            instruction.instruction_type is JMP,
        ensures
            reports(
                control_spec(
                    old(self).cpu_state(),
                    old(self).ppu().registers,
                    old(self).mapper(),
                    instruction,
                ),
                old(self).cpu_state(),
                old(self).ppu(),
                final(self).cpu_state(),
                final(self).ppu(),
                r,
            ),
            final(self).mapper() == old(self).mapper(),
            *final(final(self).mmu) == *final(old(self).mmu),
            *final(final(self).mmu.cpu) == *final(old(self).mmu.cpu),
            *final(final(self).mmu.ppu) == *final(old(self).mmu.ppu),
    {
        reveal(jump_target);
            let target = match instruction.addressing_mode {
                AddressingMode::Indirect(pointer) => match self.mmu.read_16_bit_value(pointer) {
                    Some(target) => target,
                    None => return Err(ExecutionError::UnmappedRead(pointer)),
                },
                mode => match self.mmu.address_by_mode(mode) {
                    Some(target) => target,
                    None => return Err(ExecutionError::InvalidAddressingMode),
                },
            };
            self.mmu.cpu.registers.pc = target;
        Ok(())
    }

    #[verifier::rlimit(60)]
    fn execute_jsr(&mut self, instruction: Instruction) -> (r: Result<(), ExecutionError>)
        requires
            instruction.instruction_type is JSR,
        ensures
            reports(
                control_spec(
                    old(self).cpu_state(),
                    old(self).ppu().registers,
                    old(self).mapper(),
                    instruction,
                ),
                old(self).cpu_state(),
                old(self).ppu(),
                final(self).cpu_state(),
                final(self).ppu(),
                r,
            ),
            final(self).mapper() == old(self).mapper(),
            *final(final(self).mmu) == *final(old(self).mmu),
            *final(final(self).mmu.cpu) == *final(old(self).mmu.cpu),
            *final(final(self).mmu.ppu) == *final(old(self).mmu.ppu),
    {
        match instruction.addressing_mode {
            AddressingMode::Absolute(address) => {
                let pc = self.mmu.cpu.registers.pc;
                let length = instruction.addressing_mode.byte_length() as u16;
                assert(length == 3);
                let past = pc.wrapping_add(length);
                assert(past == wrap16(pc + 3));
                let return_address = past.wrapping_sub(1);
                assert(return_address == wrap16(pc + 2));
                let mut stack = Stack::new(self.mmu.cpu);
                stack.push((return_address / 256) as u8);
                stack.push((return_address % 256) as u8);
                self.mmu.cpu.registers.pc = address;
                proof {
                    let before = old(self).cpu_state();
                    let back = wrap16(before.registers.pc + 2);
                    let pushed = push_state(
                        push_state(before, (back / 256) as u8),
                        (back % 256) as u8,
                    );
                    assert(self.cpu_state() == with_registers(
                        pushed,
                        Registers { pc: address, ..pushed.registers },
                    ));
                }
                Ok(())
            },
            _ => Err(ExecutionError::InvalidAddressingMode),
        }
    }

    fn execute_rts(&mut self, instruction: Instruction) -> (r: Result<(), ExecutionError>)
        requires
            instruction.instruction_type is RTS,
        ensures
            reports(
                control_spec(
                    old(self).cpu_state(),
                    old(self).ppu().registers,
                    old(self).mapper(),
                    instruction,
                ),
                old(self).cpu_state(),
                old(self).ppu(),
                final(self).cpu_state(),
                final(self).ppu(),
                r,
            ),
            final(self).mapper() == old(self).mapper(),
            *final(final(self).mmu) == *final(old(self).mmu),
            *final(final(self).mmu.cpu) == *final(old(self).mmu.cpu),
            *final(final(self).mmu.ppu) == *final(old(self).mmu.ppu),
    {
            let mut stack = Stack::new(self.mmu.cpu);
            let low = stack.pop();
            let high = stack.pop();
            self.mmu.cpu.registers.pc = (low as u16 + 256 * high as u16).wrapping_add(1);
        Ok(())
    }

    fn execute_rti(&mut self, instruction: Instruction) -> (r: Result<(), ExecutionError>)
        requires
            instruction.instruction_type is RTI,
        ensures
            reports(
                control_spec(
                    old(self).cpu_state(),
                    old(self).ppu().registers,
                    old(self).mapper(),
                    instruction,
                ),
                old(self).cpu_state(),
                old(self).ppu(),
                final(self).cpu_state(),
                final(self).ppu(),
                r,
            ),
            final(self).mapper() == old(self).mapper(),
            *final(final(self).mmu) == *final(old(self).mmu),
            *final(final(self).mmu.cpu) == *final(old(self).mmu.cpu),
            *final(final(self).mmu.ppu) == *final(old(self).mmu.ppu),
    {
            let mut stack = Stack::new(self.mmu.cpu);
            let flags = Flags::from(stack.pop());
            let low = stack.pop();
            let high = stack.pop();
            let registers = &mut self.mmu.cpu.registers;
            registers.set_flags(flags);
            registers.pc = low as u16 + 256 * high as u16;
        Ok(())
    }

    fn execute_brk(&mut self, instruction: Instruction) -> (r: Result<(), ExecutionError>)
        requires
            instruction.instruction_type is BRK,
        ensures
            reports(
                control_spec(
                    old(self).cpu_state(),
                    old(self).ppu().registers,
                    old(self).mapper(),
                    instruction,
                ),
                old(self).cpu_state(),
                old(self).ppu(),
                final(self).cpu_state(),
                final(self).ppu(),
                r,
            ),
            final(self).mapper() == old(self).mapper(),
            *final(final(self).mmu) == *final(old(self).mmu),
            *final(final(self).mmu.cpu) == *final(old(self).mmu.cpu),
            *final(final(self).mmu.ppu) == *final(old(self).mmu.ppu),
    {
            let registers = self.mmu.cpu.registers;
            let pc = registers.pc;
            let flags = registers.flags();
            let mut stack = Stack::new(self.mmu.cpu);
            stack.push((pc / 256) as u8);
            stack.push((pc % 256) as u8);
            stack.push(u8::from(flags));
            self.mmu.cpu.registers.set_flags(Flags { break_command: true, ..flags });
        Ok(())
    }

    /// Carries out `instruction`. The program counter is moved only by the
    /// operations that set it; an error leaves everything as it was.
    pub fn execute(&mut self, instruction: Instruction) -> (r: Result<(), ExecutionError>)
        ensures
            reports(
                execute_spec(
                    old(self).cpu_state(),
                    old(self).ppu().registers,
                    old(self).mapper(),
                    instruction,
                ),
                old(self).cpu_state(),
                old(self).ppu(),
                final(self).cpu_state(),
                final(self).ppu(),
                r,
            ),
            final(self).mapper() == old(self).mapper(),
            *final(final(self).mmu) == *final(old(self).mmu),
            *final(final(self).mmu.cpu) == *final(old(self).mmu.cpu),
            *final(final(self).mmu.ppu) == *final(old(self).mmu.ppu),
    {
        reveal(execute_spec);
        match instruction.instruction_type {
            InstructionType::ADC | InstructionType::SBC => self.execute_arithmetic(instruction),
            InstructionType::LDA | InstructionType::LDX | InstructionType::LDY
            | InstructionType::AND | InstructionType::ORA | InstructionType::EOR => {
                self.execute_load(instruction)
            },
            InstructionType::CMP | InstructionType::CPX | InstructionType::CPY
            | InstructionType::BIT => self.execute_compare(instruction),
            InstructionType::STA | InstructionType::STX | InstructionType::STY => {
                self.execute_store(instruction)
            },
            InstructionType::INC | InstructionType::DEC | InstructionType::ASL
            | InstructionType::LSR | InstructionType::ROL | InstructionType::ROR => {
                self.execute_modify(instruction)
            },
            InstructionType::INX | InstructionType::INY | InstructionType::DEX
            | InstructionType::DEY | InstructionType::TAX | InstructionType::TXA
            | InstructionType::TAY | InstructionType::TYA | InstructionType::TSX
            | InstructionType::TXS => self.execute_register(instruction),
            InstructionType::BCC | InstructionType::BCS | InstructionType::BNE
            | InstructionType::BEQ | InstructionType::BPL | InstructionType::BMI
            | InstructionType::BVC | InstructionType::BVS => self.execute_branch(instruction),
            InstructionType::PHA | InstructionType::PHP | InstructionType::PLA
            | InstructionType::PLP => self.execute_stack(instruction),
            InstructionType::JMP | InstructionType::JSR | InstructionType::RTS
            | InstructionType::RTI | InstructionType::BRK => self.execute_control(instruction),
            _ => self.execute_flag(instruction),
        }
    }

    fn read_8_bit_value(&self, instruction: Instruction) -> (r: Result<u8, ExecutionError>)
        ensures
            r == operand(
                self.cpu_state(),
                self.ppu().registers,
                self.mapper(),
                instruction.addressing_mode,
            ),
    {
        reveal(operand);
        match instruction.addressing_mode {
            AddressingMode::Accumulator => Ok(self.mmu.cpu.registers.a),
            AddressingMode::Immediate(value) => Ok(value),
            mode => match self.mmu.address_by_mode(mode) {
                Some(address) => match self.mmu.read(address) {
                    Some(value) => Ok(value),
                    None => Err(ExecutionError::UnmappedRead(address)),
                },
                None => Err(ExecutionError::InvalidAddressingMode),
            },
        }
    }

    fn write_8_bit_value(&mut self, instruction: Instruction, value: u8) -> (r: Result<
        (),
        ExecutionError,
    >)
        ensures
            match store_operand(
                old(self).cpu_state(),
                old(self).ppu().registers,
                instruction.addressing_mode,
                value,
            ) {
                Ok((cpu, registers)) => {
                    &&& r is Ok
                    &&& final(self).cpu_state() == cpu
                    &&& final(self).ppu() == (PPU { registers, ..old(self).ppu() })
                },
                Err(e) => {
                    &&& r == Err::<(), ExecutionError>(e)
                    &&& final(self).cpu_state() == old(self).cpu_state()
                    &&& final(self).ppu() == old(self).ppu()
                },
            },
            final(self).mapper() == old(self).mapper(),
            *final(final(self).mmu) == *final(old(self).mmu),
            *final(final(self).mmu.cpu) == *final(old(self).mmu.cpu),
            *final(final(self).mmu.ppu) == *final(old(self).mmu.ppu),
    {
        self.mmu.write_8_bit_value_by_mode(instruction.addressing_mode, value)
    }

    fn update_flags_after_arithmetic(&mut self, old_a: u8, value: u8, carry: bool)
        ensures
            final(self).cpu_state() == with_registers(
                old(self).cpu_state(),
                with_arithmetic_flags(old(self).cpu_state().registers, old_a, value, carry),
            ),
            final(self).ppu() == old(self).ppu(),
            final(self).mapper() == old(self).mapper(),
            *final(final(self).mmu) == *final(old(self).mmu),
            *final(final(self).mmu.cpu) == *final(old(self).mmu.cpu),
            *final(final(self).mmu.ppu) == *final(old(self).mmu.ppu),
    {
        let registers = &mut self.mmu.cpu.registers;
        let a_sign = Sign::from(registers.a);
        let flags = registers.flags();
        registers.set_flags(
            Flags {
                negative: a_sign == Sign::Negative,
                overflow: a_sign != Sign::from(old_a) && a_sign != Sign::from(value),
                zero: registers.a == 0,
                carry,
                ..flags
            },
        );
    }

    fn update_flags_after_shift(&mut self, value: u8, carry: bool)
        ensures
            final(self).cpu_state() == with_registers(
                old(self).cpu_state(),
                with_shift_flags(old(self).cpu_state().registers, value, carry),
            ),
            final(self).ppu() == old(self).ppu(),
            final(self).mapper() == old(self).mapper(),
            *final(final(self).mmu) == *final(old(self).mmu),
            *final(final(self).mmu.cpu) == *final(old(self).mmu.cpu),
            *final(final(self).mmu.ppu) == *final(old(self).mmu.ppu),
    {
        let registers = &mut self.mmu.cpu.registers;
        let flags = registers.flags();
        registers.set_flags(
            Flags {
                negative: Sign::from(value) == Sign::Negative,
                zero: value == 0,
                carry,
                ..flags
            },
        );
    }

    fn update_zero_and_negative_flags(&mut self, value: u8)
        ensures
            final(self).cpu_state() == with_registers(
                old(self).cpu_state(),
                with_zero_negative(old(self).cpu_state().registers, value),
            ),
            final(self).ppu() == old(self).ppu(),
            final(self).mapper() == old(self).mapper(),
            *final(final(self).mmu) == *final(old(self).mmu),
            *final(final(self).mmu.cpu) == *final(old(self).mmu.cpu),
            *final(final(self).mmu.ppu) == *final(old(self).mmu.ppu),
    {
        let registers = &mut self.mmu.cpu.registers;
        let flags = registers.flags();
        registers.set_flags(
            Flags { zero: value == 0, negative: Sign::from(value) == Sign::Negative, ..flags },
        );
    }

    fn update_flags_after_compare(&mut self, register_value: u8, memory_value: u8, result: u8)
        requires
            result == wrap8(register_value - memory_value),
        ensures
            final(self).cpu_state() == with_registers(
                old(self).cpu_state(),
                with_compare_flags(old(self).cpu_state().registers, register_value, memory_value),
            ),
            final(self).ppu() == old(self).ppu(),
            final(self).mapper() == old(self).mapper(),
            *final(final(self).mmu) == *final(old(self).mmu),
            *final(final(self).mmu.cpu) == *final(old(self).mmu.cpu),
            *final(final(self).mmu.ppu) == *final(old(self).mmu.ppu),
    {
        assert((result & 0x80) != 0 <==> result >= 0x80) by (bit_vector);
        let registers = &mut self.mmu.cpu.registers;
        let flags = registers.flags();
        registers.set_flags(
            Flags {
                negative: (result & 0x80) != 0,
                zero: register_value == memory_value,
                carry: register_value >= memory_value,
                ..flags
            },
        );
    }

    fn execute_load(&mut self, instruction: Instruction) -> (r: Result<(), ExecutionError>)
        requires
            instruction.instruction_type is LDA
                || instruction.instruction_type is LDX
                || instruction.instruction_type is LDY
                || instruction.instruction_type is AND
                || instruction.instruction_type is ORA
                || instruction.instruction_type is EOR,
        ensures
            reports(
                load_spec(
                    old(self).cpu_state(),
                    old(self).ppu().registers,
                    old(self).mapper(),
                    instruction,
                ),
                old(self).cpu_state(),
                old(self).ppu(),
                final(self).cpu_state(),
                final(self).ppu(),
                r,
            ),
            final(self).mapper() == old(self).mapper(),
            *final(final(self).mmu) == *final(old(self).mmu),
            *final(final(self).mmu.cpu) == *final(old(self).mmu.cpu),
            *final(final(self).mmu.ppu) == *final(old(self).mmu.ppu),
    {
        let value = match self.read_8_bit_value(instruction) {
            Ok(value) => value,
            Err(e) => return Err(e),
        };
        match instruction.instruction_type {
            InstructionType::LDA => {
                self.mmu.cpu.registers.a = value;
                self.update_zero_and_negative_flags(value);
            },
            InstructionType::LDX => {
                self.mmu.cpu.registers.x = value;
                self.update_zero_and_negative_flags(value);
            },
            InstructionType::LDY => {
                self.mmu.cpu.registers.y = value;
                self.update_zero_and_negative_flags(value);
            },
            InstructionType::AND => {
                let new_accumulator = self.mmu.cpu.registers.a & value;
                self.mmu.cpu.registers.a = new_accumulator;
                self.update_zero_and_negative_flags(new_accumulator);
            },
            InstructionType::ORA => {
                let new_accumulator = self.mmu.cpu.registers.a | value;
                self.mmu.cpu.registers.a = new_accumulator;
                self.update_zero_and_negative_flags(new_accumulator);
            },
            _ => {
                let new_accumulator = self.mmu.cpu.registers.a ^ value;
                self.mmu.cpu.registers.a = new_accumulator;
                self.update_zero_and_negative_flags(new_accumulator);
            },
        }
        Ok(())
    }

    fn execute_compare(&mut self, instruction: Instruction) -> (r: Result<(), ExecutionError>)
        requires
            instruction.instruction_type is CMP
                || instruction.instruction_type is CPX
                || instruction.instruction_type is CPY
                || instruction.instruction_type is BIT,
        ensures
            reports(
                compare_spec(
                    old(self).cpu_state(),
                    old(self).ppu().registers,
                    old(self).mapper(),
                    instruction,
                ),
                old(self).cpu_state(),
                old(self).ppu(),
                final(self).cpu_state(),
                final(self).ppu(),
                r,
            ),
            final(self).mapper() == old(self).mapper(),
            *final(final(self).mmu) == *final(old(self).mmu),
            *final(final(self).mmu.cpu) == *final(old(self).mmu.cpu),
            *final(final(self).mmu.ppu) == *final(old(self).mmu.ppu),
    {
        let value = match self.read_8_bit_value(instruction) {
            Ok(value) => value,
            Err(e) => return Err(e),
        };
        match instruction.instruction_type {
            InstructionType::CMP => {
                let accumulator = self.mmu.cpu.registers.a;
                let subtracted = accumulator.wrapping_sub(value);
                self.update_flags_after_compare(accumulator, value, subtracted);
            },
            InstructionType::CPX => {
                let x = self.mmu.cpu.registers.x;
                let subtracted = x.wrapping_sub(value);
                self.update_flags_after_compare(x, value, subtracted);
            },
            InstructionType::CPY => {
                let y = self.mmu.cpu.registers.y;
                let subtracted = y.wrapping_sub(value);
                self.update_flags_after_compare(y, value, subtracted);
            },
            _ => {
                let registers = &mut self.mmu.cpu.registers;
                let result = registers.a & value;
                let flags = registers.flags();
                registers.set_flags(
                    Flags {
                        negative: (value & 0b10000000) != 0,
                        overflow: (value & 0b01000000) != 0,
                        zero: result == 0,
                        ..flags
                    },
                );
            },
        }
        Ok(())
    }

    fn execute_store(&mut self, instruction: Instruction) -> (r: Result<(), ExecutionError>)
        requires
            instruction.instruction_type is STA
                || instruction.instruction_type is STX
                || instruction.instruction_type is STY,
        ensures
            reports(
                store_spec(
                    old(self).cpu_state(),
                    old(self).ppu().registers,
                    old(self).mapper(),
                    instruction,
                ),
                old(self).cpu_state(),
                old(self).ppu(),
                final(self).cpu_state(),
                final(self).ppu(),
                r,
            ),
            final(self).mapper() == old(self).mapper(),
            *final(final(self).mmu) == *final(old(self).mmu),
            *final(final(self).mmu.cpu) == *final(old(self).mmu.cpu),
            *final(final(self).mmu.ppu) == *final(old(self).mmu.ppu),
    {
        let registers = self.mmu.cpu.registers;
        let value = match instruction.instruction_type {
            InstructionType::STA => registers.a,
            InstructionType::STX => registers.x,
            _ => registers.y,
        };
        self.write_8_bit_value(instruction, value)
    }

    fn execute_modify(&mut self, instruction: Instruction) -> (r: Result<(), ExecutionError>)
        requires
            instruction.instruction_type is INC
                || instruction.instruction_type is DEC
                || instruction.instruction_type is ASL
                || instruction.instruction_type is LSR
                || instruction.instruction_type is ROL
                || instruction.instruction_type is ROR,
        ensures
            reports(
                modify_spec(
                    old(self).cpu_state(),
                    old(self).ppu().registers,
                    old(self).mapper(),
                    instruction,
                ),
                old(self).cpu_state(),
                old(self).ppu(),
                final(self).cpu_state(),
                final(self).ppu(),
                r,
            ),
            final(self).mapper() == old(self).mapper(),
            *final(final(self).mmu) == *final(old(self).mmu),
            *final(final(self).mmu.cpu) == *final(old(self).mmu.cpu),
            *final(final(self).mmu.ppu) == *final(old(self).mmu.ppu),
    {
        let old_value = match self.read_8_bit_value(instruction) {
            Ok(value) => value,
            Err(e) => return Err(e),
        };
        let carried = self.mmu.cpu.registers.flags().carry;
        let value: u8;
        let carry: bool;
        match instruction.instruction_type {
            InstructionType::INC => {
                value = old_value.wrapping_add(1);
                carry = false;
            },
            InstructionType::DEC => {
                value = old_value.wrapping_sub(1);
                carry = false;
            },
            InstructionType::ASL => {
                value = old_value << 1;
                carry = (old_value & 0b10000000) != 0;
                assert(old_value << 1 == wrap8(2 * old_value) && ((old_value & 0x80) != 0
                    <==> old_value >= 0x80)) by (bit_vector);
            },
            InstructionType::LSR => {
                value = old_value >> 1;
                carry = (old_value & 0b00000001) != 0;
                assert(old_value >> 1 == old_value / 2 && ((old_value & 1) != 0 <==> old_value % 2
                    == 1)) by (bit_vector);
            },
            InstructionType::ROL => {
                value = if carried {
                    (old_value << 1) | 0b00000001
                } else {
                    old_value << 1
                };
                carry = (old_value & 0b10000000) != 0;
                assert(old_value << 1 == wrap8(2 * old_value) && (old_value << 1) | 1 == wrap8(
                    2 * old_value + 1,
                ) && ((old_value & 0x80) != 0 <==> old_value >= 0x80)) by (bit_vector);
            },
            _ => {
                value = if carried {
                    (old_value >> 1) | 0b10000000
                } else {
                    old_value >> 1
                };
                carry = (old_value & 0b00000001) != 0;
                assert(old_value >> 1 == old_value / 2 && (old_value >> 1) | 0x80 == old_value / 2
                    + 0x80 && ((old_value & 1) != 0 <==> old_value % 2 == 1)) by (bit_vector);
            },
        }
        match self.write_8_bit_value(instruction, value) {
            Ok(()) => {},
            Err(e) => return Err(e),
        }
        let stepped = instruction.instruction_type == InstructionType::INC
            || instruction.instruction_type == InstructionType::DEC;
        if stepped {
            self.update_zero_and_negative_flags(value);
        } else {
            self.update_flags_after_shift(value, carry);
        }
        Ok(())
    }

    fn execute_register(&mut self, instruction: Instruction) -> (r: Result<(), ExecutionError>)
        requires
            instruction.instruction_type is INX
                || instruction.instruction_type is INY
                || instruction.instruction_type is DEX
                || instruction.instruction_type is DEY
                || instruction.instruction_type is TAX
                || instruction.instruction_type is TXA
                || instruction.instruction_type is TAY
                || instruction.instruction_type is TYA
                || instruction.instruction_type is TSX
                || instruction.instruction_type is TXS,
        ensures
            reports(
                register_spec(
                    old(self).cpu_state(),
                    old(self).ppu().registers,
                    old(self).mapper(),
                    instruction,
                ),
                old(self).cpu_state(),
                old(self).ppu(),
                final(self).cpu_state(),
                final(self).ppu(),
                r,
            ),
            final(self).mapper() == old(self).mapper(),
            *final(final(self).mmu) == *final(old(self).mmu),
            *final(final(self).mmu.cpu) == *final(old(self).mmu.cpu),
            *final(final(self).mmu.ppu) == *final(old(self).mmu.ppu),
    {
        let registers = self.mmu.cpu.registers;
        let value = match instruction.instruction_type {
            InstructionType::INX => registers.x.wrapping_add(1),
            InstructionType::INY => registers.y.wrapping_add(1),
            InstructionType::DEX => registers.x.wrapping_sub(1),
            InstructionType::DEY => registers.y.wrapping_sub(1),
            InstructionType::TAX | InstructionType::TAY => registers.a,
            InstructionType::TXA | InstructionType::TXS => registers.x,
            InstructionType::TYA => registers.y,
            _ => registers.s,
        };
        match instruction.instruction_type {
            InstructionType::INX | InstructionType::DEX | InstructionType::TAX
            | InstructionType::TSX => self.mmu.cpu.registers.x = value,
            InstructionType::INY | InstructionType::DEY | InstructionType::TAY => {
                self.mmu.cpu.registers.y = value
            },
            InstructionType::TXA | InstructionType::TYA => self.mmu.cpu.registers.a = value,
            _ => self.mmu.cpu.registers.s = value,
        }
        self.update_zero_and_negative_flags(value);
        Ok(())
    }

    fn execute_branch(&mut self, instruction: Instruction) -> (r: Result<(), ExecutionError>)
        requires
            instruction.instruction_type is BCC
                || instruction.instruction_type is BCS
                || instruction.instruction_type is BNE
                || instruction.instruction_type is BEQ
                || instruction.instruction_type is BPL
                || instruction.instruction_type is BMI
                || instruction.instruction_type is BVC
                || instruction.instruction_type is BVS,
        ensures
            reports(
                branch_spec(
                    old(self).cpu_state(),
                    old(self).ppu().registers,
                    old(self).mapper(),
                    instruction,
                ),
                old(self).cpu_state(),
                old(self).ppu(),
                final(self).cpu_state(),
                final(self).ppu(),
                r,
            ),
            final(self).mapper() == old(self).mapper(),
            *final(final(self).mmu) == *final(old(self).mmu),
            *final(final(self).mmu.cpu) == *final(old(self).mmu.cpu),
            *final(final(self).mmu.ppu) == *final(old(self).mmu.ppu),
    {
        let flags = self.mmu.cpu.registers.flags();
        let taken = match instruction.instruction_type {
            InstructionType::BCC => !flags.carry,
            InstructionType::BCS => flags.carry,
            InstructionType::BNE => !flags.zero,
            InstructionType::BEQ => flags.zero,
            InstructionType::BPL => !flags.negative,
            InstructionType::BMI => flags.negative,
            InstructionType::BVC => !flags.overflow,
            _ => flags.overflow,
        };
        if taken {
            self.jump(instruction.addressing_mode)
        } else {
            Ok(())
        }
    }

    fn jump(&mut self, addressing_mode: AddressingMode) -> (r: Result<(), ExecutionError>)
        ensures
            match branch(old(self).cpu_state(), addressing_mode, true) {
                Ok(cpu) => r is Ok && final(self).cpu_state() == cpu,
                Err(e) => {
                    &&& r == Err::<(), ExecutionError>(e)
                    &&& final(self).cpu_state() == old(self).cpu_state()
                },
            },
            final(self).ppu() == old(self).ppu(),
            final(self).mapper() == old(self).mapper(),
            *final(final(self).mmu) == *final(old(self).mmu),
            *final(final(self).mmu.cpu) == *final(old(self).mmu.cpu),
            *final(final(self).mmu.ppu) == *final(old(self).mmu.ppu),
    {
        match addressing_mode {
            AddressingMode::Relative(jump_offset) => {
                let registers = &mut self.mmu.cpu.registers;
                registers.pc = registers.pc.wrapping_add_signed(jump_offset as i16);
                Ok(())
            },
            _ => Err(ExecutionError::InvalidAddressingMode),
        }
    }

    fn execute_stack(&mut self, instruction: Instruction) -> (r: Result<(), ExecutionError>)
        requires
            instruction.instruction_type is PHA
                || instruction.instruction_type is PHP
                || instruction.instruction_type is PLA
                || instruction.instruction_type is PLP,
        ensures
            reports(
                stack_spec(
                    old(self).cpu_state(),
                    old(self).ppu().registers,
                    old(self).mapper(),
                    instruction,
                ),
                old(self).cpu_state(),
                old(self).ppu(),
                final(self).cpu_state(),
                final(self).ppu(),
                r,
            ),
            final(self).mapper() == old(self).mapper(),
            *final(final(self).mmu) == *final(old(self).mmu),
            *final(final(self).mmu.cpu) == *final(old(self).mmu.cpu),
            *final(final(self).mmu.ppu) == *final(old(self).mmu.ppu),
    {
        match instruction.instruction_type {
            InstructionType::PHA => {
                let value = self.mmu.cpu.registers.a;
                Stack::new(self.mmu.cpu).push(value);
            },
            InstructionType::PHP => {
                let value = self.mmu.cpu.registers.p;
                Stack::new(self.mmu.cpu).push(value);
            },
            InstructionType::PLA => {
                let value = Stack::new(self.mmu.cpu).pop();
                self.mmu.cpu.registers.a = value;
                self.update_zero_and_negative_flags(value);
            },
            _ => {
                let value = Stack::new(self.mmu.cpu).pop();
                self.mmu.cpu.registers.p = value;
            },
        }
        Ok(())
    }

    fn execute_flag(&mut self, instruction: Instruction) -> (r: Result<(), ExecutionError>)
        requires
            instruction.instruction_type is CLC
                || instruction.instruction_type is SEC
                || instruction.instruction_type is CLD
                || instruction.instruction_type is SED
                || instruction.instruction_type is CLI
                || instruction.instruction_type is SEI
                || instruction.instruction_type is CLV
                || instruction.instruction_type is NOP,
        ensures
            reports(
                flag_spec(
                    old(self).cpu_state(),
                    old(self).ppu().registers,
                    old(self).mapper(),
                    instruction,
                ),
                old(self).cpu_state(),
                old(self).ppu(),
                final(self).cpu_state(),
                final(self).ppu(),
                r,
            ),
            final(self).mapper() == old(self).mapper(),
            *final(final(self).mmu) == *final(old(self).mmu),
            *final(final(self).mmu.cpu) == *final(old(self).mmu.cpu),
            *final(final(self).mmu.ppu) == *final(old(self).mmu.ppu),
    {
        let registers = &mut self.mmu.cpu.registers;
        let flags = registers.flags();
        match instruction.instruction_type {
            InstructionType::CLC => registers.set_flags(Flags { carry: false, ..flags }),
            InstructionType::SEC => registers.set_flags(Flags { carry: true, ..flags }),
            InstructionType::CLD => registers.set_flags(Flags { decimal: false, ..flags }),
            InstructionType::SED => registers.set_flags(Flags { decimal: true, ..flags }),
            InstructionType::CLI => registers.set_flags(
                Flags { interrupt_disable: false, ..flags },
            ),
            InstructionType::SEI => registers.set_flags(Flags { interrupt_disable: true, ..flags }),
            InstructionType::CLV => registers.set_flags(Flags { overflow: false, ..flags }),
            _ => {},
        }
        Ok(())
    }

    #[verifier::rlimit(30)]
    fn execute_arithmetic(&mut self, instruction: Instruction) -> (r: Result<(), ExecutionError>)
        requires
            instruction.instruction_type is ADC || instruction.instruction_type is SBC,
        ensures
            reports(
                arithmetic_spec(
                    old(self).cpu_state(),
                    old(self).ppu().registers,
                    old(self).mapper(),
                    instruction,
                ),
                old(self).cpu_state(),
                old(self).ppu(),
                final(self).cpu_state(),
                final(self).ppu(),
                r,
            ),
            final(self).mapper() == old(self).mapper(),
            *final(final(self).mmu) == *final(old(self).mmu),
            *final(final(self).mmu.cpu) == *final(old(self).mmu.cpu),
            *final(final(self).mmu.ppu) == *final(old(self).mmu.ppu),
    {
        let value = match self.read_8_bit_value(instruction) {
            Ok(value) => value,
            Err(e) => return Err(e),
        };
        let old_accumulator = self.mmu.cpu.registers.a;
        let carried: u8 = if self.mmu.cpu.registers.flags().carry {
            1
        } else {
            0
        };
        let new_accumulator;
        let carry;
        if instruction.instruction_type == InstructionType::ADC {
            new_accumulator = old_accumulator.wrapping_add(value).wrapping_add(carried);
            proof {
                lemma_wrapping_arithmetic(old_accumulator, value, carried);
            }
            carry = new_accumulator < old_accumulator;
        } else {
            new_accumulator = old_accumulator.wrapping_sub(value).wrapping_sub(carried);
            proof {
                lemma_wrapping_arithmetic(old_accumulator, value, carried);
            }
            carry = new_accumulator > old_accumulator;
        }
        assert(flags_of(old(self).cpu_state().registers.p).carry <==> carried == 1);
        self.mmu.cpu.registers.a = new_accumulator;
        self.update_flags_after_arithmetic(old_accumulator, value, carry);
        proof {
            let before = old(self).cpu_state();
            let expected = with_registers(
                before,
                with_arithmetic_flags(
                    Registers { a: new_accumulator, ..before.registers },
                    old_accumulator,
                    value,
                    carry,
                ),
            );
            assert(self.cpu_state() == expected);
            assert(arithmetic_spec(before, old(self).ppu().registers, old(self).mapper(), instruction)
                == Ok::<(CpuState, PpuRegisters), ExecutionError>(
                (expected, old(self).ppu().registers),
            ));
        }
        Ok(())
    }
}

} // verus!
