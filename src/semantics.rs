use vstd::prelude::*;

use crate::cpu::{
    add8, full, negative, pack_flags, stack_addr, sub8, with_nz, word, wrap16, Interrupt, Registers,
    StatusFlag, CPU,
};
use crate::instruction::{
    after_operand, effective_address, has_address, has_value, operand_value,
    page_crossed, AddressingMode, Instruction, OpCode, Officiality,
};

verus! {

/// The dispatch table: the opcode that each byte decodes to, `None` where no opcode is defined.
pub open spec fn opcode_table(byte: u8) -> Option<OpCode> {
    match byte {
        0x00 => Some(OpCode(Instruction::BRK, AddressingMode::Implied, Officiality::Official)),
        0x01 => Some(OpCode(Instruction::ORA, AddressingMode::IndexedIndirect, Officiality::Official)),
        0x04 => Some(OpCode(Instruction::IGN, AddressingMode::ZeroPage, Officiality::Unofficial)),
        0x05 => Some(OpCode(Instruction::ORA, AddressingMode::ZeroPage, Officiality::Official)),
        0x06 => Some(OpCode(Instruction::ASL, AddressingMode::ZeroPage, Officiality::Official)),
        0x08 => Some(OpCode(Instruction::PHP, AddressingMode::Implied, Officiality::Official)),
        0x09 => Some(OpCode(Instruction::ORA, AddressingMode::Immediate, Officiality::Official)),
        0x0A => Some(OpCode(Instruction::ASL, AddressingMode::Accumulator, Officiality::Official)),
        0x0C => Some(OpCode(Instruction::IGN, AddressingMode::Absolute, Officiality::Unofficial)),
        0x0D => Some(OpCode(Instruction::ORA, AddressingMode::Absolute, Officiality::Official)),
        0x0E => Some(OpCode(Instruction::ASL, AddressingMode::Absolute, Officiality::Official)),
        0x10 => Some(OpCode(Instruction::BPL, AddressingMode::Relative, Officiality::Official)),
        0x11 => Some(OpCode(Instruction::ORA, AddressingMode::IndirectIndexed, Officiality::Official)),
        0x14 => Some(OpCode(Instruction::IGN, AddressingMode::ZeroPageX, Officiality::Unofficial)),
        0x15 => Some(OpCode(Instruction::ORA, AddressingMode::ZeroPageX, Officiality::Official)),
        0x16 => Some(OpCode(Instruction::ASL, AddressingMode::ZeroPageX, Officiality::Official)),
        0x18 => Some(OpCode(Instruction::CLC, AddressingMode::Implied, Officiality::Official)),
        0x19 => Some(OpCode(Instruction::ORA, AddressingMode::AbsoluteY, Officiality::Official)),
        0x1A => Some(OpCode(Instruction::NOP, AddressingMode::Implied, Officiality::Unofficial)),
        0x1C => Some(OpCode(Instruction::IGN, AddressingMode::AbsoluteX, Officiality::Unofficial)),
        0x1D => Some(OpCode(Instruction::ORA, AddressingMode::AbsoluteX, Officiality::Official)),
        0x1E => Some(OpCode(Instruction::ASL, AddressingMode::AbsoluteX, Officiality::Official)),
        0x20 => Some(OpCode(Instruction::JSR, AddressingMode::Absolute, Officiality::Official)),
        0x21 => Some(OpCode(Instruction::AND, AddressingMode::IndexedIndirect, Officiality::Official)),
        0x24 => Some(OpCode(Instruction::BIT, AddressingMode::ZeroPage, Officiality::Official)),
        0x25 => Some(OpCode(Instruction::AND, AddressingMode::ZeroPage, Officiality::Official)),
        0x26 => Some(OpCode(Instruction::ROL, AddressingMode::ZeroPage, Officiality::Official)),
        0x28 => Some(OpCode(Instruction::PLP, AddressingMode::Implied, Officiality::Official)),
        0x29 => Some(OpCode(Instruction::AND, AddressingMode::Immediate, Officiality::Official)),
        0x2A => Some(OpCode(Instruction::ROL, AddressingMode::Accumulator, Officiality::Official)),
        0x2C => Some(OpCode(Instruction::BIT, AddressingMode::Absolute, Officiality::Official)),
        0x2D => Some(OpCode(Instruction::AND, AddressingMode::Absolute, Officiality::Official)),
        0x2E => Some(OpCode(Instruction::ROL, AddressingMode::Absolute, Officiality::Official)),
        0x30 => Some(OpCode(Instruction::BMI, AddressingMode::Relative, Officiality::Official)),
        0x31 => Some(OpCode(Instruction::AND, AddressingMode::IndirectIndexed, Officiality::Official)),
        0x34 => Some(OpCode(Instruction::IGN, AddressingMode::ZeroPageX, Officiality::Unofficial)),
        0x35 => Some(OpCode(Instruction::AND, AddressingMode::ZeroPageX, Officiality::Official)),
        0x36 => Some(OpCode(Instruction::ROL, AddressingMode::ZeroPageX, Officiality::Official)),
        0x38 => Some(OpCode(Instruction::SEC, AddressingMode::Implied, Officiality::Official)),
        0x39 => Some(OpCode(Instruction::AND, AddressingMode::AbsoluteY, Officiality::Official)),
        0x3A => Some(OpCode(Instruction::NOP, AddressingMode::Implied, Officiality::Unofficial)),
        0x3C => Some(OpCode(Instruction::IGN, AddressingMode::AbsoluteX, Officiality::Unofficial)),
        0x3D => Some(OpCode(Instruction::AND, AddressingMode::AbsoluteX, Officiality::Official)),
        0x3E => Some(OpCode(Instruction::ROL, AddressingMode::AbsoluteX, Officiality::Official)),
        0x40 => Some(OpCode(Instruction::RTI, AddressingMode::Implied, Officiality::Official)),
        0x41 => Some(OpCode(Instruction::EOR, AddressingMode::IndexedIndirect, Officiality::Official)),
        0x44 => Some(OpCode(Instruction::IGN, AddressingMode::ZeroPage, Officiality::Unofficial)),
        0x45 => Some(OpCode(Instruction::EOR, AddressingMode::ZeroPage, Officiality::Official)),
        0x46 => Some(OpCode(Instruction::LSR, AddressingMode::ZeroPage, Officiality::Official)),
        0x48 => Some(OpCode(Instruction::PHA, AddressingMode::Implied, Officiality::Official)),
        0x49 => Some(OpCode(Instruction::EOR, AddressingMode::Immediate, Officiality::Official)),
        0x4A => Some(OpCode(Instruction::LSR, AddressingMode::Accumulator, Officiality::Official)),
        0x4C => Some(OpCode(Instruction::JMP, AddressingMode::Absolute, Officiality::Official)),
        0x4D => Some(OpCode(Instruction::EOR, AddressingMode::Absolute, Officiality::Official)),
        0x4E => Some(OpCode(Instruction::LSR, AddressingMode::Absolute, Officiality::Official)),
        0x50 => Some(OpCode(Instruction::BVC, AddressingMode::Relative, Officiality::Official)),
        0x51 => Some(OpCode(Instruction::EOR, AddressingMode::IndirectIndexed, Officiality::Official)),
        0x54 => Some(OpCode(Instruction::IGN, AddressingMode::ZeroPageX, Officiality::Unofficial)),
        0x55 => Some(OpCode(Instruction::EOR, AddressingMode::ZeroPageX, Officiality::Official)),
        0x56 => Some(OpCode(Instruction::LSR, AddressingMode::ZeroPageX, Officiality::Official)),
        0x58 => Some(OpCode(Instruction::CLI, AddressingMode::Implied, Officiality::Official)),
        0x59 => Some(OpCode(Instruction::EOR, AddressingMode::AbsoluteY, Officiality::Official)),
        0x5A => Some(OpCode(Instruction::NOP, AddressingMode::Implied, Officiality::Unofficial)),
        0x5C => Some(OpCode(Instruction::IGN, AddressingMode::AbsoluteX, Officiality::Unofficial)),
        0x5D => Some(OpCode(Instruction::EOR, AddressingMode::AbsoluteX, Officiality::Official)),
        0x5E => Some(OpCode(Instruction::LSR, AddressingMode::AbsoluteX, Officiality::Official)),
        0x60 => Some(OpCode(Instruction::RTS, AddressingMode::Implied, Officiality::Official)),
        0x61 => Some(OpCode(Instruction::ADC, AddressingMode::IndexedIndirect, Officiality::Official)),
        0x64 => Some(OpCode(Instruction::IGN, AddressingMode::ZeroPage, Officiality::Unofficial)),
        0x65 => Some(OpCode(Instruction::ADC, AddressingMode::ZeroPage, Officiality::Official)),
        0x66 => Some(OpCode(Instruction::ROR, AddressingMode::ZeroPage, Officiality::Official)),
        0x68 => Some(OpCode(Instruction::PLA, AddressingMode::Implied, Officiality::Official)),
        0x69 => Some(OpCode(Instruction::ADC, AddressingMode::Immediate, Officiality::Official)),
        0x6A => Some(OpCode(Instruction::ROR, AddressingMode::Accumulator, Officiality::Official)),
        0x6C => Some(OpCode(Instruction::JMP, AddressingMode::Indirect, Officiality::Official)),
        0x6D => Some(OpCode(Instruction::ADC, AddressingMode::Absolute, Officiality::Official)),
        0x6E => Some(OpCode(Instruction::ROR, AddressingMode::Absolute, Officiality::Official)),
        0x70 => Some(OpCode(Instruction::BVS, AddressingMode::Relative, Officiality::Official)),
        0x71 => Some(OpCode(Instruction::ADC, AddressingMode::IndirectIndexed, Officiality::Official)),
        0x74 => Some(OpCode(Instruction::IGN, AddressingMode::ZeroPageX, Officiality::Unofficial)),
        0x75 => Some(OpCode(Instruction::ADC, AddressingMode::ZeroPageX, Officiality::Official)),
        0x76 => Some(OpCode(Instruction::ROR, AddressingMode::ZeroPageX, Officiality::Official)),
        0x78 => Some(OpCode(Instruction::SEI, AddressingMode::Implied, Officiality::Official)),
        0x79 => Some(OpCode(Instruction::ADC, AddressingMode::AbsoluteY, Officiality::Official)),
        0x7A => Some(OpCode(Instruction::NOP, AddressingMode::Implied, Officiality::Unofficial)),
        0x7C => Some(OpCode(Instruction::IGN, AddressingMode::AbsoluteX, Officiality::Unofficial)),
        0x7D => Some(OpCode(Instruction::ADC, AddressingMode::AbsoluteX, Officiality::Official)),
        0x7E => Some(OpCode(Instruction::ROR, AddressingMode::AbsoluteX, Officiality::Official)),
        0x80 => Some(OpCode(Instruction::SKB, AddressingMode::Immediate, Officiality::Unofficial)),
        0x81 => Some(OpCode(Instruction::STA, AddressingMode::IndexedIndirect, Officiality::Official)),
        0x82 => Some(OpCode(Instruction::SKB, AddressingMode::Immediate, Officiality::Unofficial)),
        0x83 => Some(OpCode(Instruction::SAX, AddressingMode::IndexedIndirect, Officiality::Unofficial)),
        0x84 => Some(OpCode(Instruction::STY, AddressingMode::ZeroPage, Officiality::Official)),
        0x85 => Some(OpCode(Instruction::STA, AddressingMode::ZeroPage, Officiality::Official)),
        0x86 => Some(OpCode(Instruction::STX, AddressingMode::ZeroPage, Officiality::Official)),
        0x87 => Some(OpCode(Instruction::SAX, AddressingMode::ZeroPage, Officiality::Unofficial)),
        0x88 => Some(OpCode(Instruction::DEY, AddressingMode::Implied, Officiality::Official)),
        0x89 => Some(OpCode(Instruction::SKB, AddressingMode::Immediate, Officiality::Unofficial)),
        0x8A => Some(OpCode(Instruction::TXA, AddressingMode::Implied, Officiality::Official)),
        0x8C => Some(OpCode(Instruction::STY, AddressingMode::Absolute, Officiality::Official)),
        0x8D => Some(OpCode(Instruction::STA, AddressingMode::Absolute, Officiality::Official)),
        0x8E => Some(OpCode(Instruction::STX, AddressingMode::Absolute, Officiality::Official)),
        0x8F => Some(OpCode(Instruction::SAX, AddressingMode::Absolute, Officiality::Unofficial)),
        0x90 => Some(OpCode(Instruction::BCC, AddressingMode::Relative, Officiality::Official)),
        0x91 => Some(OpCode(Instruction::STA, AddressingMode::IndirectIndexed, Officiality::Official)),
        0x94 => Some(OpCode(Instruction::STY, AddressingMode::ZeroPageX, Officiality::Official)),
        0x95 => Some(OpCode(Instruction::STA, AddressingMode::ZeroPageX, Officiality::Official)),
        0x96 => Some(OpCode(Instruction::STX, AddressingMode::ZeroPageY, Officiality::Official)),
        0x97 => Some(OpCode(Instruction::SAX, AddressingMode::ZeroPageY, Officiality::Unofficial)),
        0x98 => Some(OpCode(Instruction::TYA, AddressingMode::Implied, Officiality::Official)),
        0x99 => Some(OpCode(Instruction::STA, AddressingMode::AbsoluteY, Officiality::Official)),
        0x9A => Some(OpCode(Instruction::TXS, AddressingMode::Implied, Officiality::Official)),
        0x9D => Some(OpCode(Instruction::STA, AddressingMode::AbsoluteX, Officiality::Official)),
        0xA0 => Some(OpCode(Instruction::LDY, AddressingMode::Immediate, Officiality::Official)),
        0xA1 => Some(OpCode(Instruction::LDA, AddressingMode::IndexedIndirect, Officiality::Official)),
        0xA2 => Some(OpCode(Instruction::LDX, AddressingMode::Immediate, Officiality::Official)),
        0xA3 => Some(OpCode(Instruction::LAX, AddressingMode::IndexedIndirect, Officiality::Unofficial)),
        0xA4 => Some(OpCode(Instruction::LDY, AddressingMode::ZeroPage, Officiality::Official)),
        0xA5 => Some(OpCode(Instruction::LDA, AddressingMode::ZeroPage, Officiality::Official)),
        0xA6 => Some(OpCode(Instruction::LDX, AddressingMode::ZeroPage, Officiality::Official)),
        0xA7 => Some(OpCode(Instruction::LAX, AddressingMode::ZeroPage, Officiality::Unofficial)),
        0xA8 => Some(OpCode(Instruction::TAY, AddressingMode::Implied, Officiality::Official)),
        0xA9 => Some(OpCode(Instruction::LDA, AddressingMode::Immediate, Officiality::Official)),
        0xAA => Some(OpCode(Instruction::TAX, AddressingMode::Implied, Officiality::Official)),
        0xAC => Some(OpCode(Instruction::LDY, AddressingMode::Absolute, Officiality::Official)),
        0xAD => Some(OpCode(Instruction::LDA, AddressingMode::Absolute, Officiality::Official)),
        0xAE => Some(OpCode(Instruction::LDX, AddressingMode::Absolute, Officiality::Official)),
        0xAF => Some(OpCode(Instruction::LAX, AddressingMode::Absolute, Officiality::Unofficial)),
        0xB0 => Some(OpCode(Instruction::BCS, AddressingMode::Relative, Officiality::Official)),
        0xB1 => Some(OpCode(Instruction::LDA, AddressingMode::IndirectIndexed, Officiality::Official)),
        0xB3 => Some(OpCode(Instruction::LAX, AddressingMode::IndirectIndexed, Officiality::Unofficial)),
        0xB4 => Some(OpCode(Instruction::LDY, AddressingMode::ZeroPageX, Officiality::Official)),
        0xB5 => Some(OpCode(Instruction::LDA, AddressingMode::ZeroPageX, Officiality::Official)),
        0xB6 => Some(OpCode(Instruction::LDX, AddressingMode::ZeroPageY, Officiality::Official)),
        0xB7 => Some(OpCode(Instruction::LAX, AddressingMode::ZeroPageY, Officiality::Unofficial)),
        0xB8 => Some(OpCode(Instruction::CLV, AddressingMode::Implied, Officiality::Official)),
        0xB9 => Some(OpCode(Instruction::LDA, AddressingMode::AbsoluteY, Officiality::Official)),
        0xBA => Some(OpCode(Instruction::TSX, AddressingMode::Implied, Officiality::Official)),
        0xBC => Some(OpCode(Instruction::LDY, AddressingMode::AbsoluteX, Officiality::Official)),
        0xBD => Some(OpCode(Instruction::LDA, AddressingMode::AbsoluteX, Officiality::Official)),
        0xBE => Some(OpCode(Instruction::LDX, AddressingMode::AbsoluteY, Officiality::Official)),
        0xBF => Some(OpCode(Instruction::LAX, AddressingMode::AbsoluteY, Officiality::Unofficial)),
        0xC0 => Some(OpCode(Instruction::CPY, AddressingMode::Immediate, Officiality::Official)),
        0xC1 => Some(OpCode(Instruction::CMP, AddressingMode::IndexedIndirect, Officiality::Official)),
        0xC2 => Some(OpCode(Instruction::SKB, AddressingMode::Immediate, Officiality::Unofficial)),
        0xC3 => Some(OpCode(Instruction::DCP, AddressingMode::IndexedIndirect, Officiality::Unofficial)),
        0xC4 => Some(OpCode(Instruction::CPY, AddressingMode::ZeroPage, Officiality::Official)),
        0xC5 => Some(OpCode(Instruction::CMP, AddressingMode::ZeroPage, Officiality::Official)),
        0xC6 => Some(OpCode(Instruction::DEC, AddressingMode::ZeroPage, Officiality::Official)),
        0xC7 => Some(OpCode(Instruction::DCP, AddressingMode::ZeroPage, Officiality::Unofficial)),
        0xC8 => Some(OpCode(Instruction::INY, AddressingMode::Implied, Officiality::Official)),
        0xC9 => Some(OpCode(Instruction::CMP, AddressingMode::Immediate, Officiality::Official)),
        0xCA => Some(OpCode(Instruction::DEX, AddressingMode::Implied, Officiality::Official)),
        0xCC => Some(OpCode(Instruction::CPY, AddressingMode::Absolute, Officiality::Official)),
        0xCD => Some(OpCode(Instruction::CMP, AddressingMode::Absolute, Officiality::Official)),
        0xCE => Some(OpCode(Instruction::DEC, AddressingMode::Absolute, Officiality::Official)),
        0xCF => Some(OpCode(Instruction::DCP, AddressingMode::Absolute, Officiality::Unofficial)),
        0xD0 => Some(OpCode(Instruction::BNE, AddressingMode::Relative, Officiality::Official)),
        0xD1 => Some(OpCode(Instruction::CMP, AddressingMode::IndirectIndexed, Officiality::Official)),
        0xD3 => Some(OpCode(Instruction::DCP, AddressingMode::IndirectIndexed, Officiality::Unofficial)),
        0xD4 => Some(OpCode(Instruction::IGN, AddressingMode::ZeroPageX, Officiality::Unofficial)),
        0xD5 => Some(OpCode(Instruction::CMP, AddressingMode::ZeroPageX, Officiality::Official)),
        0xD6 => Some(OpCode(Instruction::DEC, AddressingMode::ZeroPageX, Officiality::Official)),
        0xD7 => Some(OpCode(Instruction::DCP, AddressingMode::ZeroPageX, Officiality::Unofficial)),
        0xD8 => Some(OpCode(Instruction::CLD, AddressingMode::Implied, Officiality::Official)),
        0xD9 => Some(OpCode(Instruction::CMP, AddressingMode::AbsoluteY, Officiality::Official)),
        0xDA => Some(OpCode(Instruction::NOP, AddressingMode::Implied, Officiality::Unofficial)),
        0xDB => Some(OpCode(Instruction::DCP, AddressingMode::AbsoluteY, Officiality::Unofficial)),
        0xDC => Some(OpCode(Instruction::IGN, AddressingMode::AbsoluteX, Officiality::Unofficial)),
        0xDD => Some(OpCode(Instruction::CMP, AddressingMode::AbsoluteX, Officiality::Official)),
        0xDE => Some(OpCode(Instruction::DEC, AddressingMode::AbsoluteX, Officiality::Official)),
        0xDF => Some(OpCode(Instruction::DCP, AddressingMode::AbsoluteX, Officiality::Unofficial)),
        0xE0 => Some(OpCode(Instruction::CPX, AddressingMode::Immediate, Officiality::Official)),
        0xE1 => Some(OpCode(Instruction::SBC, AddressingMode::IndexedIndirect, Officiality::Official)),
        0xE2 => Some(OpCode(Instruction::SKB, AddressingMode::Immediate, Officiality::Unofficial)),
        0xE4 => Some(OpCode(Instruction::CPX, AddressingMode::ZeroPage, Officiality::Official)),
        0xE5 => Some(OpCode(Instruction::SBC, AddressingMode::ZeroPage, Officiality::Official)),
        0xE6 => Some(OpCode(Instruction::INC, AddressingMode::ZeroPage, Officiality::Official)),
        0xE8 => Some(OpCode(Instruction::INX, AddressingMode::Implied, Officiality::Official)),
        0xE9 => Some(OpCode(Instruction::SBC, AddressingMode::Immediate, Officiality::Official)),
        0xEA => Some(OpCode(Instruction::NOP, AddressingMode::Implied, Officiality::Official)),
        0xEB => Some(OpCode(Instruction::SBC, AddressingMode::Immediate, Officiality::Unofficial)),
        0xEC => Some(OpCode(Instruction::CPX, AddressingMode::Absolute, Officiality::Official)),
        0xED => Some(OpCode(Instruction::SBC, AddressingMode::Absolute, Officiality::Official)),
        0xEE => Some(OpCode(Instruction::INC, AddressingMode::Absolute, Officiality::Official)),
        0xF0 => Some(OpCode(Instruction::BEQ, AddressingMode::Relative, Officiality::Official)),
        0xF1 => Some(OpCode(Instruction::SBC, AddressingMode::IndirectIndexed, Officiality::Official)),
        0xF4 => Some(OpCode(Instruction::IGN, AddressingMode::ZeroPageX, Officiality::Unofficial)),
        0xF5 => Some(OpCode(Instruction::SBC, AddressingMode::ZeroPageX, Officiality::Official)),
        0xF6 => Some(OpCode(Instruction::INC, AddressingMode::ZeroPageX, Officiality::Official)),
        0xF8 => Some(OpCode(Instruction::SED, AddressingMode::Implied, Officiality::Official)),
        0xF9 => Some(OpCode(Instruction::SBC, AddressingMode::AbsoluteY, Officiality::Official)),
        0xFA => Some(OpCode(Instruction::NOP, AddressingMode::Implied, Officiality::Unofficial)),
        0xFC => Some(OpCode(Instruction::IGN, AddressingMode::AbsoluteX, Officiality::Unofficial)),
        0xFD => Some(OpCode(Instruction::SBC, AddressingMode::AbsoluteX, Officiality::Official)),
        0xFE => Some(OpCode(Instruction::INC, AddressingMode::AbsoluteX, Officiality::Official)),
        _ => None,
    }
}

/// Decodes an opcode byte by the dispatch table.
pub fn decode(byte: u8) -> (op: Option<OpCode>)
    ensures
        op == opcode_table(byte),
{
    match byte {
        0x00 => Some(OpCode(Instruction::BRK, AddressingMode::Implied, Officiality::Official)),
        0x01 => Some(OpCode(Instruction::ORA, AddressingMode::IndexedIndirect, Officiality::Official)),
        0x04 => Some(OpCode(Instruction::IGN, AddressingMode::ZeroPage, Officiality::Unofficial)),
        0x05 => Some(OpCode(Instruction::ORA, AddressingMode::ZeroPage, Officiality::Official)),
        0x06 => Some(OpCode(Instruction::ASL, AddressingMode::ZeroPage, Officiality::Official)),
        0x08 => Some(OpCode(Instruction::PHP, AddressingMode::Implied, Officiality::Official)),
        0x09 => Some(OpCode(Instruction::ORA, AddressingMode::Immediate, Officiality::Official)),
        0x0A => Some(OpCode(Instruction::ASL, AddressingMode::Accumulator, Officiality::Official)),
        0x0C => Some(OpCode(Instruction::IGN, AddressingMode::Absolute, Officiality::Unofficial)),
        0x0D => Some(OpCode(Instruction::ORA, AddressingMode::Absolute, Officiality::Official)),
        0x0E => Some(OpCode(Instruction::ASL, AddressingMode::Absolute, Officiality::Official)),
        0x10 => Some(OpCode(Instruction::BPL, AddressingMode::Relative, Officiality::Official)),
        0x11 => Some(OpCode(Instruction::ORA, AddressingMode::IndirectIndexed, Officiality::Official)),
        0x14 => Some(OpCode(Instruction::IGN, AddressingMode::ZeroPageX, Officiality::Unofficial)),
        0x15 => Some(OpCode(Instruction::ORA, AddressingMode::ZeroPageX, Officiality::Official)),
        0x16 => Some(OpCode(Instruction::ASL, AddressingMode::ZeroPageX, Officiality::Official)),
        0x18 => Some(OpCode(Instruction::CLC, AddressingMode::Implied, Officiality::Official)),
        0x19 => Some(OpCode(Instruction::ORA, AddressingMode::AbsoluteY, Officiality::Official)),
        0x1A => Some(OpCode(Instruction::NOP, AddressingMode::Implied, Officiality::Unofficial)),
        0x1C => Some(OpCode(Instruction::IGN, AddressingMode::AbsoluteX, Officiality::Unofficial)),
        0x1D => Some(OpCode(Instruction::ORA, AddressingMode::AbsoluteX, Officiality::Official)),
        0x1E => Some(OpCode(Instruction::ASL, AddressingMode::AbsoluteX, Officiality::Official)),
        0x20 => Some(OpCode(Instruction::JSR, AddressingMode::Absolute, Officiality::Official)),
        0x21 => Some(OpCode(Instruction::AND, AddressingMode::IndexedIndirect, Officiality::Official)),
        0x24 => Some(OpCode(Instruction::BIT, AddressingMode::ZeroPage, Officiality::Official)),
        0x25 => Some(OpCode(Instruction::AND, AddressingMode::ZeroPage, Officiality::Official)),
        0x26 => Some(OpCode(Instruction::ROL, AddressingMode::ZeroPage, Officiality::Official)),
        0x28 => Some(OpCode(Instruction::PLP, AddressingMode::Implied, Officiality::Official)),
        0x29 => Some(OpCode(Instruction::AND, AddressingMode::Immediate, Officiality::Official)),
        0x2A => Some(OpCode(Instruction::ROL, AddressingMode::Accumulator, Officiality::Official)),
        0x2C => Some(OpCode(Instruction::BIT, AddressingMode::Absolute, Officiality::Official)),
        0x2D => Some(OpCode(Instruction::AND, AddressingMode::Absolute, Officiality::Official)),
        0x2E => Some(OpCode(Instruction::ROL, AddressingMode::Absolute, Officiality::Official)),
        0x30 => Some(OpCode(Instruction::BMI, AddressingMode::Relative, Officiality::Official)),
        0x31 => Some(OpCode(Instruction::AND, AddressingMode::IndirectIndexed, Officiality::Official)),
        0x34 => Some(OpCode(Instruction::IGN, AddressingMode::ZeroPageX, Officiality::Unofficial)),
        0x35 => Some(OpCode(Instruction::AND, AddressingMode::ZeroPageX, Officiality::Official)),
        0x36 => Some(OpCode(Instruction::ROL, AddressingMode::ZeroPageX, Officiality::Official)),
        0x38 => Some(OpCode(Instruction::SEC, AddressingMode::Implied, Officiality::Official)),
        0x39 => Some(OpCode(Instruction::AND, AddressingMode::AbsoluteY, Officiality::Official)),
        0x3A => Some(OpCode(Instruction::NOP, AddressingMode::Implied, Officiality::Unofficial)),
        0x3C => Some(OpCode(Instruction::IGN, AddressingMode::AbsoluteX, Officiality::Unofficial)),
        0x3D => Some(OpCode(Instruction::AND, AddressingMode::AbsoluteX, Officiality::Official)),
        0x3E => Some(OpCode(Instruction::ROL, AddressingMode::AbsoluteX, Officiality::Official)),
        0x40 => Some(OpCode(Instruction::RTI, AddressingMode::Implied, Officiality::Official)),
        0x41 => Some(OpCode(Instruction::EOR, AddressingMode::IndexedIndirect, Officiality::Official)),
        0x44 => Some(OpCode(Instruction::IGN, AddressingMode::ZeroPage, Officiality::Unofficial)),
        0x45 => Some(OpCode(Instruction::EOR, AddressingMode::ZeroPage, Officiality::Official)),
        0x46 => Some(OpCode(Instruction::LSR, AddressingMode::ZeroPage, Officiality::Official)),
        0x48 => Some(OpCode(Instruction::PHA, AddressingMode::Implied, Officiality::Official)),
        0x49 => Some(OpCode(Instruction::EOR, AddressingMode::Immediate, Officiality::Official)),
        0x4A => Some(OpCode(Instruction::LSR, AddressingMode::Accumulator, Officiality::Official)),
        0x4C => Some(OpCode(Instruction::JMP, AddressingMode::Absolute, Officiality::Official)),
        0x4D => Some(OpCode(Instruction::EOR, AddressingMode::Absolute, Officiality::Official)),
        0x4E => Some(OpCode(Instruction::LSR, AddressingMode::Absolute, Officiality::Official)),
        0x50 => Some(OpCode(Instruction::BVC, AddressingMode::Relative, Officiality::Official)),
        0x51 => Some(OpCode(Instruction::EOR, AddressingMode::IndirectIndexed, Officiality::Official)),
        0x54 => Some(OpCode(Instruction::IGN, AddressingMode::ZeroPageX, Officiality::Unofficial)),
        0x55 => Some(OpCode(Instruction::EOR, AddressingMode::ZeroPageX, Officiality::Official)),
        0x56 => Some(OpCode(Instruction::LSR, AddressingMode::ZeroPageX, Officiality::Official)),
        0x58 => Some(OpCode(Instruction::CLI, AddressingMode::Implied, Officiality::Official)),
        0x59 => Some(OpCode(Instruction::EOR, AddressingMode::AbsoluteY, Officiality::Official)),
        0x5A => Some(OpCode(Instruction::NOP, AddressingMode::Implied, Officiality::Unofficial)),
        0x5C => Some(OpCode(Instruction::IGN, AddressingMode::AbsoluteX, Officiality::Unofficial)),
        0x5D => Some(OpCode(Instruction::EOR, AddressingMode::AbsoluteX, Officiality::Official)),
        0x5E => Some(OpCode(Instruction::LSR, AddressingMode::AbsoluteX, Officiality::Official)),
        0x60 => Some(OpCode(Instruction::RTS, AddressingMode::Implied, Officiality::Official)),
        0x61 => Some(OpCode(Instruction::ADC, AddressingMode::IndexedIndirect, Officiality::Official)),
        0x64 => Some(OpCode(Instruction::IGN, AddressingMode::ZeroPage, Officiality::Unofficial)),
        0x65 => Some(OpCode(Instruction::ADC, AddressingMode::ZeroPage, Officiality::Official)),
        0x66 => Some(OpCode(Instruction::ROR, AddressingMode::ZeroPage, Officiality::Official)),
        0x68 => Some(OpCode(Instruction::PLA, AddressingMode::Implied, Officiality::Official)),
        0x69 => Some(OpCode(Instruction::ADC, AddressingMode::Immediate, Officiality::Official)),
        0x6A => Some(OpCode(Instruction::ROR, AddressingMode::Accumulator, Officiality::Official)),
        0x6C => Some(OpCode(Instruction::JMP, AddressingMode::Indirect, Officiality::Official)),
        0x6D => Some(OpCode(Instruction::ADC, AddressingMode::Absolute, Officiality::Official)),
        0x6E => Some(OpCode(Instruction::ROR, AddressingMode::Absolute, Officiality::Official)),
        0x70 => Some(OpCode(Instruction::BVS, AddressingMode::Relative, Officiality::Official)),
        0x71 => Some(OpCode(Instruction::ADC, AddressingMode::IndirectIndexed, Officiality::Official)),
        0x74 => Some(OpCode(Instruction::IGN, AddressingMode::ZeroPageX, Officiality::Unofficial)),
        0x75 => Some(OpCode(Instruction::ADC, AddressingMode::ZeroPageX, Officiality::Official)),
        0x76 => Some(OpCode(Instruction::ROR, AddressingMode::ZeroPageX, Officiality::Official)),
        0x78 => Some(OpCode(Instruction::SEI, AddressingMode::Implied, Officiality::Official)),
        0x79 => Some(OpCode(Instruction::ADC, AddressingMode::AbsoluteY, Officiality::Official)),
        0x7A => Some(OpCode(Instruction::NOP, AddressingMode::Implied, Officiality::Unofficial)),
        0x7C => Some(OpCode(Instruction::IGN, AddressingMode::AbsoluteX, Officiality::Unofficial)),
        0x7D => Some(OpCode(Instruction::ADC, AddressingMode::AbsoluteX, Officiality::Official)),
        0x7E => Some(OpCode(Instruction::ROR, AddressingMode::AbsoluteX, Officiality::Official)),
        0x80 => Some(OpCode(Instruction::SKB, AddressingMode::Immediate, Officiality::Unofficial)),
        0x81 => Some(OpCode(Instruction::STA, AddressingMode::IndexedIndirect, Officiality::Official)),
        0x82 => Some(OpCode(Instruction::SKB, AddressingMode::Immediate, Officiality::Unofficial)),
        0x83 => Some(OpCode(Instruction::SAX, AddressingMode::IndexedIndirect, Officiality::Unofficial)),
        0x84 => Some(OpCode(Instruction::STY, AddressingMode::ZeroPage, Officiality::Official)),
        0x85 => Some(OpCode(Instruction::STA, AddressingMode::ZeroPage, Officiality::Official)),
        0x86 => Some(OpCode(Instruction::STX, AddressingMode::ZeroPage, Officiality::Official)),
        0x87 => Some(OpCode(Instruction::SAX, AddressingMode::ZeroPage, Officiality::Unofficial)),
        0x88 => Some(OpCode(Instruction::DEY, AddressingMode::Implied, Officiality::Official)),
        0x89 => Some(OpCode(Instruction::SKB, AddressingMode::Immediate, Officiality::Unofficial)),
        0x8A => Some(OpCode(Instruction::TXA, AddressingMode::Implied, Officiality::Official)),
        0x8C => Some(OpCode(Instruction::STY, AddressingMode::Absolute, Officiality::Official)),
        0x8D => Some(OpCode(Instruction::STA, AddressingMode::Absolute, Officiality::Official)),
        0x8E => Some(OpCode(Instruction::STX, AddressingMode::Absolute, Officiality::Official)),
        0x8F => Some(OpCode(Instruction::SAX, AddressingMode::Absolute, Officiality::Unofficial)),
        0x90 => Some(OpCode(Instruction::BCC, AddressingMode::Relative, Officiality::Official)),
        0x91 => Some(OpCode(Instruction::STA, AddressingMode::IndirectIndexed, Officiality::Official)),
        0x94 => Some(OpCode(Instruction::STY, AddressingMode::ZeroPageX, Officiality::Official)),
        0x95 => Some(OpCode(Instruction::STA, AddressingMode::ZeroPageX, Officiality::Official)),
        0x96 => Some(OpCode(Instruction::STX, AddressingMode::ZeroPageY, Officiality::Official)),
        0x97 => Some(OpCode(Instruction::SAX, AddressingMode::ZeroPageY, Officiality::Unofficial)),
        0x98 => Some(OpCode(Instruction::TYA, AddressingMode::Implied, Officiality::Official)),
        0x99 => Some(OpCode(Instruction::STA, AddressingMode::AbsoluteY, Officiality::Official)),
        0x9A => Some(OpCode(Instruction::TXS, AddressingMode::Implied, Officiality::Official)),
        0x9D => Some(OpCode(Instruction::STA, AddressingMode::AbsoluteX, Officiality::Official)),
        0xA0 => Some(OpCode(Instruction::LDY, AddressingMode::Immediate, Officiality::Official)),
        0xA1 => Some(OpCode(Instruction::LDA, AddressingMode::IndexedIndirect, Officiality::Official)),
        0xA2 => Some(OpCode(Instruction::LDX, AddressingMode::Immediate, Officiality::Official)),
        0xA3 => Some(OpCode(Instruction::LAX, AddressingMode::IndexedIndirect, Officiality::Unofficial)),
        0xA4 => Some(OpCode(Instruction::LDY, AddressingMode::ZeroPage, Officiality::Official)),
        0xA5 => Some(OpCode(Instruction::LDA, AddressingMode::ZeroPage, Officiality::Official)),
        0xA6 => Some(OpCode(Instruction::LDX, AddressingMode::ZeroPage, Officiality::Official)),
        0xA7 => Some(OpCode(Instruction::LAX, AddressingMode::ZeroPage, Officiality::Unofficial)),
        0xA8 => Some(OpCode(Instruction::TAY, AddressingMode::Implied, Officiality::Official)),
        0xA9 => Some(OpCode(Instruction::LDA, AddressingMode::Immediate, Officiality::Official)),
        0xAA => Some(OpCode(Instruction::TAX, AddressingMode::Implied, Officiality::Official)),
        0xAC => Some(OpCode(Instruction::LDY, AddressingMode::Absolute, Officiality::Official)),
        0xAD => Some(OpCode(Instruction::LDA, AddressingMode::Absolute, Officiality::Official)),
        0xAE => Some(OpCode(Instruction::LDX, AddressingMode::Absolute, Officiality::Official)),
        0xAF => Some(OpCode(Instruction::LAX, AddressingMode::Absolute, Officiality::Unofficial)),
        0xB0 => Some(OpCode(Instruction::BCS, AddressingMode::Relative, Officiality::Official)),
        0xB1 => Some(OpCode(Instruction::LDA, AddressingMode::IndirectIndexed, Officiality::Official)),
        0xB3 => Some(OpCode(Instruction::LAX, AddressingMode::IndirectIndexed, Officiality::Unofficial)),
        0xB4 => Some(OpCode(Instruction::LDY, AddressingMode::ZeroPageX, Officiality::Official)),
        0xB5 => Some(OpCode(Instruction::LDA, AddressingMode::ZeroPageX, Officiality::Official)),
        0xB6 => Some(OpCode(Instruction::LDX, AddressingMode::ZeroPageY, Officiality::Official)),
        0xB7 => Some(OpCode(Instruction::LAX, AddressingMode::ZeroPageY, Officiality::Unofficial)),
        0xB8 => Some(OpCode(Instruction::CLV, AddressingMode::Implied, Officiality::Official)),
        0xB9 => Some(OpCode(Instruction::LDA, AddressingMode::AbsoluteY, Officiality::Official)),
        0xBA => Some(OpCode(Instruction::TSX, AddressingMode::Implied, Officiality::Official)),
        0xBC => Some(OpCode(Instruction::LDY, AddressingMode::AbsoluteX, Officiality::Official)),
        0xBD => Some(OpCode(Instruction::LDA, AddressingMode::AbsoluteX, Officiality::Official)),
        0xBE => Some(OpCode(Instruction::LDX, AddressingMode::AbsoluteY, Officiality::Official)),
        0xBF => Some(OpCode(Instruction::LAX, AddressingMode::AbsoluteY, Officiality::Unofficial)),
        0xC0 => Some(OpCode(Instruction::CPY, AddressingMode::Immediate, Officiality::Official)),
        0xC1 => Some(OpCode(Instruction::CMP, AddressingMode::IndexedIndirect, Officiality::Official)),
        0xC2 => Some(OpCode(Instruction::SKB, AddressingMode::Immediate, Officiality::Unofficial)),
        0xC3 => Some(OpCode(Instruction::DCP, AddressingMode::IndexedIndirect, Officiality::Unofficial)),
        0xC4 => Some(OpCode(Instruction::CPY, AddressingMode::ZeroPage, Officiality::Official)),
        0xC5 => Some(OpCode(Instruction::CMP, AddressingMode::ZeroPage, Officiality::Official)),
        0xC6 => Some(OpCode(Instruction::DEC, AddressingMode::ZeroPage, Officiality::Official)),
        0xC7 => Some(OpCode(Instruction::DCP, AddressingMode::ZeroPage, Officiality::Unofficial)),
        0xC8 => Some(OpCode(Instruction::INY, AddressingMode::Implied, Officiality::Official)),
        0xC9 => Some(OpCode(Instruction::CMP, AddressingMode::Immediate, Officiality::Official)),
        0xCA => Some(OpCode(Instruction::DEX, AddressingMode::Implied, Officiality::Official)),
        0xCC => Some(OpCode(Instruction::CPY, AddressingMode::Absolute, Officiality::Official)),
        0xCD => Some(OpCode(Instruction::CMP, AddressingMode::Absolute, Officiality::Official)),
        0xCE => Some(OpCode(Instruction::DEC, AddressingMode::Absolute, Officiality::Official)),
        0xCF => Some(OpCode(Instruction::DCP, AddressingMode::Absolute, Officiality::Unofficial)),
        0xD0 => Some(OpCode(Instruction::BNE, AddressingMode::Relative, Officiality::Official)),
        0xD1 => Some(OpCode(Instruction::CMP, AddressingMode::IndirectIndexed, Officiality::Official)),
        0xD3 => Some(OpCode(Instruction::DCP, AddressingMode::IndirectIndexed, Officiality::Unofficial)),
        0xD4 => Some(OpCode(Instruction::IGN, AddressingMode::ZeroPageX, Officiality::Unofficial)),
        0xD5 => Some(OpCode(Instruction::CMP, AddressingMode::ZeroPageX, Officiality::Official)),
        0xD6 => Some(OpCode(Instruction::DEC, AddressingMode::ZeroPageX, Officiality::Official)),
        0xD7 => Some(OpCode(Instruction::DCP, AddressingMode::ZeroPageX, Officiality::Unofficial)),
        0xD8 => Some(OpCode(Instruction::CLD, AddressingMode::Implied, Officiality::Official)),
        0xD9 => Some(OpCode(Instruction::CMP, AddressingMode::AbsoluteY, Officiality::Official)),
        0xDA => Some(OpCode(Instruction::NOP, AddressingMode::Implied, Officiality::Unofficial)),
        0xDB => Some(OpCode(Instruction::DCP, AddressingMode::AbsoluteY, Officiality::Unofficial)),
        0xDC => Some(OpCode(Instruction::IGN, AddressingMode::AbsoluteX, Officiality::Unofficial)),
        0xDD => Some(OpCode(Instruction::CMP, AddressingMode::AbsoluteX, Officiality::Official)),
        0xDE => Some(OpCode(Instruction::DEC, AddressingMode::AbsoluteX, Officiality::Official)),
        0xDF => Some(OpCode(Instruction::DCP, AddressingMode::AbsoluteX, Officiality::Unofficial)),
        0xE0 => Some(OpCode(Instruction::CPX, AddressingMode::Immediate, Officiality::Official)),
        0xE1 => Some(OpCode(Instruction::SBC, AddressingMode::IndexedIndirect, Officiality::Official)),
        0xE2 => Some(OpCode(Instruction::SKB, AddressingMode::Immediate, Officiality::Unofficial)),
        0xE4 => Some(OpCode(Instruction::CPX, AddressingMode::ZeroPage, Officiality::Official)),
        0xE5 => Some(OpCode(Instruction::SBC, AddressingMode::ZeroPage, Officiality::Official)),
        0xE6 => Some(OpCode(Instruction::INC, AddressingMode::ZeroPage, Officiality::Official)),
        0xE8 => Some(OpCode(Instruction::INX, AddressingMode::Implied, Officiality::Official)),
        0xE9 => Some(OpCode(Instruction::SBC, AddressingMode::Immediate, Officiality::Official)),
        0xEA => Some(OpCode(Instruction::NOP, AddressingMode::Implied, Officiality::Official)),
        0xEB => Some(OpCode(Instruction::SBC, AddressingMode::Immediate, Officiality::Unofficial)),
        0xEC => Some(OpCode(Instruction::CPX, AddressingMode::Absolute, Officiality::Official)),
        0xED => Some(OpCode(Instruction::SBC, AddressingMode::Absolute, Officiality::Official)),
        0xEE => Some(OpCode(Instruction::INC, AddressingMode::Absolute, Officiality::Official)),
        0xF0 => Some(OpCode(Instruction::BEQ, AddressingMode::Relative, Officiality::Official)),
        0xF1 => Some(OpCode(Instruction::SBC, AddressingMode::IndirectIndexed, Officiality::Official)),
        0xF4 => Some(OpCode(Instruction::IGN, AddressingMode::ZeroPageX, Officiality::Unofficial)),
        0xF5 => Some(OpCode(Instruction::SBC, AddressingMode::ZeroPageX, Officiality::Official)),
        0xF6 => Some(OpCode(Instruction::INC, AddressingMode::ZeroPageX, Officiality::Official)),
        0xF8 => Some(OpCode(Instruction::SED, AddressingMode::Implied, Officiality::Official)),
        0xF9 => Some(OpCode(Instruction::SBC, AddressingMode::AbsoluteY, Officiality::Official)),
        0xFA => Some(OpCode(Instruction::NOP, AddressingMode::Implied, Officiality::Unofficial)),
        0xFC => Some(OpCode(Instruction::IGN, AddressingMode::AbsoluteX, Officiality::Unofficial)),
        0xFD => Some(OpCode(Instruction::SBC, AddressingMode::AbsoluteX, Officiality::Official)),
        0xFE => Some(OpCode(Instruction::INC, AddressingMode::AbsoluteX, Officiality::Official)),
        _ => None,
    }
}

/// Instructions that consume an operand value.
pub open spec fn reads_operand(ins: Instruction) -> bool {
    match ins {
        Instruction::LDA | Instruction::LDX | Instruction::LDY | Instruction::LAX | Instruction::AND
        | Instruction::EOR | Instruction::ORA | Instruction::BIT | Instruction::ADC | Instruction::SBC
        | Instruction::CMP | Instruction::CPX | Instruction::CPY | Instruction::SKB | Instruction::IGN => true,
        _ => false,
    }
}

/// Instructions that only store a register to memory.
pub open spec fn stores_operand(ins: Instruction) -> bool {
    match ins {
        Instruction::STA | Instruction::STX | Instruction::STY | Instruction::SAX => true,
        _ => false,
    }
}

/// Instructions that read, modify and write back a memory byte.
pub open spec fn modifies_operand(ins: Instruction) -> bool {
    match ins {
        Instruction::INC | Instruction::DEC | Instruction::DCP | Instruction::ASL | Instruction::LSR
        | Instruction::ROL | Instruction::ROR => true,
        _ => false,
    }
}

/// The conditional branches.
pub open spec fn is_branch(ins: Instruction) -> bool {
    match ins {
        Instruction::BCC | Instruction::BCS | Instruction::BNE | Instruction::BEQ | Instruction::BPL
        | Instruction::BMI | Instruction::BVC | Instruction::BVS => true,
        _ => false,
    }
}

/// The shifts and rotations, which also work on the accumulator.
pub open spec fn is_shift(ins: Instruction) -> bool {
    match ins {
        Instruction::ASL | Instruction::LSR | Instruction::ROL | Instruction::ROR => true,
        _ => false,
    }
}

/// Whether the addressing mode suits the instruction: an operand value for those that
/// consume one, an address for those that store, modify or jump.
pub open spec fn fits(op: OpCode) -> bool {
    if reads_operand(op.0) {
        has_value(op.1)
    } else if is_shift(op.0) {
        op.1 is Accumulator || has_data_address(op.1)
    } else if stores_operand(op.0) || modifies_operand(op.0) {
        has_data_address(op.1)
    } else if is_branch(op.0) {
        op.1 is Relative
    } else if op.0 is JMP {
        op.1 is Absolute || op.1 is Indirect
    } else if op.0 is JSR {
        op.1 is Absolute
    } else {
        true
    }
}

/// Whether the mode names a data byte in memory (not a jump target).
pub open spec fn has_data_address(mode: AddressingMode) -> bool {
    has_address(mode) && !(mode is Relative) && !(mode is Indirect)
}

/// Whether a branch instruction's condition holds.
pub open spec fn branch_taken(ins: Instruction, f: StatusFlag) -> bool {
    match ins {
        Instruction::BCC => !f.c,
        Instruction::BCS => f.c,
        Instruction::BNE => !f.z,
        Instruction::BEQ => f.z,
        Instruction::BPL => !f.n,
        Instruction::BMI => f.n,
        Instruction::BVC => !f.v,
        Instruction::BVS => f.v,
        _ => false,
    }
}

/// The documented cycle count of an opcode, its opcode fetch included, before any penalty.
pub open spec fn base_cycles(ins: Instruction, mode: AddressingMode) -> nat {
    if reads_operand(ins) {
        match mode {
            AddressingMode::Immediate => 2,
            AddressingMode::ZeroPage => 3,
            AddressingMode::ZeroPageX | AddressingMode::ZeroPageY => 4,
            AddressingMode::Absolute | AddressingMode::AbsoluteX | AddressingMode::AbsoluteY => 4,
            AddressingMode::IndexedIndirect => 6,
            AddressingMode::IndirectIndexed => 5,
            _ => 1,
        }
    } else if stores_operand(ins) {
        match mode {
            AddressingMode::ZeroPage => 3,
            AddressingMode::ZeroPageX | AddressingMode::ZeroPageY | AddressingMode::Absolute => 4,
            AddressingMode::AbsoluteX | AddressingMode::AbsoluteY => 5,
            AddressingMode::IndexedIndirect | AddressingMode::IndirectIndexed => 6,
            _ => 0,
        }
    } else if modifies_operand(ins) {
        match mode {
            AddressingMode::Accumulator => 2,
            AddressingMode::ZeroPage => 5,
            AddressingMode::ZeroPageX | AddressingMode::ZeroPageY | AddressingMode::Absolute => 6,
            AddressingMode::AbsoluteX | AddressingMode::AbsoluteY => 7,
            AddressingMode::IndexedIndirect | AddressingMode::IndirectIndexed => 8,
            _ => 0,
        }
    } else {
        match ins {
            Instruction::JMP => if mode is Indirect { 5 } else { 3 },
            Instruction::JSR | Instruction::RTS | Instruction::RTI => 6,
            Instruction::BRK => 7,
            Instruction::PHA | Instruction::PHP => 3,
            Instruction::PLA | Instruction::PLP => 4,
            _ => 2,
        }
    }
}

/// The cycles that executing `op` takes, its opcode fetch included, with `r` the registers
/// once the opcode is fetched. A read through an indexed mode that crosses a page pays one
/// more; a taken branch pays one more, and two beyond that when it lands on another page.
pub open spec fn instruction_cycles(op: OpCode, r: Registers, m: Seq<u8>) -> nat {
    let penalty: nat = if reads_operand(op.0) && page_crossed(op.1, r, m) { 1 } else { 0 };
    let branch: nat = if is_branch(op.0) && branch_taken(op.0, r.flags) {
        if after_operand(op.1, r) / 0x100 != effective_address(op.1, r, m) / 0x100 { 3 } else { 1 }
    } else {
        0
    };
    base_cycles(op.0, op.1) + penalty + branch
}

/// The flags as PLP and RTI load them from a pulled byte: B clear and R set.
pub open spec fn pulled_flags(byte: u8) -> StatusFlag {
    StatusFlag { b: false, ..crate::cpu::unpack_flags(byte) }
}

/// The flags after comparing `reg` with `v`.
pub open spec fn compare_flags(f: StatusFlag, reg: u8, v: u8) -> StatusFlag {
    StatusFlag { c: reg >= v, z: reg == v, n: negative(sub8(reg as int, v as int)), ..f }
}

/// `a + v + carry` as an 8-bit sum: the result, the carry out and the signed overflow.
pub open spec fn add_with_carry(a: u8, v: u8, carry: bool) -> (u8, bool, bool) {
    let sum = a + v + if carry { 1int } else { 0 };
    let res: u8 = if sum > 0xFF { (sum - 0x100) as u8 } else { sum as u8 };
    (res, sum > 0xFF, (a < 0x80) == (v < 0x80) && (res < 0x80) != (a < 0x80))
}

/// `a - v - (1 - carry)`: an addition of the complement of `v`; the carry out is "no borrow".
pub open spec fn subtract_with_borrow(a: u8, v: u8, carry: bool) -> (u8, bool, bool) {
    add_with_carry(a, (0xFF - v) as u8, carry)
}

/// The flags after an addition or subtraction that yields `(res, c, v)`.
pub open spec fn arith_flags(f: StatusFlag, out: (u8, bool, bool)) -> StatusFlag {
    StatusFlag { c: out.1, v: out.2, ..with_nz(f, out.0) }
}

/// A shift or rotation of `v` with carry in `c`: the result and the carry out.
pub open spec fn shifted(ins: Instruction, v: u8, c: bool) -> (u8, bool) {
    match ins {
        Instruction::ASL => (v << 1u8, v & 0x80 != 0),
        Instruction::LSR => (v >> 1u8, v & 1 != 0),
        Instruction::ROL => ((v << 1u8) | if c { 1u8 } else { 0u8 }, v & 0x80 != 0),
        _ => ((v >> 1u8) | if c { 0x80u8 } else { 0u8 }, v & 1 != 0),
    }
}

/// Entering an interrupt handler: PC high, PC low and the flags pushed (B set only for a
/// break, R always set), I set, PC loaded from the two bytes at `vector`.
pub open spec fn interrupt_entry(r: Registers, m: Seq<u8>, brk: bool, vector: int) -> (Registers, Seq<u8>) {
    let f = StatusFlag { b: brk, r: true, ..r.flags };
    let m1 = m.update(stack_addr(r.sp), (r.pc / 0x100) as u8)
        .update(stack_addr(sub8(r.sp as int, 1)), (r.pc % 0x100) as u8)
        .update(stack_addr(sub8(sub8(r.sp as int, 1) as int, 1)), pack_flags(f));
    let sp = sub8(sub8(sub8(r.sp as int, 1) as int, 1) as int, 1);
    (Registers { pc: word(m1[vector], m1[vector + 1]), sp, flags: StatusFlag { i: true, ..f }, ..r }, m1)
}

/// The registers after an instruction that consumes `v`, with `r` the registers once the
/// operand is consumed.
pub open spec fn apply_read(ins: Instruction, v: u8, r: Registers) -> Registers {
    let f = r.flags;
    match ins {
        Instruction::LDA => Registers { a: v, flags: with_nz(f, v), ..r },
        Instruction::LDX => Registers { x: v, flags: with_nz(f, v), ..r },
        Instruction::LDY => Registers { y: v, flags: with_nz(f, v), ..r },
        Instruction::LAX => Registers { a: v, x: v, flags: with_nz(f, v), ..r },
        Instruction::AND => Registers { a: r.a & v, flags: with_nz(f, r.a & v), ..r },
        Instruction::EOR => Registers { a: r.a ^ v, flags: with_nz(f, r.a ^ v), ..r },
        Instruction::ORA => Registers { a: r.a | v, flags: with_nz(f, r.a | v), ..r },
        Instruction::BIT => Registers {
            flags: StatusFlag { z: r.a & v == 0, v: v & 0x40 != 0, n: v & 0x80 != 0, ..f },
            ..r
        },
        Instruction::ADC => {
            let out = add_with_carry(r.a, v, f.c);
            Registers { a: out.0, flags: arith_flags(f, out), ..r }
        },
        Instruction::SBC => {
            let out = subtract_with_borrow(r.a, v, f.c);
            Registers { a: out.0, flags: arith_flags(f, out), ..r }
        },
        Instruction::CMP => Registers { flags: compare_flags(f, r.a, v), ..r },
        Instruction::CPX => Registers { flags: compare_flags(f, r.x, v), ..r },
        Instruction::CPY => Registers { flags: compare_flags(f, r.y, v), ..r },
        _ => r,
    }
}

/// The register that a store instruction writes to memory.
pub open spec fn stored_value(ins: Instruction, r: Registers) -> u8 {
    match ins {
        Instruction::STA => r.a,
        Instruction::STX => r.x,
        Instruction::STY => r.y,
        _ => r.a & r.x,
    }
}

/// A read-modify-write on `old`: the byte written back and the flags after, with `a` the
/// accumulator (which DCP compares with).
pub open spec fn apply_modify(ins: Instruction, old: u8, f: StatusFlag, a: u8) -> (u8, StatusFlag) {
    match ins {
        Instruction::INC => (add8(old as int, 1), with_nz(f, add8(old as int, 1))),
        Instruction::DEC => (sub8(old as int, 1), with_nz(f, sub8(old as int, 1))),
        Instruction::DCP => (sub8(old as int, 1), compare_flags(f, a, sub8(old as int, 1))),
        _ => {
            let out = shifted(ins, old, f.c);
            (out.0, with_nz(StatusFlag { c: out.1, ..f }, out.0))
        },
    }
}

/// The registers after an instruction that takes no operand and touches no memory.
pub open spec fn apply_implied(ins: Instruction, r: Registers) -> Registers {
    let f = r.flags;
    match ins {
        Instruction::TAX => Registers { x: r.a, flags: with_nz(f, r.a), ..r },
        Instruction::TAY => Registers { y: r.a, flags: with_nz(f, r.a), ..r },
        Instruction::TXA => Registers { a: r.x, flags: with_nz(f, r.x), ..r },
        Instruction::TYA => Registers { a: r.y, flags: with_nz(f, r.y), ..r },
        Instruction::TSX => Registers { x: r.sp, flags: with_nz(f, r.sp), ..r },
        Instruction::TXS => Registers { sp: r.x, ..r },
        Instruction::INX => Registers { x: add8(r.x as int, 1), flags: with_nz(f, add8(r.x as int, 1)), ..r },
        Instruction::INY => Registers { y: add8(r.y as int, 1), flags: with_nz(f, add8(r.y as int, 1)), ..r },
        Instruction::DEX => Registers { x: sub8(r.x as int, 1), flags: with_nz(f, sub8(r.x as int, 1)), ..r },
        Instruction::DEY => Registers { y: sub8(r.y as int, 1), flags: with_nz(f, sub8(r.y as int, 1)), ..r },
        Instruction::CLC => Registers { flags: StatusFlag { c: false, ..f }, ..r },
        Instruction::CLD => Registers { flags: StatusFlag { d: false, ..f }, ..r },
        Instruction::CLI => Registers { flags: StatusFlag { i: false, ..f }, ..r },
        Instruction::CLV => Registers { flags: StatusFlag { v: false, ..f }, ..r },
        Instruction::SEC => Registers { flags: StatusFlag { c: true, ..f }, ..r },
        Instruction::SED => Registers { flags: StatusFlag { d: true, ..f }, ..r },
        Instruction::SEI => Registers { flags: StatusFlag { i: true, ..f }, ..r },
        _ => r,
    }
}

/// Instructions that take no operand and touch no memory.
pub open spec fn is_implied(ins: Instruction) -> bool {
    match ins {
        Instruction::TAX | Instruction::TAY | Instruction::TXA | Instruction::TYA | Instruction::TSX
        | Instruction::TXS | Instruction::INX | Instruction::INY | Instruction::DEX | Instruction::DEY
        | Instruction::CLC | Instruction::CLD | Instruction::CLI | Instruction::CLV | Instruction::SEC
        | Instruction::SED | Instruction::SEI | Instruction::NOP => true,
        _ => false,
    }
}

/// The stack and control-flow instructions: what they do to registers and memory.
pub open spec fn flow_spec(op: OpCode, r: Registers, m: Seq<u8>) -> (Registers, Seq<u8>) {
    let ea = effective_address(op.1, r, m);
    let f = r.flags;
    let up1 = add8(r.sp as int, 1);
    let up2 = add8(up1 as int, 1);
    let up3 = add8(up2 as int, 1);
    let down1 = sub8(r.sp as int, 1);
    match op.0 {
        Instruction::PHA => (Registers { sp: down1, ..r }, m.update(stack_addr(r.sp), r.a)),
        Instruction::PHP => (
            Registers { sp: down1, ..r },
            m.update(stack_addr(r.sp), pack_flags(f) | 0x30u8),
        ),
        Instruction::PLA => {
            let b = m[stack_addr(up1)];
            (Registers { sp: up1, a: b, flags: with_nz(f, b), ..r }, m)
        },
        Instruction::PLP => (Registers { sp: up1, flags: pulled_flags(m[stack_addr(up1)]), ..r }, m),
        Instruction::JMP => (Registers { pc: ea, ..r }, m),
        Instruction::JSR => {
            let ret = wrap16(after_operand(op.1, r) - 1);
            (
                Registers { pc: ea, sp: sub8(down1 as int, 1), ..r },
                m.update(stack_addr(r.sp), (ret / 0x100) as u8).update(stack_addr(down1), (ret % 0x100) as u8),
            )
        },
        Instruction::RTS => (
            Registers { pc: wrap16(word(m[stack_addr(up1)], m[stack_addr(up2)]) + 1), sp: up2, ..r },
            m,
        ),
        Instruction::RTI => (
            Registers {
                pc: word(m[stack_addr(up2)], m[stack_addr(up3)]),
                sp: up3,
                flags: pulled_flags(m[stack_addr(up1)]),
                ..r
            },
            m,
        ),
        Instruction::BRK => interrupt_entry(Registers { pc: wrap16(r.pc + 1), ..r }, m, true, 0xFFFE),
        _ => {
            if branch_taken(op.0, f) {
                (Registers { pc: ea, ..r }, m)
            } else {
                (Registers { pc: after_operand(op.1, r), ..r }, m)
            }
        },
    }
}

/// What executing `op` does to the registers and memory, with `r` the registers once the
/// opcode is fetched (PC at the first operand byte).
pub open spec fn exec_spec(op: OpCode, r: Registers, m: Seq<u8>) -> (Registers, Seq<u8>) {
    let next = Registers { pc: after_operand(op.1, r), ..r };
    let ea = effective_address(op.1, r, m) as int;
    if reads_operand(op.0) {
        (apply_read(op.0, operand_value(op.1, r, m), next), m)
    } else if stores_operand(op.0) {
        (next, m.update(ea, stored_value(op.0, r)))
    } else if modifies_operand(op.0) {
        if op.1 is Accumulator {
            let out = apply_modify(op.0, r.a, r.flags, r.a);
            (Registers { a: out.0, flags: out.1, ..r }, m)
        } else {
            let out = apply_modify(op.0, m[ea], r.flags, r.a);
            (Registers { flags: out.1, ..next }, m.update(ea, out.0))
        }
    } else if is_implied(op.0) {
        (apply_implied(op.0, r), m)
    } else {
        flow_spec(op, r, m)
    }
}

/// Every entry of the dispatch table suits its addressing mode.
pub proof fn lemma_table_fits(byte: u8)
    ensures
        opcode_table(byte) matches Some(op) ==> fits(op),
{
}

/// The vector that an interrupt of kind `kind` loads PC from.
pub open spec fn vector_of(kind: Interrupt) -> int {
    match kind {
        Interrupt::NMI => 0xFFFA,
        Interrupt::Reset => 0xFFFC,
        Interrupt::IRQ | Interrupt::BRK => 0xFFFE,
    }
}

/// The registers after a reset: A, X, Y clear, SP at `0xFF`, every flag clear but R, and PC
/// loaded from the reset vector.
pub open spec fn reset_regs(m: Seq<u8>) -> Registers {
    Registers {
        pc: word(m[0xFFFC], m[0xFFFD]),
        sp: 0xFF,
        a: 0,
        x: 0,
        y: 0,
        flags: StatusFlag { c: false, z: false, i: false, d: false, b: false, r: true, v: false, n: false },
    }
}

/// Whether an interrupt of kind `kind` is ignored: an IRQ while I is set.
pub open spec fn masked(kind: Interrupt, r: Registers) -> bool {
    kind is IRQ && r.flags.i
}

/// What an interrupt does to the registers and memory.
pub open spec fn interrupt_spec(kind: Interrupt, r: Registers, m: Seq<u8>) -> (Registers, Seq<u8>) {
    if masked(kind, r) {
        (r, m)
    } else if kind is Reset {
        (reset_regs(m), m)
    } else {
        interrupt_entry(r, m, kind is BRK, vector_of(kind))
    }
}

/// `remain_cycles` after an interrupt taken with `remain` pending: unchanged when ignored;
/// two more for the vector reads of a reset; seven more for the others.
pub open spec fn remain_after_interrupt(kind: Interrupt, r: Registers, remain: usize) -> int {
    if masked(kind, r) {
        remain as int
    } else if kind is Reset {
        remain + 2
    } else {
        remain + 7
    }
}

/// The opcode at PC.
pub open spec fn opcode_at(r: Registers, m: Seq<u8>) -> Option<OpCode> {
    opcode_table(m[r.pc as int])
}

/// The registers once the opcode byte is fetched.
pub open spec fn past_opcode(r: Registers) -> Registers {
    Registers { pc: wrap16(r.pc + 1), ..r }
}

/// Fetching and executing the instruction at PC.
pub open spec fn dispatch_spec(r: Registers, m: Seq<u8>) -> (Registers, Seq<u8>) {
    exec_spec(opcode_at(r, m).unwrap(), past_opcode(r), m)
}

/// The cycles of the instruction at PC, its opcode fetch included.
pub open spec fn dispatch_cycles(r: Registers, m: Seq<u8>) -> nat {
    instruction_cycles(opcode_at(r, m).unwrap(), past_opcode(r), m)
}

/// `c` with the registers `r`.
pub open spec fn with_regs(c: CPU, r: Registers) -> CPU {
    CPU { pc: r.pc, sp: r.sp, a: r.a, x: r.x, y: r.y, flags: r.flags, ..c }
}

/// `total + n`, modulo the width of `usize`.
pub open spec fn add_count(total: usize, n: nat) -> usize {
    if total + n > usize::MAX {
        (total + n - usize::MAX - 1) as usize
    } else {
        (total + n) as usize
    }
}

/// Whether one host cycle can run: the processor is draining, or a defined opcode is at PC.
pub open spec fn step_ok(c: CPU, m: Seq<u8>) -> bool {
    c.remain_cycles > 0 || opcode_at(c.regs(), m) is Some
}

/// One host cycle. While cycles remain, one is drained; otherwise the instruction at PC is
/// dispatched, its cycles are added to the total, and its first cycle is drained at once.
pub open spec fn step_spec(c: CPU, m: Seq<u8>) -> (CPU, Seq<u8>) {
    if c.remain_cycles > 0 {
        (CPU { remain_cycles: (c.remain_cycles - 1) as usize, ..c }, m)
    } else {
        let out = dispatch_spec(c.regs(), m);
        let n = dispatch_cycles(c.regs(), m);
        (
            CPU {
                remain_cycles: (n - 1) as usize,
                total_cycles: add_count(c.total_cycles, n),
                ..with_regs(c, out.0)
            },
            out.1,
        )
    }
}

/// `n` host cycles.
pub open spec fn run_spec(c: CPU, m: Seq<u8>, n: nat) -> (CPU, Seq<u8>)
    decreases n,
{
    if n == 0 {
        (c, m)
    } else {
        let next = step_spec(c, m);
        run_spec(next.0, next.1, (n - 1) as nat)
    }
}

/// Whether each of `n` host cycles can run.
pub open spec fn runs_ok(c: CPU, m: Seq<u8>, n: nat) -> bool
    decreases n,
{
    n == 0 || (step_ok(c, m) && {
        let next = step_spec(c, m);
        runs_ok(next.0, next.1, (n - 1) as nat)
    })
}

/// Executing an instruction keeps memory covering the whole address space.
pub proof fn lemma_exec_keeps_memory_size(op: OpCode, r: Registers, m: Seq<u8>)
    requires
        full(m),
    ensures
        full(exec_spec(op, r, m).1),
{
}

/// One host cycle keeps memory covering the whole address space.
pub proof fn lemma_step_keeps_memory_size(c: CPU, m: Seq<u8>)
    requires
        full(m),
    ensures
        full(step_spec(c, m).1),
{
    if c.remain_cycles == 0 {
        lemma_exec_keeps_memory_size(opcode_at(c.regs(), m).unwrap(), past_opcode(c.regs()), m);
    }
}

/// The host cycles that `CPU::execute` runs after its reset: the reset's two vector reads
/// count against the budget.
pub open spec fn ticks_after_reset(cycles: isize) -> nat {
    if cycles > 2 {
        (cycles - 2) as nat
    } else {
        0
    }
}

/// The state after a reset: registers as `reset_regs`, two cycles added for the vector reads.
pub open spec fn reset_cpu(c: CPU, m: Seq<u8>) -> CPU {
    CPU { remain_cycles: (c.remain_cycles + 2) as usize, ..with_regs(c, reset_regs(m)) }
}

} // verus!
