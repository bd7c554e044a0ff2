//! Opcode decoding, operand fetch and the instruction set.

use vstd::prelude::*;
use crate::controller::Controller;
use crate::cpu::{
    crosses_page, page_crossed_u16, AddressingMode, Cpu, Instruction, Mnemonic, Status,
    OPERATED_B, STATUS_C, STATUS_D, STATUS_I, STATUS_N, STATUS_R, STATUS_V, STATUS_Z,
};
use crate::data_unit::{extend_sign, has_flag, low_byte, sign_extend, Word};
use crate::nes::Nes;
use crate::rom::Mapper;

verus! {

/// The opcode table: the mnemonic and addressing mode of each of the 256
/// opcodes. An opcode that the table does not assign is `NOP` with implicit
/// addressing.
pub open spec fn opcode_table(opcode: u8) -> Instruction {
    match opcode {
        0xA9 => Instruction { mnemonic: Mnemonic::LDA, addressing_mode: AddressingMode::Immediate },
        0xA5 => Instruction { mnemonic: Mnemonic::LDA, addressing_mode: AddressingMode::ZeroPage },
        0xB5 => Instruction { mnemonic: Mnemonic::LDA, addressing_mode: AddressingMode::ZeroPageX },
        0xAD => Instruction { mnemonic: Mnemonic::LDA, addressing_mode: AddressingMode::Absolute },
        0xBD => Instruction { mnemonic: Mnemonic::LDA, addressing_mode: AddressingMode::AbsoluteX { penalty: true } },
        0xB9 => Instruction { mnemonic: Mnemonic::LDA, addressing_mode: AddressingMode::AbsoluteY { penalty: true } },
        0xA1 => Instruction { mnemonic: Mnemonic::LDA, addressing_mode: AddressingMode::IndexedIndirect },
        0xB1 => Instruction { mnemonic: Mnemonic::LDA, addressing_mode: AddressingMode::IndirectIndexed },
        0xA2 => Instruction { mnemonic: Mnemonic::LDX, addressing_mode: AddressingMode::Immediate },
        0xA6 => Instruction { mnemonic: Mnemonic::LDX, addressing_mode: AddressingMode::ZeroPage },
        0xB6 => Instruction { mnemonic: Mnemonic::LDX, addressing_mode: AddressingMode::ZeroPageY },
        0xAE => Instruction { mnemonic: Mnemonic::LDX, addressing_mode: AddressingMode::Absolute },
        0xBE => Instruction { mnemonic: Mnemonic::LDX, addressing_mode: AddressingMode::AbsoluteY { penalty: true } },
        0xA0 => Instruction { mnemonic: Mnemonic::LDY, addressing_mode: AddressingMode::Immediate },
        0xA4 => Instruction { mnemonic: Mnemonic::LDY, addressing_mode: AddressingMode::ZeroPage },
        0xB4 => Instruction { mnemonic: Mnemonic::LDY, addressing_mode: AddressingMode::ZeroPageX },
        0xAC => Instruction { mnemonic: Mnemonic::LDY, addressing_mode: AddressingMode::Absolute },
        0xBC => Instruction { mnemonic: Mnemonic::LDY, addressing_mode: AddressingMode::AbsoluteX { penalty: true } },
        0x85 => Instruction { mnemonic: Mnemonic::STA, addressing_mode: AddressingMode::ZeroPage },
        0x95 => Instruction { mnemonic: Mnemonic::STA, addressing_mode: AddressingMode::ZeroPageX },
        0x8D => Instruction { mnemonic: Mnemonic::STA, addressing_mode: AddressingMode::Absolute },
        0x9D => Instruction { mnemonic: Mnemonic::STA, addressing_mode: AddressingMode::AbsoluteX { penalty: false } },
        0x99 => Instruction { mnemonic: Mnemonic::STA, addressing_mode: AddressingMode::AbsoluteY { penalty: false } },
        0x81 => Instruction { mnemonic: Mnemonic::STA, addressing_mode: AddressingMode::IndexedIndirect },
        0x91 => Instruction { mnemonic: Mnemonic::STA, addressing_mode: AddressingMode::IndirectIndexed },
        0x86 => Instruction { mnemonic: Mnemonic::STX, addressing_mode: AddressingMode::ZeroPage },
        0x96 => Instruction { mnemonic: Mnemonic::STX, addressing_mode: AddressingMode::ZeroPageY },
        0x8E => Instruction { mnemonic: Mnemonic::STX, addressing_mode: AddressingMode::Absolute },
        0x84 => Instruction { mnemonic: Mnemonic::STY, addressing_mode: AddressingMode::ZeroPage },
        0x94 => Instruction { mnemonic: Mnemonic::STY, addressing_mode: AddressingMode::ZeroPageX },
        0x8C => Instruction { mnemonic: Mnemonic::STY, addressing_mode: AddressingMode::Absolute },
        0xAA => Instruction { mnemonic: Mnemonic::TAX, addressing_mode: AddressingMode::Implicit },
        0xBA => Instruction { mnemonic: Mnemonic::TSX, addressing_mode: AddressingMode::Implicit },
        0xA8 => Instruction { mnemonic: Mnemonic::TAY, addressing_mode: AddressingMode::Implicit },
        0x8A => Instruction { mnemonic: Mnemonic::TXA, addressing_mode: AddressingMode::Implicit },
        0x9A => Instruction { mnemonic: Mnemonic::TXS, addressing_mode: AddressingMode::Implicit },
        0x98 => Instruction { mnemonic: Mnemonic::TYA, addressing_mode: AddressingMode::Implicit },

        0x48 => Instruction { mnemonic: Mnemonic::PHA, addressing_mode: AddressingMode::Implicit },
        0x08 => Instruction { mnemonic: Mnemonic::PHP, addressing_mode: AddressingMode::Implicit },
        0x68 => Instruction { mnemonic: Mnemonic::PLA, addressing_mode: AddressingMode::Implicit },
        0x28 => Instruction { mnemonic: Mnemonic::PLP, addressing_mode: AddressingMode::Implicit },

        0x29 => Instruction { mnemonic: Mnemonic::AND, addressing_mode: AddressingMode::Immediate },
        0x25 => Instruction { mnemonic: Mnemonic::AND, addressing_mode: AddressingMode::ZeroPage },
        0x35 => Instruction { mnemonic: Mnemonic::AND, addressing_mode: AddressingMode::ZeroPageX },
        0x2D => Instruction { mnemonic: Mnemonic::AND, addressing_mode: AddressingMode::Absolute },
        0x3D => Instruction { mnemonic: Mnemonic::AND, addressing_mode: AddressingMode::AbsoluteX { penalty: true } },
        0x39 => Instruction { mnemonic: Mnemonic::AND, addressing_mode: AddressingMode::AbsoluteY { penalty: true } },
        0x21 => Instruction { mnemonic: Mnemonic::AND, addressing_mode: AddressingMode::IndexedIndirect },
        0x31 => Instruction { mnemonic: Mnemonic::AND, addressing_mode: AddressingMode::IndirectIndexed },
        0x49 => Instruction { mnemonic: Mnemonic::EOR, addressing_mode: AddressingMode::Immediate },
        0x45 => Instruction { mnemonic: Mnemonic::EOR, addressing_mode: AddressingMode::ZeroPage },
        0x55 => Instruction { mnemonic: Mnemonic::EOR, addressing_mode: AddressingMode::ZeroPageX },
        0x4D => Instruction { mnemonic: Mnemonic::EOR, addressing_mode: AddressingMode::Absolute },
        0x5D => Instruction { mnemonic: Mnemonic::EOR, addressing_mode: AddressingMode::AbsoluteX { penalty: true } },
        0x59 => Instruction { mnemonic: Mnemonic::EOR, addressing_mode: AddressingMode::AbsoluteY { penalty: true } },
        0x41 => Instruction { mnemonic: Mnemonic::EOR, addressing_mode: AddressingMode::IndexedIndirect },
        0x51 => Instruction { mnemonic: Mnemonic::EOR, addressing_mode: AddressingMode::IndirectIndexed },
        0x09 => Instruction { mnemonic: Mnemonic::ORA, addressing_mode: AddressingMode::Immediate },
        0x05 => Instruction { mnemonic: Mnemonic::ORA, addressing_mode: AddressingMode::ZeroPage },
        0x15 => Instruction { mnemonic: Mnemonic::ORA, addressing_mode: AddressingMode::ZeroPageX },
        0x0D => Instruction { mnemonic: Mnemonic::ORA, addressing_mode: AddressingMode::Absolute },
        0x1D => Instruction { mnemonic: Mnemonic::ORA, addressing_mode: AddressingMode::AbsoluteX { penalty: true } },
        0x19 => Instruction { mnemonic: Mnemonic::ORA, addressing_mode: AddressingMode::AbsoluteY { penalty: true } },
        0x01 => Instruction { mnemonic: Mnemonic::ORA, addressing_mode: AddressingMode::IndexedIndirect },
        0x11 => Instruction { mnemonic: Mnemonic::ORA, addressing_mode: AddressingMode::IndirectIndexed },
        0x24 => Instruction { mnemonic: Mnemonic::BIT, addressing_mode: AddressingMode::ZeroPage },
        0x2C => Instruction { mnemonic: Mnemonic::BIT, addressing_mode: AddressingMode::Absolute },

        0x69 => Instruction { mnemonic: Mnemonic::ADC, addressing_mode: AddressingMode::Immediate },
        0x65 => Instruction { mnemonic: Mnemonic::ADC, addressing_mode: AddressingMode::ZeroPage },
        0x75 => Instruction { mnemonic: Mnemonic::ADC, addressing_mode: AddressingMode::ZeroPageX },
        0x6D => Instruction { mnemonic: Mnemonic::ADC, addressing_mode: AddressingMode::Absolute },
        0x7D => Instruction { mnemonic: Mnemonic::ADC, addressing_mode: AddressingMode::AbsoluteX { penalty: true } },
        0x79 => Instruction { mnemonic: Mnemonic::ADC, addressing_mode: AddressingMode::AbsoluteY { penalty: true } },
        0x61 => Instruction { mnemonic: Mnemonic::ADC, addressing_mode: AddressingMode::IndexedIndirect },
        0x71 => Instruction { mnemonic: Mnemonic::ADC, addressing_mode: AddressingMode::IndirectIndexed },
        0xE9 => Instruction { mnemonic: Mnemonic::SBC, addressing_mode: AddressingMode::Immediate },
        0xE5 => Instruction { mnemonic: Mnemonic::SBC, addressing_mode: AddressingMode::ZeroPage },
        0xF5 => Instruction { mnemonic: Mnemonic::SBC, addressing_mode: AddressingMode::ZeroPageX },
        0xED => Instruction { mnemonic: Mnemonic::SBC, addressing_mode: AddressingMode::Absolute },
        0xFD => Instruction { mnemonic: Mnemonic::SBC, addressing_mode: AddressingMode::AbsoluteX { penalty: true } },
        0xF9 => Instruction { mnemonic: Mnemonic::SBC, addressing_mode: AddressingMode::AbsoluteY { penalty: true } },
        0xE1 => Instruction { mnemonic: Mnemonic::SBC, addressing_mode: AddressingMode::IndexedIndirect },
        0xF1 => Instruction { mnemonic: Mnemonic::SBC, addressing_mode: AddressingMode::IndirectIndexed },
        0xC9 => Instruction { mnemonic: Mnemonic::CMP, addressing_mode: AddressingMode::Immediate },
        0xC5 => Instruction { mnemonic: Mnemonic::CMP, addressing_mode: AddressingMode::ZeroPage },
        0xD5 => Instruction { mnemonic: Mnemonic::CMP, addressing_mode: AddressingMode::ZeroPageX },
        0xCD => Instruction { mnemonic: Mnemonic::CMP, addressing_mode: AddressingMode::Absolute },
        0xDD => Instruction { mnemonic: Mnemonic::CMP, addressing_mode: AddressingMode::AbsoluteX { penalty: true } },
        0xD9 => Instruction { mnemonic: Mnemonic::CMP, addressing_mode: AddressingMode::AbsoluteY { penalty: true } },
        0xC1 => Instruction { mnemonic: Mnemonic::CMP, addressing_mode: AddressingMode::IndexedIndirect },
        0xD1 => Instruction { mnemonic: Mnemonic::CMP, addressing_mode: AddressingMode::IndirectIndexed },
        0xE0 => Instruction { mnemonic: Mnemonic::CPX, addressing_mode: AddressingMode::Immediate },
        0xE4 => Instruction { mnemonic: Mnemonic::CPX, addressing_mode: AddressingMode::ZeroPage },
        0xEC => Instruction { mnemonic: Mnemonic::CPX, addressing_mode: AddressingMode::Absolute },
        0xC0 => Instruction { mnemonic: Mnemonic::CPY, addressing_mode: AddressingMode::Immediate },
        0xC4 => Instruction { mnemonic: Mnemonic::CPY, addressing_mode: AddressingMode::ZeroPage },
        0xCC => Instruction { mnemonic: Mnemonic::CPY, addressing_mode: AddressingMode::Absolute },

        0xE6 => Instruction { mnemonic: Mnemonic::INC, addressing_mode: AddressingMode::ZeroPage },
        0xF6 => Instruction { mnemonic: Mnemonic::INC, addressing_mode: AddressingMode::ZeroPageX },
        0xEE => Instruction { mnemonic: Mnemonic::INC, addressing_mode: AddressingMode::Absolute },
        0xFE => Instruction { mnemonic: Mnemonic::INC, addressing_mode: AddressingMode::AbsoluteX { penalty: false } },
        0xE8 => Instruction { mnemonic: Mnemonic::INX, addressing_mode: AddressingMode::Implicit },
        0xC8 => Instruction { mnemonic: Mnemonic::INY, addressing_mode: AddressingMode::Implicit },
        0xC6 => Instruction { mnemonic: Mnemonic::DEC, addressing_mode: AddressingMode::ZeroPage },
        0xD6 => Instruction { mnemonic: Mnemonic::DEC, addressing_mode: AddressingMode::ZeroPageX },
        0xCE => Instruction { mnemonic: Mnemonic::DEC, addressing_mode: AddressingMode::Absolute },
        0xDE => Instruction { mnemonic: Mnemonic::DEC, addressing_mode: AddressingMode::AbsoluteX { penalty: false } },
        0xCA => Instruction { mnemonic: Mnemonic::DEX, addressing_mode: AddressingMode::Implicit },
        0x88 => Instruction { mnemonic: Mnemonic::DEY, addressing_mode: AddressingMode::Implicit },

        0x0A => Instruction { mnemonic: Mnemonic::ASL, addressing_mode: AddressingMode::Accumulator },
        0x06 => Instruction { mnemonic: Mnemonic::ASL, addressing_mode: AddressingMode::ZeroPage },
        0x16 => Instruction { mnemonic: Mnemonic::ASL, addressing_mode: AddressingMode::ZeroPageX },
        0x0E => Instruction { mnemonic: Mnemonic::ASL, addressing_mode: AddressingMode::Absolute },
        0x1E => Instruction { mnemonic: Mnemonic::ASL, addressing_mode: AddressingMode::AbsoluteX { penalty: false } },
        0x4A => Instruction { mnemonic: Mnemonic::LSR, addressing_mode: AddressingMode::Accumulator },
        0x46 => Instruction { mnemonic: Mnemonic::LSR, addressing_mode: AddressingMode::ZeroPage },
        0x56 => Instruction { mnemonic: Mnemonic::LSR, addressing_mode: AddressingMode::ZeroPageX },
        0x4E => Instruction { mnemonic: Mnemonic::LSR, addressing_mode: AddressingMode::Absolute },
        0x5E => Instruction { mnemonic: Mnemonic::LSR, addressing_mode: AddressingMode::AbsoluteX { penalty: false } },
        0x2A => Instruction { mnemonic: Mnemonic::ROL, addressing_mode: AddressingMode::Accumulator },
        0x26 => Instruction { mnemonic: Mnemonic::ROL, addressing_mode: AddressingMode::ZeroPage },
        0x36 => Instruction { mnemonic: Mnemonic::ROL, addressing_mode: AddressingMode::ZeroPageX },
        0x2E => Instruction { mnemonic: Mnemonic::ROL, addressing_mode: AddressingMode::Absolute },
        0x3E => Instruction { mnemonic: Mnemonic::ROL, addressing_mode: AddressingMode::AbsoluteX { penalty: false } },
        0x6A => Instruction { mnemonic: Mnemonic::ROR, addressing_mode: AddressingMode::Accumulator },
        0x66 => Instruction { mnemonic: Mnemonic::ROR, addressing_mode: AddressingMode::ZeroPage },
        0x76 => Instruction { mnemonic: Mnemonic::ROR, addressing_mode: AddressingMode::ZeroPageX },
        0x6E => Instruction { mnemonic: Mnemonic::ROR, addressing_mode: AddressingMode::Absolute },
        0x7E => Instruction { mnemonic: Mnemonic::ROR, addressing_mode: AddressingMode::AbsoluteX { penalty: false } },

        0x4C => Instruction { mnemonic: Mnemonic::JMP, addressing_mode: AddressingMode::Absolute },
        0x6C => Instruction { mnemonic: Mnemonic::JMP, addressing_mode: AddressingMode::Indirect },
        0x20 => Instruction { mnemonic: Mnemonic::JSR, addressing_mode: AddressingMode::Absolute },
        0x60 => Instruction { mnemonic: Mnemonic::RTS, addressing_mode: AddressingMode::Implicit },
        0x40 => Instruction { mnemonic: Mnemonic::RTI, addressing_mode: AddressingMode::Implicit },

        0x90 => Instruction { mnemonic: Mnemonic::BCC, addressing_mode: AddressingMode::Relative },
        0xB0 => Instruction { mnemonic: Mnemonic::BCS, addressing_mode: AddressingMode::Relative },
        0xF0 => Instruction { mnemonic: Mnemonic::BEQ, addressing_mode: AddressingMode::Relative },
        0x30 => Instruction { mnemonic: Mnemonic::BMI, addressing_mode: AddressingMode::Relative },
        0xD0 => Instruction { mnemonic: Mnemonic::BNE, addressing_mode: AddressingMode::Relative },
        0x10 => Instruction { mnemonic: Mnemonic::BPL, addressing_mode: AddressingMode::Relative },
        0x50 => Instruction { mnemonic: Mnemonic::BVC, addressing_mode: AddressingMode::Relative },
        0x70 => Instruction { mnemonic: Mnemonic::BVS, addressing_mode: AddressingMode::Relative },

        0x18 => Instruction { mnemonic: Mnemonic::CLC, addressing_mode: AddressingMode::Implicit },
        0xD8 => Instruction { mnemonic: Mnemonic::CLD, addressing_mode: AddressingMode::Implicit },
        0x58 => Instruction { mnemonic: Mnemonic::CLI, addressing_mode: AddressingMode::Implicit },
        0xB8 => Instruction { mnemonic: Mnemonic::CLV, addressing_mode: AddressingMode::Implicit },

        0x38 => Instruction { mnemonic: Mnemonic::SEC, addressing_mode: AddressingMode::Implicit },
        0xF8 => Instruction { mnemonic: Mnemonic::SED, addressing_mode: AddressingMode::Implicit },
        0x78 => Instruction { mnemonic: Mnemonic::SEI, addressing_mode: AddressingMode::Implicit },

        0x00 => Instruction { mnemonic: Mnemonic::BRK, addressing_mode: AddressingMode::Implicit },

        // Undocumented
        0xEB => Instruction { mnemonic: Mnemonic::SBC, addressing_mode: AddressingMode::Immediate },

        0x04 | 0x44 | 0x64 => Instruction { mnemonic: Mnemonic::NOP, addressing_mode: AddressingMode::ZeroPage },
        0x0C => Instruction { mnemonic: Mnemonic::NOP, addressing_mode: AddressingMode::Absolute },
        0x14 | 0x34 | 0x54 | 0x74 | 0xD4 | 0xF4 => Instruction { mnemonic: Mnemonic::NOP, addressing_mode: AddressingMode::ZeroPageX },
        0x1A | 0x3A | 0x5A | 0x7A | 0xDA | 0xEA | 0xFA => Instruction { mnemonic: Mnemonic::NOP, addressing_mode: AddressingMode::Implicit },
        0x1C | 0x3C | 0x5C | 0x7C | 0xDC | 0xFC => Instruction { mnemonic: Mnemonic::NOP, addressing_mode: AddressingMode::AbsoluteX { penalty: true } },
        0x80 | 0x82 | 0x89 | 0xC2 | 0xE2 => Instruction { mnemonic: Mnemonic::NOP, addressing_mode: AddressingMode::Immediate },

        0xA3 => Instruction { mnemonic: Mnemonic::LAX, addressing_mode: AddressingMode::IndexedIndirect },
        0xA7 => Instruction { mnemonic: Mnemonic::LAX, addressing_mode: AddressingMode::ZeroPage },
        0xAF => Instruction { mnemonic: Mnemonic::LAX, addressing_mode: AddressingMode::Absolute },
        0xB3 => Instruction { mnemonic: Mnemonic::LAX, addressing_mode: AddressingMode::IndirectIndexed },
        0xB7 => Instruction { mnemonic: Mnemonic::LAX, addressing_mode: AddressingMode::ZeroPageY },
        0xBF => Instruction { mnemonic: Mnemonic::LAX, addressing_mode: AddressingMode::AbsoluteY { penalty: true } },

        0x83 => Instruction { mnemonic: Mnemonic::SAX, addressing_mode: AddressingMode::IndexedIndirect },
        0x87 => Instruction { mnemonic: Mnemonic::SAX, addressing_mode: AddressingMode::ZeroPage },
        0x8F => Instruction { mnemonic: Mnemonic::SAX, addressing_mode: AddressingMode::Absolute },
        0x97 => Instruction { mnemonic: Mnemonic::SAX, addressing_mode: AddressingMode::ZeroPageY },

        0xC3 => Instruction { mnemonic: Mnemonic::DCP, addressing_mode: AddressingMode::IndexedIndirect },
        0xC7 => Instruction { mnemonic: Mnemonic::DCP, addressing_mode: AddressingMode::ZeroPage },
        0xCF => Instruction { mnemonic: Mnemonic::DCP, addressing_mode: AddressingMode::Absolute },
        0xD3 => Instruction { mnemonic: Mnemonic::DCP, addressing_mode: AddressingMode::IndirectIndexed },
        0xD7 => Instruction { mnemonic: Mnemonic::DCP, addressing_mode: AddressingMode::ZeroPageX },
        0xDB => Instruction { mnemonic: Mnemonic::DCP, addressing_mode: AddressingMode::AbsoluteY { penalty: false } },
        0xDF => Instruction { mnemonic: Mnemonic::DCP, addressing_mode: AddressingMode::AbsoluteX { penalty: false } },

        0xE3 => Instruction { mnemonic: Mnemonic::ISB, addressing_mode: AddressingMode::IndexedIndirect },
        0xE7 => Instruction { mnemonic: Mnemonic::ISB, addressing_mode: AddressingMode::ZeroPage },
        0xEF => Instruction { mnemonic: Mnemonic::ISB, addressing_mode: AddressingMode::Absolute },
        0xF3 => Instruction { mnemonic: Mnemonic::ISB, addressing_mode: AddressingMode::IndirectIndexed },
        0xF7 => Instruction { mnemonic: Mnemonic::ISB, addressing_mode: AddressingMode::ZeroPageX },
        0xFB => Instruction { mnemonic: Mnemonic::ISB, addressing_mode: AddressingMode::AbsoluteY { penalty: false } },
        0xFF => Instruction { mnemonic: Mnemonic::ISB, addressing_mode: AddressingMode::AbsoluteX { penalty: false } },

        0x03 => Instruction { mnemonic: Mnemonic::SLO, addressing_mode: AddressingMode::IndexedIndirect },
        0x07 => Instruction { mnemonic: Mnemonic::SLO, addressing_mode: AddressingMode::ZeroPage },
        0x0F => Instruction { mnemonic: Mnemonic::SLO, addressing_mode: AddressingMode::Absolute },
        0x13 => Instruction { mnemonic: Mnemonic::SLO, addressing_mode: AddressingMode::IndirectIndexed },
        0x17 => Instruction { mnemonic: Mnemonic::SLO, addressing_mode: AddressingMode::ZeroPageX },
        0x1B => Instruction { mnemonic: Mnemonic::SLO, addressing_mode: AddressingMode::AbsoluteY { penalty: false } },
        0x1F => Instruction { mnemonic: Mnemonic::SLO, addressing_mode: AddressingMode::AbsoluteX { penalty: false } },

        0x23 => Instruction { mnemonic: Mnemonic::RLA, addressing_mode: AddressingMode::IndexedIndirect },
        0x27 => Instruction { mnemonic: Mnemonic::RLA, addressing_mode: AddressingMode::ZeroPage },
        0x2F => Instruction { mnemonic: Mnemonic::RLA, addressing_mode: AddressingMode::Absolute },
        0x33 => Instruction { mnemonic: Mnemonic::RLA, addressing_mode: AddressingMode::IndirectIndexed },
        0x37 => Instruction { mnemonic: Mnemonic::RLA, addressing_mode: AddressingMode::ZeroPageX },
        0x3B => Instruction { mnemonic: Mnemonic::RLA, addressing_mode: AddressingMode::AbsoluteY { penalty: false } },
        0x3F => Instruction { mnemonic: Mnemonic::RLA, addressing_mode: AddressingMode::AbsoluteX { penalty: false } },

        0x43 => Instruction { mnemonic: Mnemonic::SRE, addressing_mode: AddressingMode::IndexedIndirect },
        0x47 => Instruction { mnemonic: Mnemonic::SRE, addressing_mode: AddressingMode::ZeroPage },
        0x4F => Instruction { mnemonic: Mnemonic::SRE, addressing_mode: AddressingMode::Absolute },
        0x53 => Instruction { mnemonic: Mnemonic::SRE, addressing_mode: AddressingMode::IndirectIndexed },
        0x57 => Instruction { mnemonic: Mnemonic::SRE, addressing_mode: AddressingMode::ZeroPageX },
        0x5B => Instruction { mnemonic: Mnemonic::SRE, addressing_mode: AddressingMode::AbsoluteY { penalty: false } },
        0x5F => Instruction { mnemonic: Mnemonic::SRE, addressing_mode: AddressingMode::AbsoluteX { penalty: false } },

        0x63 => Instruction { mnemonic: Mnemonic::RRA, addressing_mode: AddressingMode::IndexedIndirect },
        0x67 => Instruction { mnemonic: Mnemonic::RRA, addressing_mode: AddressingMode::ZeroPage },
        0x6F => Instruction { mnemonic: Mnemonic::RRA, addressing_mode: AddressingMode::Absolute },
        0x73 => Instruction { mnemonic: Mnemonic::RRA, addressing_mode: AddressingMode::IndirectIndexed },
        0x77 => Instruction { mnemonic: Mnemonic::RRA, addressing_mode: AddressingMode::ZeroPageX },
        0x7B => Instruction { mnemonic: Mnemonic::RRA, addressing_mode: AddressingMode::AbsoluteY { penalty: false } },
        0x7F => Instruction { mnemonic: Mnemonic::RRA, addressing_mode: AddressingMode::AbsoluteX { penalty: false } },

        _ => Instruction { mnemonic: Mnemonic::NOP, addressing_mode: AddressingMode::Implicit },
    }
}

pub fn decode(opcode: u8) -> (r: Instruction)
    ensures
        r == opcode_table(opcode),
{
    match opcode {
        0xA9 => Instruction { mnemonic: Mnemonic::LDA, addressing_mode: AddressingMode::Immediate },
        0xA5 => Instruction { mnemonic: Mnemonic::LDA, addressing_mode: AddressingMode::ZeroPage },
        0xB5 => Instruction { mnemonic: Mnemonic::LDA, addressing_mode: AddressingMode::ZeroPageX },
        0xAD => Instruction { mnemonic: Mnemonic::LDA, addressing_mode: AddressingMode::Absolute },
        0xBD => Instruction { mnemonic: Mnemonic::LDA, addressing_mode: AddressingMode::AbsoluteX { penalty: true } },
        0xB9 => Instruction { mnemonic: Mnemonic::LDA, addressing_mode: AddressingMode::AbsoluteY { penalty: true } },
        0xA1 => Instruction { mnemonic: Mnemonic::LDA, addressing_mode: AddressingMode::IndexedIndirect },
        0xB1 => Instruction { mnemonic: Mnemonic::LDA, addressing_mode: AddressingMode::IndirectIndexed },
        0xA2 => Instruction { mnemonic: Mnemonic::LDX, addressing_mode: AddressingMode::Immediate },
        0xA6 => Instruction { mnemonic: Mnemonic::LDX, addressing_mode: AddressingMode::ZeroPage },
        0xB6 => Instruction { mnemonic: Mnemonic::LDX, addressing_mode: AddressingMode::ZeroPageY },
        0xAE => Instruction { mnemonic: Mnemonic::LDX, addressing_mode: AddressingMode::Absolute },
        0xBE => Instruction { mnemonic: Mnemonic::LDX, addressing_mode: AddressingMode::AbsoluteY { penalty: true } },
        0xA0 => Instruction { mnemonic: Mnemonic::LDY, addressing_mode: AddressingMode::Immediate },
        0xA4 => Instruction { mnemonic: Mnemonic::LDY, addressing_mode: AddressingMode::ZeroPage },
        0xB4 => Instruction { mnemonic: Mnemonic::LDY, addressing_mode: AddressingMode::ZeroPageX },
        0xAC => Instruction { mnemonic: Mnemonic::LDY, addressing_mode: AddressingMode::Absolute },
        0xBC => Instruction { mnemonic: Mnemonic::LDY, addressing_mode: AddressingMode::AbsoluteX { penalty: true } },
        0x85 => Instruction { mnemonic: Mnemonic::STA, addressing_mode: AddressingMode::ZeroPage },
        0x95 => Instruction { mnemonic: Mnemonic::STA, addressing_mode: AddressingMode::ZeroPageX },
        0x8D => Instruction { mnemonic: Mnemonic::STA, addressing_mode: AddressingMode::Absolute },
        0x9D => Instruction { mnemonic: Mnemonic::STA, addressing_mode: AddressingMode::AbsoluteX { penalty: false } },
        0x99 => Instruction { mnemonic: Mnemonic::STA, addressing_mode: AddressingMode::AbsoluteY { penalty: false } },
        0x81 => Instruction { mnemonic: Mnemonic::STA, addressing_mode: AddressingMode::IndexedIndirect },
        0x91 => Instruction { mnemonic: Mnemonic::STA, addressing_mode: AddressingMode::IndirectIndexed },
        0x86 => Instruction { mnemonic: Mnemonic::STX, addressing_mode: AddressingMode::ZeroPage },
        0x96 => Instruction { mnemonic: Mnemonic::STX, addressing_mode: AddressingMode::ZeroPageY },
        0x8E => Instruction { mnemonic: Mnemonic::STX, addressing_mode: AddressingMode::Absolute },
        0x84 => Instruction { mnemonic: Mnemonic::STY, addressing_mode: AddressingMode::ZeroPage },
        0x94 => Instruction { mnemonic: Mnemonic::STY, addressing_mode: AddressingMode::ZeroPageX },
        0x8C => Instruction { mnemonic: Mnemonic::STY, addressing_mode: AddressingMode::Absolute },
        0xAA => Instruction { mnemonic: Mnemonic::TAX, addressing_mode: AddressingMode::Implicit },
        0xBA => Instruction { mnemonic: Mnemonic::TSX, addressing_mode: AddressingMode::Implicit },
        0xA8 => Instruction { mnemonic: Mnemonic::TAY, addressing_mode: AddressingMode::Implicit },
        0x8A => Instruction { mnemonic: Mnemonic::TXA, addressing_mode: AddressingMode::Implicit },
        0x9A => Instruction { mnemonic: Mnemonic::TXS, addressing_mode: AddressingMode::Implicit },
        0x98 => Instruction { mnemonic: Mnemonic::TYA, addressing_mode: AddressingMode::Implicit },

        0x48 => Instruction { mnemonic: Mnemonic::PHA, addressing_mode: AddressingMode::Implicit },
        0x08 => Instruction { mnemonic: Mnemonic::PHP, addressing_mode: AddressingMode::Implicit },
        0x68 => Instruction { mnemonic: Mnemonic::PLA, addressing_mode: AddressingMode::Implicit },
        0x28 => Instruction { mnemonic: Mnemonic::PLP, addressing_mode: AddressingMode::Implicit },

        0x29 => Instruction { mnemonic: Mnemonic::AND, addressing_mode: AddressingMode::Immediate },
        0x25 => Instruction { mnemonic: Mnemonic::AND, addressing_mode: AddressingMode::ZeroPage },
        0x35 => Instruction { mnemonic: Mnemonic::AND, addressing_mode: AddressingMode::ZeroPageX },
        0x2D => Instruction { mnemonic: Mnemonic::AND, addressing_mode: AddressingMode::Absolute },
        0x3D => Instruction { mnemonic: Mnemonic::AND, addressing_mode: AddressingMode::AbsoluteX { penalty: true } },
        0x39 => Instruction { mnemonic: Mnemonic::AND, addressing_mode: AddressingMode::AbsoluteY { penalty: true } },
        0x21 => Instruction { mnemonic: Mnemonic::AND, addressing_mode: AddressingMode::IndexedIndirect },
        0x31 => Instruction { mnemonic: Mnemonic::AND, addressing_mode: AddressingMode::IndirectIndexed },
        0x49 => Instruction { mnemonic: Mnemonic::EOR, addressing_mode: AddressingMode::Immediate },
        0x45 => Instruction { mnemonic: Mnemonic::EOR, addressing_mode: AddressingMode::ZeroPage },
        0x55 => Instruction { mnemonic: Mnemonic::EOR, addressing_mode: AddressingMode::ZeroPageX },
        0x4D => Instruction { mnemonic: Mnemonic::EOR, addressing_mode: AddressingMode::Absolute },
        0x5D => Instruction { mnemonic: Mnemonic::EOR, addressing_mode: AddressingMode::AbsoluteX { penalty: true } },
        0x59 => Instruction { mnemonic: Mnemonic::EOR, addressing_mode: AddressingMode::AbsoluteY { penalty: true } },
        0x41 => Instruction { mnemonic: Mnemonic::EOR, addressing_mode: AddressingMode::IndexedIndirect },
        0x51 => Instruction { mnemonic: Mnemonic::EOR, addressing_mode: AddressingMode::IndirectIndexed },
        0x09 => Instruction { mnemonic: Mnemonic::ORA, addressing_mode: AddressingMode::Immediate },
        0x05 => Instruction { mnemonic: Mnemonic::ORA, addressing_mode: AddressingMode::ZeroPage },
        0x15 => Instruction { mnemonic: Mnemonic::ORA, addressing_mode: AddressingMode::ZeroPageX },
        0x0D => Instruction { mnemonic: Mnemonic::ORA, addressing_mode: AddressingMode::Absolute },
        0x1D => Instruction { mnemonic: Mnemonic::ORA, addressing_mode: AddressingMode::AbsoluteX { penalty: true } },
        0x19 => Instruction { mnemonic: Mnemonic::ORA, addressing_mode: AddressingMode::AbsoluteY { penalty: true } },
        0x01 => Instruction { mnemonic: Mnemonic::ORA, addressing_mode: AddressingMode::IndexedIndirect },
        0x11 => Instruction { mnemonic: Mnemonic::ORA, addressing_mode: AddressingMode::IndirectIndexed },
        0x24 => Instruction { mnemonic: Mnemonic::BIT, addressing_mode: AddressingMode::ZeroPage },
        0x2C => Instruction { mnemonic: Mnemonic::BIT, addressing_mode: AddressingMode::Absolute },

        0x69 => Instruction { mnemonic: Mnemonic::ADC, addressing_mode: AddressingMode::Immediate },
        0x65 => Instruction { mnemonic: Mnemonic::ADC, addressing_mode: AddressingMode::ZeroPage },
        0x75 => Instruction { mnemonic: Mnemonic::ADC, addressing_mode: AddressingMode::ZeroPageX },
        0x6D => Instruction { mnemonic: Mnemonic::ADC, addressing_mode: AddressingMode::Absolute },
        0x7D => Instruction { mnemonic: Mnemonic::ADC, addressing_mode: AddressingMode::AbsoluteX { penalty: true } },
        0x79 => Instruction { mnemonic: Mnemonic::ADC, addressing_mode: AddressingMode::AbsoluteY { penalty: true } },
        0x61 => Instruction { mnemonic: Mnemonic::ADC, addressing_mode: AddressingMode::IndexedIndirect },
        0x71 => Instruction { mnemonic: Mnemonic::ADC, addressing_mode: AddressingMode::IndirectIndexed },
        0xE9 => Instruction { mnemonic: Mnemonic::SBC, addressing_mode: AddressingMode::Immediate },
        0xE5 => Instruction { mnemonic: Mnemonic::SBC, addressing_mode: AddressingMode::ZeroPage },
        0xF5 => Instruction { mnemonic: Mnemonic::SBC, addressing_mode: AddressingMode::ZeroPageX },
        0xED => Instruction { mnemonic: Mnemonic::SBC, addressing_mode: AddressingMode::Absolute },
        0xFD => Instruction { mnemonic: Mnemonic::SBC, addressing_mode: AddressingMode::AbsoluteX { penalty: true } },
        0xF9 => Instruction { mnemonic: Mnemonic::SBC, addressing_mode: AddressingMode::AbsoluteY { penalty: true } },
        0xE1 => Instruction { mnemonic: Mnemonic::SBC, addressing_mode: AddressingMode::IndexedIndirect },
        0xF1 => Instruction { mnemonic: Mnemonic::SBC, addressing_mode: AddressingMode::IndirectIndexed },
        0xC9 => Instruction { mnemonic: Mnemonic::CMP, addressing_mode: AddressingMode::Immediate },
        0xC5 => Instruction { mnemonic: Mnemonic::CMP, addressing_mode: AddressingMode::ZeroPage },
        0xD5 => Instruction { mnemonic: Mnemonic::CMP, addressing_mode: AddressingMode::ZeroPageX },
        0xCD => Instruction { mnemonic: Mnemonic::CMP, addressing_mode: AddressingMode::Absolute },
        0xDD => Instruction { mnemonic: Mnemonic::CMP, addressing_mode: AddressingMode::AbsoluteX { penalty: true } },
        0xD9 => Instruction { mnemonic: Mnemonic::CMP, addressing_mode: AddressingMode::AbsoluteY { penalty: true } },
        0xC1 => Instruction { mnemonic: Mnemonic::CMP, addressing_mode: AddressingMode::IndexedIndirect },
        0xD1 => Instruction { mnemonic: Mnemonic::CMP, addressing_mode: AddressingMode::IndirectIndexed },
        0xE0 => Instruction { mnemonic: Mnemonic::CPX, addressing_mode: AddressingMode::Immediate },
        0xE4 => Instruction { mnemonic: Mnemonic::CPX, addressing_mode: AddressingMode::ZeroPage },
        0xEC => Instruction { mnemonic: Mnemonic::CPX, addressing_mode: AddressingMode::Absolute },
        0xC0 => Instruction { mnemonic: Mnemonic::CPY, addressing_mode: AddressingMode::Immediate },
        0xC4 => Instruction { mnemonic: Mnemonic::CPY, addressing_mode: AddressingMode::ZeroPage },
        0xCC => Instruction { mnemonic: Mnemonic::CPY, addressing_mode: AddressingMode::Absolute },

        0xE6 => Instruction { mnemonic: Mnemonic::INC, addressing_mode: AddressingMode::ZeroPage },
        0xF6 => Instruction { mnemonic: Mnemonic::INC, addressing_mode: AddressingMode::ZeroPageX },
        0xEE => Instruction { mnemonic: Mnemonic::INC, addressing_mode: AddressingMode::Absolute },
        0xFE => Instruction { mnemonic: Mnemonic::INC, addressing_mode: AddressingMode::AbsoluteX { penalty: false } },
        0xE8 => Instruction { mnemonic: Mnemonic::INX, addressing_mode: AddressingMode::Implicit },
        0xC8 => Instruction { mnemonic: Mnemonic::INY, addressing_mode: AddressingMode::Implicit },
        0xC6 => Instruction { mnemonic: Mnemonic::DEC, addressing_mode: AddressingMode::ZeroPage },
        0xD6 => Instruction { mnemonic: Mnemonic::DEC, addressing_mode: AddressingMode::ZeroPageX },
        0xCE => Instruction { mnemonic: Mnemonic::DEC, addressing_mode: AddressingMode::Absolute },
        0xDE => Instruction { mnemonic: Mnemonic::DEC, addressing_mode: AddressingMode::AbsoluteX { penalty: false } },
        0xCA => Instruction { mnemonic: Mnemonic::DEX, addressing_mode: AddressingMode::Implicit },
        0x88 => Instruction { mnemonic: Mnemonic::DEY, addressing_mode: AddressingMode::Implicit },

        0x0A => Instruction { mnemonic: Mnemonic::ASL, addressing_mode: AddressingMode::Accumulator },
        0x06 => Instruction { mnemonic: Mnemonic::ASL, addressing_mode: AddressingMode::ZeroPage },
        0x16 => Instruction { mnemonic: Mnemonic::ASL, addressing_mode: AddressingMode::ZeroPageX },
        0x0E => Instruction { mnemonic: Mnemonic::ASL, addressing_mode: AddressingMode::Absolute },
        0x1E => Instruction { mnemonic: Mnemonic::ASL, addressing_mode: AddressingMode::AbsoluteX { penalty: false } },
        0x4A => Instruction { mnemonic: Mnemonic::LSR, addressing_mode: AddressingMode::Accumulator },
        0x46 => Instruction { mnemonic: Mnemonic::LSR, addressing_mode: AddressingMode::ZeroPage },
        0x56 => Instruction { mnemonic: Mnemonic::LSR, addressing_mode: AddressingMode::ZeroPageX },
        0x4E => Instruction { mnemonic: Mnemonic::LSR, addressing_mode: AddressingMode::Absolute },
        0x5E => Instruction { mnemonic: Mnemonic::LSR, addressing_mode: AddressingMode::AbsoluteX { penalty: false } },
        0x2A => Instruction { mnemonic: Mnemonic::ROL, addressing_mode: AddressingMode::Accumulator },
        0x26 => Instruction { mnemonic: Mnemonic::ROL, addressing_mode: AddressingMode::ZeroPage },
        0x36 => Instruction { mnemonic: Mnemonic::ROL, addressing_mode: AddressingMode::ZeroPageX },
        0x2E => Instruction { mnemonic: Mnemonic::ROL, addressing_mode: AddressingMode::Absolute },
        0x3E => Instruction { mnemonic: Mnemonic::ROL, addressing_mode: AddressingMode::AbsoluteX { penalty: false } },
        0x6A => Instruction { mnemonic: Mnemonic::ROR, addressing_mode: AddressingMode::Accumulator },
        0x66 => Instruction { mnemonic: Mnemonic::ROR, addressing_mode: AddressingMode::ZeroPage },
        0x76 => Instruction { mnemonic: Mnemonic::ROR, addressing_mode: AddressingMode::ZeroPageX },
        0x6E => Instruction { mnemonic: Mnemonic::ROR, addressing_mode: AddressingMode::Absolute },
        0x7E => Instruction { mnemonic: Mnemonic::ROR, addressing_mode: AddressingMode::AbsoluteX { penalty: false } },

        0x4C => Instruction { mnemonic: Mnemonic::JMP, addressing_mode: AddressingMode::Absolute },
        0x6C => Instruction { mnemonic: Mnemonic::JMP, addressing_mode: AddressingMode::Indirect },
        0x20 => Instruction { mnemonic: Mnemonic::JSR, addressing_mode: AddressingMode::Absolute },
        0x60 => Instruction { mnemonic: Mnemonic::RTS, addressing_mode: AddressingMode::Implicit },
        0x40 => Instruction { mnemonic: Mnemonic::RTI, addressing_mode: AddressingMode::Implicit },

        0x90 => Instruction { mnemonic: Mnemonic::BCC, addressing_mode: AddressingMode::Relative },
        0xB0 => Instruction { mnemonic: Mnemonic::BCS, addressing_mode: AddressingMode::Relative },
        0xF0 => Instruction { mnemonic: Mnemonic::BEQ, addressing_mode: AddressingMode::Relative },
        0x30 => Instruction { mnemonic: Mnemonic::BMI, addressing_mode: AddressingMode::Relative },
        0xD0 => Instruction { mnemonic: Mnemonic::BNE, addressing_mode: AddressingMode::Relative },
        0x10 => Instruction { mnemonic: Mnemonic::BPL, addressing_mode: AddressingMode::Relative },
        0x50 => Instruction { mnemonic: Mnemonic::BVC, addressing_mode: AddressingMode::Relative },
        0x70 => Instruction { mnemonic: Mnemonic::BVS, addressing_mode: AddressingMode::Relative },

        0x18 => Instruction { mnemonic: Mnemonic::CLC, addressing_mode: AddressingMode::Implicit },
        0xD8 => Instruction { mnemonic: Mnemonic::CLD, addressing_mode: AddressingMode::Implicit },
        0x58 => Instruction { mnemonic: Mnemonic::CLI, addressing_mode: AddressingMode::Implicit },
        0xB8 => Instruction { mnemonic: Mnemonic::CLV, addressing_mode: AddressingMode::Implicit },

        0x38 => Instruction { mnemonic: Mnemonic::SEC, addressing_mode: AddressingMode::Implicit },
        0xF8 => Instruction { mnemonic: Mnemonic::SED, addressing_mode: AddressingMode::Implicit },
        0x78 => Instruction { mnemonic: Mnemonic::SEI, addressing_mode: AddressingMode::Implicit },

        0x00 => Instruction { mnemonic: Mnemonic::BRK, addressing_mode: AddressingMode::Implicit },

        // Undocumented
        0xEB => Instruction { mnemonic: Mnemonic::SBC, addressing_mode: AddressingMode::Immediate },

        0x04 | 0x44 | 0x64 => Instruction { mnemonic: Mnemonic::NOP, addressing_mode: AddressingMode::ZeroPage },
        0x0C => Instruction { mnemonic: Mnemonic::NOP, addressing_mode: AddressingMode::Absolute },
        0x14 | 0x34 | 0x54 | 0x74 | 0xD4 | 0xF4 => Instruction { mnemonic: Mnemonic::NOP, addressing_mode: AddressingMode::ZeroPageX },
        0x1A | 0x3A | 0x5A | 0x7A | 0xDA | 0xEA | 0xFA => Instruction { mnemonic: Mnemonic::NOP, addressing_mode: AddressingMode::Implicit },
        0x1C | 0x3C | 0x5C | 0x7C | 0xDC | 0xFC => Instruction { mnemonic: Mnemonic::NOP, addressing_mode: AddressingMode::AbsoluteX { penalty: true } },
        0x80 | 0x82 | 0x89 | 0xC2 | 0xE2 => Instruction { mnemonic: Mnemonic::NOP, addressing_mode: AddressingMode::Immediate },

        0xA3 => Instruction { mnemonic: Mnemonic::LAX, addressing_mode: AddressingMode::IndexedIndirect },
        0xA7 => Instruction { mnemonic: Mnemonic::LAX, addressing_mode: AddressingMode::ZeroPage },
        0xAF => Instruction { mnemonic: Mnemonic::LAX, addressing_mode: AddressingMode::Absolute },
        0xB3 => Instruction { mnemonic: Mnemonic::LAX, addressing_mode: AddressingMode::IndirectIndexed },
        0xB7 => Instruction { mnemonic: Mnemonic::LAX, addressing_mode: AddressingMode::ZeroPageY },
        0xBF => Instruction { mnemonic: Mnemonic::LAX, addressing_mode: AddressingMode::AbsoluteY { penalty: true } },

        0x83 => Instruction { mnemonic: Mnemonic::SAX, addressing_mode: AddressingMode::IndexedIndirect },
        0x87 => Instruction { mnemonic: Mnemonic::SAX, addressing_mode: AddressingMode::ZeroPage },
        0x8F => Instruction { mnemonic: Mnemonic::SAX, addressing_mode: AddressingMode::Absolute },
        0x97 => Instruction { mnemonic: Mnemonic::SAX, addressing_mode: AddressingMode::ZeroPageY },

        0xC3 => Instruction { mnemonic: Mnemonic::DCP, addressing_mode: AddressingMode::IndexedIndirect },
        0xC7 => Instruction { mnemonic: Mnemonic::DCP, addressing_mode: AddressingMode::ZeroPage },
        0xCF => Instruction { mnemonic: Mnemonic::DCP, addressing_mode: AddressingMode::Absolute },
        0xD3 => Instruction { mnemonic: Mnemonic::DCP, addressing_mode: AddressingMode::IndirectIndexed },
        0xD7 => Instruction { mnemonic: Mnemonic::DCP, addressing_mode: AddressingMode::ZeroPageX },
        0xDB => Instruction { mnemonic: Mnemonic::DCP, addressing_mode: AddressingMode::AbsoluteY { penalty: false } },
        0xDF => Instruction { mnemonic: Mnemonic::DCP, addressing_mode: AddressingMode::AbsoluteX { penalty: false } },

        0xE3 => Instruction { mnemonic: Mnemonic::ISB, addressing_mode: AddressingMode::IndexedIndirect },
        0xE7 => Instruction { mnemonic: Mnemonic::ISB, addressing_mode: AddressingMode::ZeroPage },
        0xEF => Instruction { mnemonic: Mnemonic::ISB, addressing_mode: AddressingMode::Absolute },
        0xF3 => Instruction { mnemonic: Mnemonic::ISB, addressing_mode: AddressingMode::IndirectIndexed },
        0xF7 => Instruction { mnemonic: Mnemonic::ISB, addressing_mode: AddressingMode::ZeroPageX },
        0xFB => Instruction { mnemonic: Mnemonic::ISB, addressing_mode: AddressingMode::AbsoluteY { penalty: false } },
        0xFF => Instruction { mnemonic: Mnemonic::ISB, addressing_mode: AddressingMode::AbsoluteX { penalty: false } },

        0x03 => Instruction { mnemonic: Mnemonic::SLO, addressing_mode: AddressingMode::IndexedIndirect },
        0x07 => Instruction { mnemonic: Mnemonic::SLO, addressing_mode: AddressingMode::ZeroPage },
        0x0F => Instruction { mnemonic: Mnemonic::SLO, addressing_mode: AddressingMode::Absolute },
        0x13 => Instruction { mnemonic: Mnemonic::SLO, addressing_mode: AddressingMode::IndirectIndexed },
        0x17 => Instruction { mnemonic: Mnemonic::SLO, addressing_mode: AddressingMode::ZeroPageX },
        0x1B => Instruction { mnemonic: Mnemonic::SLO, addressing_mode: AddressingMode::AbsoluteY { penalty: false } },
        0x1F => Instruction { mnemonic: Mnemonic::SLO, addressing_mode: AddressingMode::AbsoluteX { penalty: false } },

        0x23 => Instruction { mnemonic: Mnemonic::RLA, addressing_mode: AddressingMode::IndexedIndirect },
        0x27 => Instruction { mnemonic: Mnemonic::RLA, addressing_mode: AddressingMode::ZeroPage },
        0x2F => Instruction { mnemonic: Mnemonic::RLA, addressing_mode: AddressingMode::Absolute },
        0x33 => Instruction { mnemonic: Mnemonic::RLA, addressing_mode: AddressingMode::IndirectIndexed },
        0x37 => Instruction { mnemonic: Mnemonic::RLA, addressing_mode: AddressingMode::ZeroPageX },
        0x3B => Instruction { mnemonic: Mnemonic::RLA, addressing_mode: AddressingMode::AbsoluteY { penalty: false } },
        0x3F => Instruction { mnemonic: Mnemonic::RLA, addressing_mode: AddressingMode::AbsoluteX { penalty: false } },

        0x43 => Instruction { mnemonic: Mnemonic::SRE, addressing_mode: AddressingMode::IndexedIndirect },
        0x47 => Instruction { mnemonic: Mnemonic::SRE, addressing_mode: AddressingMode::ZeroPage },
        0x4F => Instruction { mnemonic: Mnemonic::SRE, addressing_mode: AddressingMode::Absolute },
        0x53 => Instruction { mnemonic: Mnemonic::SRE, addressing_mode: AddressingMode::IndirectIndexed },
        0x57 => Instruction { mnemonic: Mnemonic::SRE, addressing_mode: AddressingMode::ZeroPageX },
        0x5B => Instruction { mnemonic: Mnemonic::SRE, addressing_mode: AddressingMode::AbsoluteY { penalty: false } },
        0x5F => Instruction { mnemonic: Mnemonic::SRE, addressing_mode: AddressingMode::AbsoluteX { penalty: false } },

        0x63 => Instruction { mnemonic: Mnemonic::RRA, addressing_mode: AddressingMode::IndexedIndirect },
        0x67 => Instruction { mnemonic: Mnemonic::RRA, addressing_mode: AddressingMode::ZeroPage },
        0x6F => Instruction { mnemonic: Mnemonic::RRA, addressing_mode: AddressingMode::Absolute },
        0x73 => Instruction { mnemonic: Mnemonic::RRA, addressing_mode: AddressingMode::IndirectIndexed },
        0x77 => Instruction { mnemonic: Mnemonic::RRA, addressing_mode: AddressingMode::ZeroPageX },
        0x7B => Instruction { mnemonic: Mnemonic::RRA, addressing_mode: AddressingMode::AbsoluteY { penalty: false } },
        0x7F => Instruction { mnemonic: Mnemonic::RRA, addressing_mode: AddressingMode::AbsoluteX { penalty: false } },

        _ => Instruction { mnemonic: Mnemonic::NOP, addressing_mode: AddressingMode::Implicit },
    }
}

// Operand fetch.
impl<M: Mapper, C: Controller> Nes<M, C> {
    /// The operand of an instruction whose opcode was fetched: an address for
    /// most modes, the offset byte for `Relative`, `A` for `Accumulator`.
    #[verifier::opaque]
    pub open spec fn operand_value(&self, mode: AddressingMode) -> u16 {
        let pc = self.cpu.pc;
        match mode {
            AddressingMode::Implicit => 0,
            AddressingMode::Accumulator => self.cpu.a as u16,
            AddressingMode::Immediate => pc,
            AddressingMode::ZeroPage => self.read_value(pc) as u16,
            AddressingMode::ZeroPageX => ((self.read_value(pc) + self.cpu.x) % 0x100) as u16,
            AddressingMode::ZeroPageY => ((self.read_value(pc) + self.cpu.y) % 0x100) as u16,
            AddressingMode::Absolute => self.word_value(pc),
            AddressingMode::AbsoluteX { penalty } => self.word_value(pc).wrapping_add(
                self.cpu.x as u16,
            ),
            AddressingMode::AbsoluteY { penalty } => self.word_value(pc).wrapping_add(
                self.cpu.y as u16,
            ),
            AddressingMode::Relative => self.read_value(pc) as u16,
            AddressingMode::Indirect => self.after_read_word(pc).indirect_value(
                self.word_value(pc),
            ),
            AddressingMode::IndexedIndirect => self.after_read(pc).indirect_value(
                ((self.read_value(pc) + self.cpu.x) % 0x100) as u16,
            ),
            AddressingMode::IndirectIndexed => self.after_read(pc).indirect_value(
                self.read_value(pc) as u16,
            ).wrapping_add(self.cpu.y as u16),
        }
    }

    /// The cycles that the operand fetch takes: one per byte read, one more
    /// for an index added in zero page or before an indirection; for an
    /// absolute index one more on a page cross if `penalty`, else always; for
    /// an index after an indirection one more on a page cross.
    #[verifier::opaque]
    pub open spec fn operand_cost(&self, mode: AddressingMode) -> u64 {
        let pc = self.cpu.pc;
        match mode {
            AddressingMode::Implicit => 0,
            AddressingMode::Accumulator => 0,
            AddressingMode::Immediate => 0,
            AddressingMode::ZeroPage => 1,
            AddressingMode::ZeroPageX => 2,
            AddressingMode::ZeroPageY => 2,
            AddressingMode::Absolute => 2,
            AddressingMode::AbsoluteX { penalty } => if !penalty || crosses_page(
                self.cpu.x as u16,
                self.word_value(pc),
            ) {
                3
            } else {
                2
            },
            AddressingMode::AbsoluteY { penalty } => if !penalty || crosses_page(
                self.cpu.y as u16,
                self.word_value(pc),
            ) {
                3
            } else {
                2
            },
            AddressingMode::Relative => 1,
            AddressingMode::Indirect => 4,
            AddressingMode::IndexedIndirect => 4,
            AddressingMode::IndirectIndexed => if crosses_page(
                self.cpu.y as u16,
                self.after_read(pc).indirect_value(self.read_value(pc) as u16),
            ) {
                4
            } else {
                3
            },
        }
    }

    /// The machine after the operand fetch: the operand bytes read, `PC`
    /// behind them, and the cycles of `operand_cost` spent.
    #[verifier::opaque]
    pub open spec fn after_get_operand(self, mode: AddressingMode) -> Self {
        let pc = self.cpu.pc;
        match mode {
            AddressingMode::Implicit => self,
            AddressingMode::Accumulator => self,
            AddressingMode::Immediate => self.with_pc(pc.wrapping_add(1)),
            AddressingMode::ZeroPage => self.after_read(pc).with_pc(pc.wrapping_add(1)),
            AddressingMode::ZeroPageX => self.after_read(pc).with_pc(pc.wrapping_add(1)).ticked(),
            AddressingMode::ZeroPageY => self.after_read(pc).with_pc(pc.wrapping_add(1)).ticked(),
            AddressingMode::Absolute => self.after_read_word(pc).with_pc(pc.wrapping_add(2)),
            AddressingMode::AbsoluteX { penalty } => {
                let r = self.after_read_word(pc).with_pc(pc.wrapping_add(2));
                if !penalty || crosses_page(self.cpu.x as u16, self.word_value(pc)) {
                    r.ticked()
                } else {
                    r
                }
            },
            AddressingMode::AbsoluteY { penalty } => {
                let r = self.after_read_word(pc).with_pc(pc.wrapping_add(2));
                if !penalty || crosses_page(self.cpu.y as u16, self.word_value(pc)) {
                    r.ticked()
                } else {
                    r
                }
            },
            AddressingMode::Relative => self.after_read(pc).with_pc(pc.wrapping_add(1)),
            AddressingMode::Indirect => self.after_read_word(pc).after_read_on_indirect(
                self.word_value(pc),
            ).with_pc(pc.wrapping_add(2)),
            AddressingMode::IndexedIndirect => self.after_read(pc).after_read_on_indirect(
                ((self.read_value(pc) + self.cpu.x) % 0x100) as u16,
            ).with_pc(pc.wrapping_add(1)).ticked(),
            AddressingMode::IndirectIndexed => {
                let r = self.after_read(pc).after_read_on_indirect(
                    self.read_value(pc) as u16,
                ).with_pc(pc.wrapping_add(1));
                if crosses_page(
                    self.cpu.y as u16,
                    self.after_read(pc).indirect_value(self.read_value(pc) as u16),
                ) {
                    r.ticked()
                } else {
                    r
                }
            },
        }
    }
}

impl<M: Mapper, C: Controller> Nes<M, C> {
    /// An absolute operand indexed by `X` or `Y` takes two cycles to fetch,
    /// and a third one only on a page cross where `penalty` is set, always
    /// where it is not.
    pub proof fn law_absolute_index_cost(&self, penalty: bool)
        ensures
            self.operand_cost(AddressingMode::AbsoluteX { penalty }) == 2 + (if !penalty
                || crosses_page(self.cpu.x as u16, self.word_value(self.cpu.pc)) {
                1int
            } else {
                0int
            }),
            self.operand_cost(AddressingMode::AbsoluteY { penalty }) == 2 + (if !penalty
                || crosses_page(self.cpu.y as u16, self.word_value(self.cpu.pc)) {
                1int
            } else {
                0int
            }),
    {
        reveal(Nes::operand_cost);
    }
}

pub fn get_operand<M: Mapper, C: Controller>(
    nes: &mut Nes<M, C>,
    addressing_mode: &AddressingMode,
) -> (r: Word)
    ensures
        r.0 == old(nes).operand_value(*addressing_mode),
        *final(nes) == old(nes).after_get_operand(*addressing_mode),
        old(nes).spent(*final(nes)) == old(nes).operand_cost(*addressing_mode),
        old(nes).spent(*final(nes)) <= 4,
        final(nes).cpu == (Cpu {
            pc: final(nes).cpu.pc,
            cycles: final(nes).cpu.cycles,
            ..old(nes).cpu
        }),
        final(nes).ppu.scan == old(nes).ppu.scan,
        final(nes).interrupt == old(nes).interrupt,
{
    reveal(Nes::after_get_operand);
    reveal(Nes::operand_cost);
    reveal(Nes::operand_value);
    match addressing_mode {
        AddressingMode::Implicit => Word(0x00),
        AddressingMode::Accumulator => Word(nes.cpu.a as u16),
        AddressingMode::Immediate => {
            let operand = nes.cpu.pc;
            nes.cpu.pc = nes.cpu.pc.wrapping_add(1);
            Word(operand)
        },
        AddressingMode::ZeroPage => {
            let operand = nes.read(nes.cpu.pc) as u16;
            nes.cpu.pc = nes.cpu.pc.wrapping_add(1);
            Word(operand)
        },
        AddressingMode::ZeroPageX => {
            let operand = (nes.read(nes.cpu.pc) as u16 + nes.cpu.x as u16) % 0x100;
            nes.cpu.pc = nes.cpu.pc.wrapping_add(1);
            nes.tick();
            Word(operand)
        },
        AddressingMode::ZeroPageY => {
            let operand = (nes.read(nes.cpu.pc) as u16 + nes.cpu.y as u16) % 0x100;
            nes.cpu.pc = nes.cpu.pc.wrapping_add(1);
            nes.tick();
            Word(operand)
        },
        AddressingMode::Absolute => {
            let operand = nes.read_word(nes.cpu.pc);
            nes.cpu.pc = nes.cpu.pc.wrapping_add(2);
            Word(operand)
        },
        AddressingMode::AbsoluteX { penalty } => {
            let data = nes.read_word(nes.cpu.pc);
            let operand = data.wrapping_add(nes.cpu.x as u16);
            nes.cpu.pc = nes.cpu.pc.wrapping_add(2);
            if *penalty {
                if page_crossed_u16(nes.cpu.x as u16, data) {
                    nes.tick();
                }
            } else {
                nes.tick();
            }
            Word(operand)
        },
        AddressingMode::AbsoluteY { penalty } => {
            let data = nes.read_word(nes.cpu.pc);
            let operand = data.wrapping_add(nes.cpu.y as u16);
            nes.cpu.pc = nes.cpu.pc.wrapping_add(2);
            if *penalty {
                if page_crossed_u16(nes.cpu.y as u16, data) {
                    nes.tick();
                }
            } else {
                nes.tick();
            }
            Word(operand)
        },
        AddressingMode::Relative => {
            let operand = nes.read(nes.cpu.pc) as u16;
            nes.cpu.pc = nes.cpu.pc.wrapping_add(1);
            Word(operand)
        },
        AddressingMode::Indirect => {
            let data = nes.read_word(nes.cpu.pc);
            let operand = nes.read_on_indirect(data);
            nes.cpu.pc = nes.cpu.pc.wrapping_add(2);
            Word(operand)
        },
        AddressingMode::IndexedIndirect => {
            let data = nes.read(nes.cpu.pc);
            let operand = nes.read_on_indirect((data as u16 + nes.cpu.x as u16) % 0x100);
            nes.cpu.pc = nes.cpu.pc.wrapping_add(1);
            nes.tick();
            Word(operand)
        },
        AddressingMode::IndirectIndexed => {
            let y = nes.cpu.y as u16;
            let data = nes.read(nes.cpu.pc) as u16;
            let base = nes.read_on_indirect(data);
            let operand = base.wrapping_add(y);
            nes.cpu.pc = nes.cpu.pc.wrapping_add(1);
            if page_crossed_u16(y, base) {
                nes.tick();
            }
            Word(operand)
        },
    }
}

// What each instruction does to the machine.
impl<M: Mapper, C: Controller> Nes<M, C> {
    /// The machine after `LDA` (LoaD Accumulator).
    #[verifier::opaque]
    pub open spec fn after_lda(self, operand: u16) -> Self {
        let m = self.read_value(operand);
        let r = self.after_read(operand);
        Nes { cpu: Cpu { a: m, ..r.cpu }.zn(m as u16), ..r }
    }

    /// The machine after `LDX` (LoaD X register).
    #[verifier::opaque]
    pub open spec fn after_ldx(self, operand: u16) -> Self {
        let m = self.read_value(operand);
        let r = self.after_read(operand);
        Nes { cpu: Cpu { x: m, ..r.cpu }.zn(m as u16), ..r }
    }

    /// The machine after `LDY` (LoaD Y register).
    #[verifier::opaque]
    pub open spec fn after_ldy(self, operand: u16) -> Self {
        let m = self.read_value(operand);
        let r = self.after_read(operand);
        Nes { cpu: Cpu { y: m, ..r.cpu }.zn(m as u16), ..r }
    }

    /// The machine after `TAX` (Transfer Accumulator to X).
    #[verifier::opaque]
    pub open spec fn after_tax(self) -> Self {
        Nes { cpu: Cpu { x: self.cpu.a, ..self.cpu }.zn(self.cpu.a as u16), ..self }.ticked()
    }

    /// The machine after `TSX` (Transfer Stack pointer to X).
    #[verifier::opaque]
    pub open spec fn after_tsx(self) -> Self {
        Nes { cpu: Cpu { x: self.cpu.s, ..self.cpu }.zn(self.cpu.s as u16), ..self }.ticked()
    }

    /// The machine after `TAY` (Transfer Accumulator to Y).
    #[verifier::opaque]
    pub open spec fn after_tay(self) -> Self {
        Nes { cpu: Cpu { y: self.cpu.a, ..self.cpu }.zn(self.cpu.a as u16), ..self }.ticked()
    }

    /// The machine after `TXA` (Transfer X to Accumulator).
    #[verifier::opaque]
    pub open spec fn after_txa(self) -> Self {
        Nes { cpu: Cpu { a: self.cpu.x, ..self.cpu }.zn(self.cpu.x as u16), ..self }.ticked()
    }

    /// The machine after `TXS` (Transfer X to Stack pointer).
    #[verifier::opaque]
    pub open spec fn after_txs(self) -> Self {
        self.with_s(self.cpu.x).ticked()
    }

    /// The machine after `TYA` (Transfer Y to Accumulator).
    #[verifier::opaque]
    pub open spec fn after_tya(self) -> Self {
        Nes { cpu: Cpu { a: self.cpu.y, ..self.cpu }.zn(self.cpu.y as u16), ..self }.ticked()
    }

    /// The machine after `PLA` (PulL Accumulator).
    #[verifier::opaque]
    pub open spec fn after_pla(self) -> Self {
        let m = self.pull_value();
        let r = self.after_pull();
        Nes { cpu: Cpu { a: m, ..r.cpu }.zn(m as u16), ..r }.ticked().ticked()
    }

    /// The machine after `PLP` (PulL Processor status: `B` is cleared, bit 5 is set).
    #[verifier::opaque]
    pub open spec fn after_plp(self) -> Self {
        self.after_pull().with_p(Status::pulled(self.pull_value())).ticked().ticked()
    }

    /// The machine after `AND` (bitwise AND with accumulator).
    #[verifier::opaque]
    pub open spec fn after_and(self, operand: u16) -> Self {
        let m = self.read_value(operand);
        let r = self.after_read(operand);
        Nes { cpu: Cpu { a: r.cpu.a & m, ..r.cpu }.zn((r.cpu.a & m) as u16), ..r }
    }

    /// The machine after `EOR` (bitwise Exclusive OR).
    #[verifier::opaque]
    pub open spec fn after_eor(self, operand: u16) -> Self {
        let m = self.read_value(operand);
        let r = self.after_read(operand);
        Nes { cpu: Cpu { a: r.cpu.a ^ m, ..r.cpu }.zn((r.cpu.a ^ m) as u16), ..r }
    }

    /// The machine after `ORA` (bitwise OR with Accumulator).
    #[verifier::opaque]
    pub open spec fn after_ora(self, operand: u16) -> Self {
        let m = self.read_value(operand);
        let r = self.after_read(operand);
        Nes { cpu: Cpu { a: r.cpu.a | m, ..r.cpu }.zn((r.cpu.a | m) as u16), ..r }
    }

    /// `Z` where `A & m` is zero, `V` and `N` from bits 6 and 7 of `m`.
    #[verifier::opaque]
    pub open spec fn after_bit(self, operand: u16) -> Self {
        let m = self.read_value(operand);
        let r = self.after_read(operand);
        Nes {
            cpu: r.cpu.flag(STATUS_Z, r.cpu.a & m == 0).flag(STATUS_V, (m >> 6) & 1 == 1).flag(
                STATUS_N,
                (m >> 7) & 1 == 1,
            ),
            ..r
        }
    }

    /// The machine after `ADC` (ADd with Carry).
    #[verifier::opaque]
    pub open spec fn after_adc(self, operand: u16) -> Self {
        let m = self.read_value(operand);
        let r = self.after_read(operand);
        Nes { cpu: r.cpu.added(m), ..r }
    }

    /// Subtracting is adding the complement.
    #[verifier::opaque]
    pub open spec fn after_sbc(self, operand: u16) -> Self {
        let m = self.read_value(operand);
        let r = self.after_read(operand);
        Nes { cpu: r.cpu.added(!m), ..r }
    }

    /// The machine after `CMP` (CoMPare accumulator): `C` where `A` is at least
    /// the byte read, `Z` and `N` from their 16-bit difference.
    #[verifier::opaque]
    pub open spec fn after_compare_a(self, operand: u16) -> Self {
        let m = self.read_value(operand);
        let r = self.after_read(operand);
        Nes {
            cpu: r.cpu.compared(r.cpu.a, m, (r.cpu.a as u16).wrapping_sub(m as u16)),
            ..r
        }
    }

    /// The machine after `CPX` (ComPare X register).
    #[verifier::opaque]
    pub open spec fn after_cpx(self, operand: u16) -> Self {
        let m = self.read_value(operand);
        let r = self.after_read(operand);
        Nes { cpu: r.cpu.compared(r.cpu.x, m, r.cpu.x.wrapping_sub(m) as u16), ..r }
    }

    /// The machine after `CPY` (ComPare Y register).
    #[verifier::opaque]
    pub open spec fn after_cpy(self, operand: u16) -> Self {
        let m = self.read_value(operand);
        let r = self.after_read(operand);
        Nes { cpu: r.cpu.compared(r.cpu.y, m, r.cpu.y.wrapping_sub(m) as u16), ..r }
    }

    /// The machine after the byte at `operand` was read, `result` put in its
    /// place, and `Z` and `N` set from `result`.
    #[verifier::opaque]
    pub open spec fn after_modify(self, operand: u16, result: u8) -> Self {
        let r = self.after_read(operand);
        Nes { cpu: r.cpu.zn(result as u16), ..r }.after_write(operand, result)
    }

    /// The machine after `INC` (INCrement memory).
    #[verifier::opaque]
    pub open spec fn after_inc(self, operand: u16) -> Self {
        self.after_modify(operand, self.read_value(operand).wrapping_add(1)).ticked()
    }

    /// The machine after `DEC` (DECrement memory).
    #[verifier::opaque]
    pub open spec fn after_dec(self, operand: u16) -> Self {
        self.after_modify(operand, self.read_value(operand).wrapping_sub(1)).ticked()
    }

    /// The machine after `INX` (INcrement X register).
    #[verifier::opaque]
    pub open spec fn after_inx(self) -> Self {
        let v = self.cpu.x.wrapping_add(1);
        Nes { cpu: Cpu { x: v, ..self.cpu }.zn(v as u16), ..self }.ticked()
    }

    /// The machine after `INY` (INcrement Y register).
    #[verifier::opaque]
    pub open spec fn after_iny(self) -> Self {
        let v = self.cpu.y.wrapping_add(1);
        Nes { cpu: Cpu { y: v, ..self.cpu }.zn(v as u16), ..self }.ticked()
    }

    /// The machine after `DEX` (DEcrement X register).
    #[verifier::opaque]
    pub open spec fn after_dex(self) -> Self {
        let v = self.cpu.x.wrapping_sub(1);
        Nes { cpu: Cpu { x: v, ..self.cpu }.zn(v as u16), ..self }.ticked()
    }

    /// The machine after `DEY` (DEcrement Y register).
    #[verifier::opaque]
    pub open spec fn after_dey(self) -> Self {
        let v = self.cpu.y.wrapping_sub(1);
        Nes { cpu: Cpu { y: v, ..self.cpu }.zn(v as u16), ..self }.ticked()
    }

    /// The machine after the byte at `operand` was read, `result` put in its
    /// place, `C` set to `carry`, and `Z` and `N` set from `result`.
    #[verifier::opaque]
    pub open spec fn after_shift(self, operand: u16, result: u8, carry: bool) -> Self {
        let r = self.after_read(operand);
        Nes { cpu: r.cpu.flag(STATUS_C, carry).zn(result as u16), ..r }.after_write(
            operand,
            result,
        )
    }

    /// The machine after `A` became `result`, `C` became `carry`, and `Z` and
    /// `N` were set from `result`; one cycle.
    #[verifier::opaque]
    pub open spec fn after_shift_a(self, result: u8, carry: bool) -> Self {
        Nes {
            cpu: Cpu { a: result, ..self.cpu.flag(STATUS_C, carry) }.zn(result as u16),
            ..self
        }.ticked()
    }

    /// The machine after `ASL` (Arithmetic Shift Left).
    #[verifier::opaque]
    pub open spec fn after_asl(self, operand: u16) -> Self {
        let m = self.read_value(operand);
        self.after_shift(operand, shifted_left(m, false), top_bit(m)).ticked()
    }

    /// The machine after `LSR` (Logical Shift Right).
    #[verifier::opaque]
    pub open spec fn after_lsr(self, operand: u16) -> Self {
        let m = self.read_value(operand);
        self.after_shift(operand, shifted_right(m, false), bottom_bit(m)).ticked()
    }

    /// The machine after `ROL` (ROtate Left).
    #[verifier::opaque]
    pub open spec fn after_rol(self, operand: u16) -> Self {
        let m = self.read_value(operand);
        self.after_shift(
            operand,
            shifted_left(m, has_flag(self.cpu.p.bits, STATUS_C)),
            top_bit(m),
        ).ticked()
    }

    /// The machine after `ROR` (ROtate Right).
    #[verifier::opaque]
    pub open spec fn after_ror(self, operand: u16) -> Self {
        let m = self.read_value(operand);
        self.after_shift(
            operand,
            shifted_right(m, has_flag(self.cpu.p.bits, STATUS_C)),
            bottom_bit(m),
        ).ticked()
    }

    /// The machine after `JSR` (Jump to SubRoutine).
    #[verifier::opaque]
    pub open spec fn after_jsr(self, operand: u16) -> Self {
        self.after_push_word(self.cpu.pc.wrapping_sub(1)).ticked().with_pc(operand)
    }

    /// The machine after `RTS` (ReTurn from Subroutine).
    #[verifier::opaque]
    pub open spec fn after_rts(self) -> Self {
        let t = self.ticked().ticked().ticked();
        t.after_pull_word().with_pc(t.pull_word_value().wrapping_add(1))
    }

    /// The machine after `RTI` (ReTurn from Interrupt).
    #[verifier::opaque]
    pub open spec fn after_rti(self) -> Self {
        let t = self.ticked().ticked();
        let p = t.after_pull().with_p(Status::pulled(t.pull_value()));
        p.after_pull_word().with_pc(p.pull_word_value())
    }

    /// The machine after a branch was taken: one cycle, one more if the
    /// target lies on another page than `PC`, and `PC` moved by the signed
    /// offset in the low byte of `operand`.
    #[verifier::opaque]
    pub open spec fn after_branch(self, operand: u16) -> Self {
        let delta = sign_extend((operand % 0x100) as u8);
        let t = if crosses_page(delta, self.cpu.pc) {
            self.ticked().ticked()
        } else {
            self.ticked()
        };
        t.with_pc(self.cpu.pc.wrapping_add(delta))
    }

    /// The machine after a conditional branch: as after a branch if `taken`,
    /// else unchanged.
    pub open spec fn after_branch_if(self, taken: bool, operand: u16) -> Self {
        if taken {
            self.after_branch(operand)
        } else {
            self
        }
    }

    pub open spec fn after_flag(self, mask: u8, on: bool) -> Self {
        Nes { cpu: self.cpu.flag(mask, on), ..self }.ticked()
    }

    /// The machine after `BRK`: `PC` pushed, the status pushed with `B` and
    /// bit 5 set, one cycle, and `PC` loaded from 0xFFFE.
    #[verifier::opaque]
    pub open spec fn after_brk(self) -> Self {
        let pushed = self.after_push_word(self.cpu.pc).after_push(
            self.cpu.p.bits | OPERATED_B,
        ).ticked();
        pushed.after_read_word(0xFFFE).with_pc(pushed.word_value(0xFFFE))
    }

    /// The machine after `LAX` (Load Accumulator and X register).
    #[verifier::opaque]
    pub open spec fn after_lax(self, operand: u16) -> Self {
        let m = self.read_value(operand);
        let r = self.after_read(operand);
        Nes { cpu: Cpu { a: m, x: m, ..r.cpu }.zn(m as u16), ..r }
    }

    /// The machine after `DCP` (Decrement memory and ComPare to accumulator).
    #[verifier::opaque]
    pub open spec fn after_dcp(self, operand: u16) -> Self {
        self.after_modify(operand, self.read_value(operand).wrapping_sub(1)).after_compare_a(
            operand,
        )
    }

    /// The machine after `ISB` (Increment memory and SuBtract with carry).
    #[verifier::opaque]
    pub open spec fn after_isb(self, operand: u16) -> Self {
        self.after_modify(operand, self.read_value(operand).wrapping_add(1)).after_sbc(operand)
    }

    /// The machine after `SLO` (arithmetic Shift Left and bitwise Or with accumulator).
    #[verifier::opaque]
    pub open spec fn after_slo(self, operand: u16) -> Self {
        let m = self.read_value(operand);
        self.after_shift(operand, shifted_left(m, false), top_bit(m)).after_ora(operand)
    }

    /// The machine after `RLA` (Rotate Left and bitwise And with accumulator).
    #[verifier::opaque]
    pub open spec fn after_rla(self, operand: u16) -> Self {
        let m = self.read_value(operand);
        self.after_shift(
            operand,
            shifted_left(m, has_flag(self.cpu.p.bits, STATUS_C)),
            top_bit(m),
        ).after_and(operand)
    }

    /// The machine after `SRE` (logical Shift Right and bitwise Exclusive or).
    #[verifier::opaque]
    pub open spec fn after_sre(self, operand: u16) -> Self {
        let m = self.read_value(operand);
        self.after_shift(operand, shifted_right(m, false), bottom_bit(m)).after_eor(operand)
    }

    /// The machine after `RRA` (Rotate Right and Add with carry).
    #[verifier::opaque]
    pub open spec fn after_rra(self, operand: u16) -> Self {
        let m = self.read_value(operand);
        self.after_shift(
            operand,
            shifted_right(m, has_flag(self.cpu.p.bits, STATUS_C)),
            bottom_bit(m),
        ).after_adc(operand)
    }
}

/// `m` moved one bit to the left, with `carry_in` as the new bit 0.
pub open spec fn shifted_left(m: u8, carry_in: bool) -> u8 {
    if carry_in {
        (m << 1) | 0x01
    } else {
        m << 1
    }
}

/// `m` moved one bit to the right, with `carry_in` as the new bit 7.
pub open spec fn shifted_right(m: u8, carry_in: bool) -> u8 {
    if carry_in {
        (m >> 1) | 0x80
    } else {
        m >> 1
    }
}

pub open spec fn top_bit(m: u8) -> bool {
    (m >> 7) & 1 == 1
}

pub open spec fn bottom_bit(m: u8) -> bool {
    m & 1 == 1
}

pub fn shift_left(m: u8, carry_in: bool) -> (r: (u8, bool))
    ensures
        r.0 == shifted_left(m, carry_in),
        r.1 == top_bit(m),
{
    let c = (m >> 7) & 1 == 1;
    if carry_in {
        ((m << 1) | 0x01, c)
    } else {
        (m << 1, c)
    }
}

pub fn shift_right(m: u8, carry_in: bool) -> (r: (u8, bool))
    ensures
        r.0 == shifted_right(m, carry_in),
        r.1 == bottom_bit(m),
{
    let c = m & 1 == 1;
    if carry_in {
        ((m >> 1) | 0x80, c)
    } else {
        (m >> 1, c)
    }
}

/// LoaD Accumulator
pub fn lda<M: Mapper, C: Controller>(nes: &mut Nes<M, C>, operand: Word)
    ensures
        *final(nes) == old(nes).after_lda(operand.0),
        old(nes).ran(*final(nes), 1, 1),
{
    reveal(Nes::after_lda);
    nes.cpu.a = nes.read(operand.0);
    nes.cpu.p.set_zn(nes.cpu.a as u16);
}

/// LoaD X register
pub fn ldx<M: Mapper, C: Controller>(nes: &mut Nes<M, C>, operand: Word)
    ensures
        *final(nes) == old(nes).after_ldx(operand.0),
        old(nes).ran(*final(nes), 1, 1),
{
    reveal(Nes::after_ldx);
    nes.cpu.x = nes.read(operand.0);
    nes.cpu.p.set_zn(nes.cpu.x as u16);
}

/// LoaD Y register
pub fn ldy<M: Mapper, C: Controller>(nes: &mut Nes<M, C>, operand: Word)
    ensures
        *final(nes) == old(nes).after_ldy(operand.0),
        old(nes).ran(*final(nes), 1, 1),
{
    reveal(Nes::after_ldy);
    nes.cpu.y = nes.read(operand.0);
    nes.cpu.p.set_zn(nes.cpu.y as u16);
}

/// STore Accumulator
pub fn sta<M: Mapper, C: Controller>(nes: &mut Nes<M, C>, operand: Word)
    ensures
        *final(nes) == old(nes).after_write(operand.0, old(nes).cpu.a),
        old(nes).ran(*final(nes), 1, 514),
        old(nes).spent(*final(nes)) == old(nes).write_cost(operand.0),
{
    nes.write(operand.0, nes.cpu.a);
}

/// STore X register
pub fn stx<M: Mapper, C: Controller>(nes: &mut Nes<M, C>, operand: Word)
    ensures
        *final(nes) == old(nes).after_write(operand.0, old(nes).cpu.x),
        old(nes).ran(*final(nes), 1, 514),
        old(nes).spent(*final(nes)) == old(nes).write_cost(operand.0),
{
    nes.write(operand.0, nes.cpu.x);
}

/// STore Y register
pub fn sty<M: Mapper, C: Controller>(nes: &mut Nes<M, C>, operand: Word)
    ensures
        *final(nes) == old(nes).after_write(operand.0, old(nes).cpu.y),
        old(nes).ran(*final(nes), 1, 514),
        old(nes).spent(*final(nes)) == old(nes).write_cost(operand.0),
{
    nes.write(operand.0, nes.cpu.y);
}

/// Transfer Accumulator to X
pub fn tax<M: Mapper, C: Controller>(nes: &mut Nes<M, C>)
    ensures
        *final(nes) == old(nes).after_tax(),
        old(nes).ran(*final(nes), 1, 1),
{
    reveal(Nes::after_tax);
    nes.cpu.x = nes.cpu.a;
    nes.cpu.p.set_zn(nes.cpu.x as u16);
    nes.tick();
}

/// Transfer Stack pointer to X
pub fn tsx<M: Mapper, C: Controller>(nes: &mut Nes<M, C>)
    ensures
        *final(nes) == old(nes).after_tsx(),
        old(nes).ran(*final(nes), 1, 1),
{
    reveal(Nes::after_tsx);
    nes.cpu.x = nes.cpu.s;
    nes.cpu.p.set_zn(nes.cpu.x as u16);
    nes.tick();
}

/// Transfer Accumulator to Y
pub fn tay<M: Mapper, C: Controller>(nes: &mut Nes<M, C>)
    ensures
        *final(nes) == old(nes).after_tay(),
        old(nes).ran(*final(nes), 1, 1),
{
    reveal(Nes::after_tay);
    nes.cpu.y = nes.cpu.a;
    nes.cpu.p.set_zn(nes.cpu.y as u16);
    nes.tick();
}

/// Transfer X to Accumulator
pub fn txa<M: Mapper, C: Controller>(nes: &mut Nes<M, C>)
    ensures
        *final(nes) == old(nes).after_txa(),
        old(nes).ran(*final(nes), 1, 1),
{
    reveal(Nes::after_txa);
    nes.cpu.a = nes.cpu.x;
    nes.cpu.p.set_zn(nes.cpu.a as u16);
    nes.tick();
}

/// Transfer Y to Accumulator
pub fn tya<M: Mapper, C: Controller>(nes: &mut Nes<M, C>)
    ensures
        *final(nes) == old(nes).after_tya(),
        old(nes).ran(*final(nes), 1, 1),
{
    reveal(Nes::after_tya);
    nes.cpu.a = nes.cpu.y;
    nes.cpu.p.set_zn(nes.cpu.a as u16);
    nes.tick();
}

/// Transfer X to Stack pointer
pub fn txs<M: Mapper, C: Controller>(nes: &mut Nes<M, C>)
    ensures
        *final(nes) == old(nes).after_txs(),
        old(nes).ran(*final(nes), 1, 1),
{
    reveal(Nes::after_txs);
    nes.cpu.s = nes.cpu.x;
    nes.tick();
}

/// PusH Accumulator
pub fn pha<M: Mapper, C: Controller>(nes: &mut Nes<M, C>)
    ensures
        *final(nes) == old(nes).after_push(old(nes).cpu.a).ticked(),
        old(nes).ran(*final(nes), 2, 2),
{
    nes.push_stack(nes.cpu.a);
    nes.tick();
}

/// PusH Processor status, with `B` and bit 5 set
pub fn php<M: Mapper, C: Controller>(nes: &mut Nes<M, C>)
    ensures
        *final(nes) == old(nes).after_push(old(nes).cpu.p.bits | OPERATED_B).ticked(),
        old(nes).ran(*final(nes), 2, 2),
{
    // https://wiki.nesdev.com/w/index.php/Status_flags#The_B_flag
    // http://visual6502.org/wiki/index.php?title=6502_BRK_and_B_bit
    nes.push_stack(nes.cpu.p.bits | OPERATED_B);
    nes.tick();
}

/// PulL Accumulator
pub fn pla<M: Mapper, C: Controller>(nes: &mut Nes<M, C>)
    ensures
        *final(nes) == old(nes).after_pla(),
        old(nes).ran(*final(nes), 3, 3),
{
    reveal(Nes::after_pla);
    nes.cpu.a = nes.pull_stack();
    nes.cpu.p.set_zn(nes.cpu.a as u16);
    nes.tick();
    nes.tick();
}

/// PulL Processor status: `B` is cleared, bit 5 is set
pub fn plp<M: Mapper, C: Controller>(nes: &mut Nes<M, C>)
    ensures
        *final(nes) == old(nes).after_plp(),
        old(nes).ran(*final(nes), 3, 3),
        has_flag(final(nes).cpu.p.bits, STATUS_R),
{
    reveal(Nes::after_plp);
    // https://wiki.nesdev.com/w/index.php/Status_flags#The_B_flag
    // http://visual6502.org/wiki/index.php?title=6502_BRK_and_B_bit
    let value = nes.pull_stack();
    nes.cpu.p = Status::from_pulled(value);
    nes.tick();
    nes.tick();
}

/// bitwise AND with accumulator
pub fn and<M: Mapper, C: Controller>(nes: &mut Nes<M, C>, operand: Word)
    ensures
        *final(nes) == old(nes).after_and(operand.0),
        old(nes).ran(*final(nes), 1, 1),
{
    reveal(Nes::after_and);
    let value = nes.read(operand.0);
    nes.cpu.a = nes.cpu.a & value;
    nes.cpu.p.set_zn(nes.cpu.a as u16);
}

/// bitwise Exclusive OR
pub fn eor<M: Mapper, C: Controller>(nes: &mut Nes<M, C>, operand: Word)
    ensures
        *final(nes) == old(nes).after_eor(operand.0),
        old(nes).ran(*final(nes), 1, 1),
{
    reveal(Nes::after_eor);
    let value = nes.read(operand.0);
    nes.cpu.a = nes.cpu.a ^ value;
    nes.cpu.p.set_zn(nes.cpu.a as u16);
}

/// bitwise OR with Accumulator
pub fn ora<M: Mapper, C: Controller>(nes: &mut Nes<M, C>, operand: Word)
    ensures
        *final(nes) == old(nes).after_ora(operand.0),
        old(nes).ran(*final(nes), 1, 1),
{
    reveal(Nes::after_ora);
    let value = nes.read(operand.0);
    nes.cpu.a = nes.cpu.a | value;
    nes.cpu.p.set_zn(nes.cpu.a as u16);
}

/// test BITs
pub fn bit<M: Mapper, C: Controller>(nes: &mut Nes<M, C>, operand: Word)
    ensures
        *final(nes) == old(nes).after_bit(operand.0),
        old(nes).ran(*final(nes), 1, 1),
{
    reveal(Nes::after_bit);
    let value = nes.read(operand.0);
    let data = nes.cpu.a & value;
    nes.cpu.p.set(STATUS_Z, data == 0);
    nes.cpu.p.set(STATUS_V, (value >> 6) & 1 == 1);
    nes.cpu.p.set(STATUS_N, (value >> 7) & 1 == 1);
}

/// ADd with Carry
pub fn adc<M: Mapper, C: Controller>(nes: &mut Nes<M, C>, operand: Word)
    ensures
        *final(nes) == old(nes).after_adc(operand.0),
        old(nes).ran(*final(nes), 1, 1),
{
    reveal(Nes::after_adc);
    let val = nes.read(operand.0);
    nes.cpu.add_with_carry(val);
}

/// SuBtract with carry
pub fn sbc<M: Mapper, C: Controller>(nes: &mut Nes<M, C>, operand: Word)
    ensures
        *final(nes) == old(nes).after_sbc(operand.0),
        old(nes).ran(*final(nes), 1, 1),
{
    reveal(Nes::after_sbc);
    let val = !nes.read(operand.0);
    nes.cpu.add_with_carry(val);
}

/// Compares the accumulator with memory
pub fn compare_a<M: Mapper, C: Controller>(nes: &mut Nes<M, C>, operand: Word)
    ensures
        *final(nes) == old(nes).after_compare_a(operand.0),
        old(nes).ran(*final(nes), 1, 1),
{
    reveal(Nes::after_compare_a);
    let value = nes.read(operand.0);
    let diff = (nes.cpu.a as u16).wrapping_sub(value as u16);
    nes.cpu.p.set(STATUS_C, value <= nes.cpu.a);
    nes.cpu.p.set_zn(diff);
}

/// CoMPare accumulator
pub fn cmp<M: Mapper, C: Controller>(nes: &mut Nes<M, C>, operand: Word)
    ensures
        *final(nes) == old(nes).after_compare_a(operand.0),
        old(nes).ran(*final(nes), 1, 1),
{
    reveal(Nes::after_compare_a);
    compare_a(nes, operand);
}

/// ComPare X register
pub fn cpx<M: Mapper, C: Controller>(nes: &mut Nes<M, C>, operand: Word)
    ensures
        *final(nes) == old(nes).after_cpx(operand.0),
        old(nes).ran(*final(nes), 1, 1),
{
    reveal(Nes::after_cpx);
    let value = nes.read(operand.0);
    let diff = nes.cpu.x.wrapping_sub(value);
    nes.cpu.p.set(STATUS_C, value <= nes.cpu.x);
    nes.cpu.p.set_zn(diff as u16);
}

/// ComPare Y register
pub fn cpy<M: Mapper, C: Controller>(nes: &mut Nes<M, C>, operand: Word)
    ensures
        *final(nes) == old(nes).after_cpy(operand.0),
        old(nes).ran(*final(nes), 1, 1),
{
    reveal(Nes::after_cpy);
    let value = nes.read(operand.0);
    let diff = nes.cpu.y.wrapping_sub(value);
    nes.cpu.p.set(STATUS_C, value <= nes.cpu.y);
    nes.cpu.p.set_zn(diff as u16);
}

/// INCrement memory
pub fn inc<M: Mapper, C: Controller>(nes: &mut Nes<M, C>, operand: Word)
    ensures
        *final(nes) == old(nes).after_inc(operand.0),
        old(nes).ran(*final(nes), 3, 516),
        old(nes).spent(*final(nes)) == 2 + old(nes).after_read(operand.0).write_cost(operand.0),
{
    reveal(Nes::after_inc);
    step_memory(nes, operand, true);
    nes.tick();
}

/// DECrement memory
pub fn dec<M: Mapper, C: Controller>(nes: &mut Nes<M, C>, operand: Word)
    ensures
        *final(nes) == old(nes).after_dec(operand.0),
        old(nes).ran(*final(nes), 3, 516),
        old(nes).spent(*final(nes)) == 2 + old(nes).after_read(operand.0).write_cost(operand.0),
{
    reveal(Nes::after_dec);
    step_memory(nes, operand, false);
    nes.tick();
}

/// INcrement X register
pub fn inx<M: Mapper, C: Controller>(nes: &mut Nes<M, C>)
    ensures
        *final(nes) == old(nes).after_inx(),
        old(nes).ran(*final(nes), 1, 1),
{
    reveal(Nes::after_inx);
    nes.cpu.x = nes.cpu.x.wrapping_add(1);
    nes.cpu.p.set_zn(nes.cpu.x as u16);
    nes.tick();
}

/// INcrement Y register
pub fn iny<M: Mapper, C: Controller>(nes: &mut Nes<M, C>)
    ensures
        *final(nes) == old(nes).after_iny(),
        old(nes).ran(*final(nes), 1, 1),
{
    reveal(Nes::after_iny);
    nes.cpu.y = nes.cpu.y.wrapping_add(1);
    nes.cpu.p.set_zn(nes.cpu.y as u16);
    nes.tick();
}

/// DEcrement X register
pub fn dex<M: Mapper, C: Controller>(nes: &mut Nes<M, C>)
    ensures
        *final(nes) == old(nes).after_dex(),
        old(nes).ran(*final(nes), 1, 1),
{
    reveal(Nes::after_dex);
    nes.cpu.x = nes.cpu.x.wrapping_sub(1);
    nes.cpu.p.set_zn(nes.cpu.x as u16);
    nes.tick();
}

/// DEcrement Y register
pub fn dey<M: Mapper, C: Controller>(nes: &mut Nes<M, C>)
    ensures
        *final(nes) == old(nes).after_dey(),
        old(nes).ran(*final(nes), 1, 1),
{
    reveal(Nes::after_dey);
    nes.cpu.y = nes.cpu.y.wrapping_sub(1);
    nes.cpu.p.set_zn(nes.cpu.y as u16);
    nes.tick();
}

/// Reads the byte at `operand`, shifts it left (`left`) or right with
/// `carry_in` as the bit that enters, writes it back and sets `C`, `Z`, `N`.
pub fn shift_memory<M: Mapper, C: Controller>(
    nes: &mut Nes<M, C>,
    operand: Word,
    left: bool,
    carry_in: bool,
)
    ensures
        *final(nes) == (if left {
            old(nes).after_shift(
                operand.0,
                shifted_left(old(nes).read_value(operand.0), carry_in),
                top_bit(old(nes).read_value(operand.0)),
            )
        } else {
            old(nes).after_shift(
                operand.0,
                shifted_right(old(nes).read_value(operand.0), carry_in),
                bottom_bit(old(nes).read_value(operand.0)),
            )
        }),
        old(nes).ran(*final(nes), 2, 515),
        old(nes).spent(*final(nes)) == 1 + old(nes).after_read(operand.0).write_cost(operand.0),
{
    reveal(Nes::after_shift);
    let data = nes.read(operand.0);
    let (result, carry) = if left {
        shift_left(data, carry_in)
    } else {
        shift_right(data, carry_in)
    };
    nes.cpu.p.set(STATUS_C, carry);
    nes.cpu.p.set_zn(result as u16);
    nes.write(operand.0, result);
}

/// Shifts `A` left (`left`) or right with `carry_in` as the bit that enters,
/// and sets `C`, `Z`, `N`; one cycle.
pub fn shift_accumulator<M: Mapper, C: Controller>(nes: &mut Nes<M, C>, left: bool, carry_in: bool)
    ensures
        *final(nes) == (if left {
            old(nes).after_shift_a(shifted_left(old(nes).cpu.a, carry_in), top_bit(old(nes).cpu.a))
        } else {
            old(nes).after_shift_a(
                shifted_right(old(nes).cpu.a, carry_in),
                bottom_bit(old(nes).cpu.a),
            )
        }),
        old(nes).ran(*final(nes), 1, 1),
{
    reveal(Nes::after_shift_a);
    let (result, carry) = if left {
        shift_left(nes.cpu.a, carry_in)
    } else {
        shift_right(nes.cpu.a, carry_in)
    };
    nes.cpu.p.set(STATUS_C, carry);
    nes.cpu.a = result;
    nes.cpu.p.set_zn(result as u16);
    nes.tick();
}

/// Arithmetic Shift Left
pub fn asl<M: Mapper, C: Controller>(nes: &mut Nes<M, C>, operand: Word)
    ensures
        *final(nes) == old(nes).after_asl(operand.0),
        old(nes).ran(*final(nes), 3, 516),
        old(nes).spent(*final(nes)) == 2 + old(nes).after_read(operand.0).write_cost(operand.0),
{
    reveal(Nes::after_asl);
    let carry_in = false;
    shift_memory(nes, operand, true, carry_in);
    nes.tick();
}

/// Arithmetic Shift Left, on the accumulator
pub fn asl_for_accumelator<M: Mapper, C: Controller>(nes: &mut Nes<M, C>)
    ensures
        *final(nes) == old(nes).after_shift_a(shifted_left(old(nes).cpu.a, false), top_bit(old(nes).cpu.a)),
        old(nes).ran(*final(nes), 1, 1),
{
    reveal(Nes::after_shift_a);
    let carry_in = false;
    shift_accumulator(nes, true, carry_in);
}

/// Logical Shift Right
pub fn lsr<M: Mapper, C: Controller>(nes: &mut Nes<M, C>, operand: Word)
    ensures
        *final(nes) == old(nes).after_lsr(operand.0),
        old(nes).ran(*final(nes), 3, 516),
        old(nes).spent(*final(nes)) == 2 + old(nes).after_read(operand.0).write_cost(operand.0),
{
    reveal(Nes::after_lsr);
    let carry_in = false;
    shift_memory(nes, operand, false, carry_in);
    nes.tick();
}

/// Logical Shift Right, on the accumulator
pub fn lsr_for_accumelator<M: Mapper, C: Controller>(nes: &mut Nes<M, C>)
    ensures
        *final(nes) == old(nes).after_shift_a(shifted_right(old(nes).cpu.a, false), bottom_bit(old(nes).cpu.a)),
        old(nes).ran(*final(nes), 1, 1),
{
    reveal(Nes::after_shift_a);
    let carry_in = false;
    shift_accumulator(nes, false, carry_in);
}

/// ROtate Left
pub fn rol<M: Mapper, C: Controller>(nes: &mut Nes<M, C>, operand: Word)
    ensures
        *final(nes) == old(nes).after_rol(operand.0),
        old(nes).ran(*final(nes), 3, 516),
        old(nes).spent(*final(nes)) == 2 + old(nes).after_read(operand.0).write_cost(operand.0),
{
    reveal(Nes::after_rol);
    let carry_in = nes.cpu.p.contains(STATUS_C);
    shift_memory(nes, operand, true, carry_in);
    nes.tick();
}

/// ROtate Left, on the accumulator
pub fn rol_for_accumelator<M: Mapper, C: Controller>(nes: &mut Nes<M, C>)
    ensures
        *final(nes) == old(nes).after_shift_a(shifted_left(old(nes).cpu.a, has_flag(old(nes).cpu.p.bits, STATUS_C)), top_bit(old(nes).cpu.a)),
        old(nes).ran(*final(nes), 1, 1),
{
    reveal(Nes::after_shift_a);
    let carry_in = nes.cpu.p.contains(STATUS_C);
    shift_accumulator(nes, true, carry_in);
}

/// ROtate Right
pub fn ror<M: Mapper, C: Controller>(nes: &mut Nes<M, C>, operand: Word)
    ensures
        *final(nes) == old(nes).after_ror(operand.0),
        old(nes).ran(*final(nes), 3, 516),
        old(nes).spent(*final(nes)) == 2 + old(nes).after_read(operand.0).write_cost(operand.0),
{
    reveal(Nes::after_ror);
    let carry_in = nes.cpu.p.contains(STATUS_C);
    shift_memory(nes, operand, false, carry_in);
    nes.tick();
}

/// ROtate Right, on the accumulator
pub fn ror_for_accumelator<M: Mapper, C: Controller>(nes: &mut Nes<M, C>)
    ensures
        *final(nes) == old(nes).after_shift_a(shifted_right(old(nes).cpu.a, has_flag(old(nes).cpu.p.bits, STATUS_C)), bottom_bit(old(nes).cpu.a)),
        old(nes).ran(*final(nes), 1, 1),
{
    reveal(Nes::after_shift_a);
    let carry_in = nes.cpu.p.contains(STATUS_C);
    shift_accumulator(nes, false, carry_in);
}

/// JuMP
pub fn jmp<M: Mapper, C: Controller>(nes: &mut Nes<M, C>, operand: Word)
    ensures
        *final(nes) == old(nes).with_pc(operand.0),
        old(nes).ran(*final(nes), 0, 0),
{
    nes.cpu.pc = operand.0;
}

/// Jump to SubRoutine
pub fn jsr<M: Mapper, C: Controller>(nes: &mut Nes<M, C>, operand: Word)
    ensures
        *final(nes) == old(nes).after_jsr(operand.0),
        old(nes).ran(*final(nes), 3, 3),
{
    reveal(Nes::after_jsr);
    nes.push_stack_word(nes.cpu.pc.wrapping_sub(1));
    nes.tick();
    nes.cpu.pc = operand.0;
}

/// ReTurn from Subroutine
pub fn rts<M: Mapper, C: Controller>(nes: &mut Nes<M, C>)
    ensures
        *final(nes) == old(nes).after_rts(),
        old(nes).ran(*final(nes), 5, 5),
{
    reveal(Nes::after_rts);
    nes.tick();
    nes.tick();
    nes.tick();
    nes.cpu.pc = nes.pull_stack_word().wrapping_add(1);
}

/// ReTurn from Interrupt
pub fn rti<M: Mapper, C: Controller>(nes: &mut Nes<M, C>)
    ensures
        *final(nes) == old(nes).after_rti(),
        old(nes).ran(*final(nes), 5, 5),
        has_flag(final(nes).cpu.p.bits, STATUS_R),
{
    reveal(Nes::after_rti);
    // https://wiki.nesdev.com/w/index.php/Status_flags#The_B_flag
    // http://visual6502.org/wiki/index.php?title=6502_BRK_and_B_bit
    nes.tick();
    nes.tick();
    let value = nes.pull_stack();
    nes.cpu.p = Status::from_pulled(value);
    nes.cpu.pc = nes.pull_stack_word();
}

/// Takes a branch: one cycle, and one more if the target is on another page
pub fn branch<M: Mapper, C: Controller>(nes: &mut Nes<M, C>, operand: Word)
    ensures
        *final(nes) == old(nes).after_branch(operand.0),
        old(nes).ran(*final(nes), 1, 2),
        old(nes).spent(*final(nes)) == (if crosses_page(
            sign_extend((operand.0 % 0x100) as u8),
            old(nes).cpu.pc,
        ) {
            2u64
        } else {
            1u64
        }),
{
    reveal(Nes::after_branch);
    nes.tick();
    let delta = extend_sign(low_byte(operand.0));
    if page_crossed_u16(delta, nes.cpu.pc) {
        nes.tick();
    }
    nes.cpu.pc = nes.cpu.pc.wrapping_add(delta);
}

/// Branch if Carry Clear
pub fn bcc<M: Mapper, C: Controller>(nes: &mut Nes<M, C>, operand: Word)
    ensures
        *final(nes) == old(nes).after_branch_if(!has_flag(old(nes).cpu.p.bits, STATUS_C), operand.0),
        old(nes).ran(*final(nes), 0, 2),
{
    if !nes.cpu.p.contains(STATUS_C) {
        branch(nes, operand)
    }
}

/// Branch if Carry Set
pub fn bcs<M: Mapper, C: Controller>(nes: &mut Nes<M, C>, operand: Word)
    ensures
        *final(nes) == old(nes).after_branch_if(has_flag(old(nes).cpu.p.bits, STATUS_C), operand.0),
        old(nes).ran(*final(nes), 0, 2),
{
    if nes.cpu.p.contains(STATUS_C) {
        branch(nes, operand)
    }
}

/// Branch if EQual
pub fn beq<M: Mapper, C: Controller>(nes: &mut Nes<M, C>, operand: Word)
    ensures
        *final(nes) == old(nes).after_branch_if(has_flag(old(nes).cpu.p.bits, STATUS_Z), operand.0),
        old(nes).ran(*final(nes), 0, 2),
{
    if nes.cpu.p.contains(STATUS_Z) {
        branch(nes, operand)
    }
}

/// Branch if MInus
pub fn bmi<M: Mapper, C: Controller>(nes: &mut Nes<M, C>, operand: Word)
    ensures
        *final(nes) == old(nes).after_branch_if(has_flag(old(nes).cpu.p.bits, STATUS_N), operand.0),
        old(nes).ran(*final(nes), 0, 2),
{
    if nes.cpu.p.contains(STATUS_N) {
        branch(nes, operand)
    }
}

/// Branch if NotEqual
pub fn bne<M: Mapper, C: Controller>(nes: &mut Nes<M, C>, operand: Word)
    ensures
        *final(nes) == old(nes).after_branch_if(!has_flag(old(nes).cpu.p.bits, STATUS_Z), operand.0),
        old(nes).ran(*final(nes), 0, 2),
{
    if !nes.cpu.p.contains(STATUS_Z) {
        branch(nes, operand)
    }
}

/// Branch if PLus
pub fn bpl<M: Mapper, C: Controller>(nes: &mut Nes<M, C>, operand: Word)
    ensures
        *final(nes) == old(nes).after_branch_if(!has_flag(old(nes).cpu.p.bits, STATUS_N), operand.0),
        old(nes).ran(*final(nes), 0, 2),
{
    if !nes.cpu.p.contains(STATUS_N) {
        branch(nes, operand)
    }
}

/// Branch if oVerflow Clear
pub fn bvc<M: Mapper, C: Controller>(nes: &mut Nes<M, C>, operand: Word)
    ensures
        *final(nes) == old(nes).after_branch_if(!has_flag(old(nes).cpu.p.bits, STATUS_V), operand.0),
        old(nes).ran(*final(nes), 0, 2),
{
    if !nes.cpu.p.contains(STATUS_V) {
        branch(nes, operand)
    }
}

/// Branch if oVerflow Set
pub fn bvs<M: Mapper, C: Controller>(nes: &mut Nes<M, C>, operand: Word)
    ensures
        *final(nes) == old(nes).after_branch_if(has_flag(old(nes).cpu.p.bits, STATUS_V), operand.0),
        old(nes).ran(*final(nes), 0, 2),
{
    if nes.cpu.p.contains(STATUS_V) {
        branch(nes, operand)
    }
}

/// CLear Carry
pub fn clc<M: Mapper, C: Controller>(nes: &mut Nes<M, C>)
    ensures
        *final(nes) == old(nes).after_flag(STATUS_C, false),
        old(nes).ran(*final(nes), 1, 1),
{
    nes.cpu.p.set(STATUS_C, false);
    nes.tick();
}

/// CLear Decimal
pub fn cld<M: Mapper, C: Controller>(nes: &mut Nes<M, C>)
    ensures
        *final(nes) == old(nes).after_flag(STATUS_D, false),
        old(nes).ran(*final(nes), 1, 1),
{
    nes.cpu.p.set(STATUS_D, false);
    nes.tick();
}

/// Clear Interrupt
pub fn cli<M: Mapper, C: Controller>(nes: &mut Nes<M, C>)
    ensures
        *final(nes) == old(nes).after_flag(STATUS_I, false),
        old(nes).ran(*final(nes), 1, 1),
{
    nes.cpu.p.set(STATUS_I, false);
    nes.tick();
}

/// CLear oVerflow
pub fn clv<M: Mapper, C: Controller>(nes: &mut Nes<M, C>)
    ensures
        *final(nes) == old(nes).after_flag(STATUS_V, false),
        old(nes).ran(*final(nes), 1, 1),
{
    nes.cpu.p.set(STATUS_V, false);
    nes.tick();
}

/// SEt Carry flag
pub fn sec<M: Mapper, C: Controller>(nes: &mut Nes<M, C>)
    ensures
        *final(nes) == old(nes).after_flag(STATUS_C, true),
        old(nes).ran(*final(nes), 1, 1),
{
    nes.cpu.p.set(STATUS_C, true);
    nes.tick();
}

/// SEt Decimal flag
pub fn sed<M: Mapper, C: Controller>(nes: &mut Nes<M, C>)
    ensures
        *final(nes) == old(nes).after_flag(STATUS_D, true),
        old(nes).ran(*final(nes), 1, 1),
{
    nes.cpu.p.set(STATUS_D, true);
    nes.tick();
}

/// SEt Interrupt disable
pub fn sei<M: Mapper, C: Controller>(nes: &mut Nes<M, C>)
    ensures
        *final(nes) == old(nes).after_flag(STATUS_I, true),
        old(nes).ran(*final(nes), 1, 1),
{
    nes.cpu.p.set(STATUS_I, true);
    nes.tick();
}

/// BReaK(force interrupt)
pub fn brk<M: Mapper, C: Controller>(nes: &mut Nes<M, C>)
    ensures
        *final(nes) == old(nes).after_brk(),
        final(nes).ppu.scan == old(nes).ppu.scan,
        final(nes).interrupt == old(nes).interrupt,
        old(nes).spent(*final(nes)) == 6,
        final(nes).cpu.p == old(nes).cpu.p,
{
    reveal(Nes::after_brk);
    nes.push_stack_word(nes.cpu.pc);
    // https://wiki.nesdev.com/w/index.php/Status_flags#The_B_flag
    // http://visual6502.org/wiki/index.php?title=6502_BRK_and_B_bit
    nes.push_stack(nes.cpu.p.bits | OPERATED_B);
    nes.tick();
    nes.cpu.pc = nes.read_word(0xFFFE);
}

/// No OPeration
pub fn nop<M: Mapper, C: Controller>(nes: &mut Nes<M, C>)
    ensures
        *final(nes) == old(nes).ticked(),
        old(nes).ran(*final(nes), 1, 1),
{
    nes.tick();
}

/// Load Accumulator and X register
pub fn lax<M: Mapper, C: Controller>(nes: &mut Nes<M, C>, operand: Word)
    ensures
        *final(nes) == old(nes).after_lax(operand.0),
        old(nes).ran(*final(nes), 1, 1),
{
    reveal(Nes::after_lax);
    let data = nes.read(operand.0);
    nes.cpu.a = data;
    nes.cpu.x = data;
    nes.cpu.p.set_zn(data as u16);
}

/// Store Accumulator and X register
pub fn sax<M: Mapper, C: Controller>(nes: &mut Nes<M, C>, operand: Word)
    ensures
        *final(nes) == old(nes).after_write(operand.0, old(nes).cpu.a & old(nes).cpu.x),
        old(nes).ran(*final(nes), 1, 514),
        old(nes).spent(*final(nes)) == old(nes).write_cost(operand.0),
{
    nes.write(operand.0, nes.cpu.a & nes.cpu.x);
}

/// Reads the byte at `operand`, writes `result` of it back (one more or one
/// less) and sets `Z` and `N`.
pub fn step_memory<M: Mapper, C: Controller>(nes: &mut Nes<M, C>, operand: Word, up: bool)
    ensures
        *final(nes) == old(nes).after_modify(
            operand.0,
            if up {
                old(nes).read_value(operand.0).wrapping_add(1)
            } else {
                old(nes).read_value(operand.0).wrapping_sub(1)
            },
        ),
        old(nes).ran(*final(nes), 2, 515),
        old(nes).spent(*final(nes)) == 1 + old(nes).after_read(operand.0).write_cost(operand.0),
{
    reveal(Nes::after_modify);
    let data = nes.read(operand.0);
    let result = if up {
        data.wrapping_add(1)
    } else {
        data.wrapping_sub(1)
    };
    nes.cpu.p.set_zn(result as u16);
    nes.write(operand.0, result);
}

/// Decrement memory and ComPare to accumulator
pub fn dcp<M: Mapper, C: Controller>(nes: &mut Nes<M, C>, operand: Word)
    ensures
        *final(nes) == old(nes).after_dcp(operand.0),
        old(nes).ran(*final(nes), 3, 516),
{
    reveal(Nes::after_dcp);
    step_memory(nes, operand, false);
    compare_a(nes, operand)
}

/// Increment memory and SuBtract with carry
pub fn isb<M: Mapper, C: Controller>(nes: &mut Nes<M, C>, operand: Word)
    ensures
        *final(nes) == old(nes).after_isb(operand.0),
        old(nes).ran(*final(nes), 3, 516),
{
    reveal(Nes::after_isb);
    step_memory(nes, operand, true);
    sbc(nes, operand)
}

/// arithmetic Shift Left and bitwise Or with accumulator
pub fn slo<M: Mapper, C: Controller>(nes: &mut Nes<M, C>, operand: Word)
    ensures
        *final(nes) == old(nes).after_slo(operand.0),
        old(nes).ran(*final(nes), 3, 516),
{
    reveal(Nes::after_slo);
    shift_memory(nes, operand, true, false);
    ora(nes, operand)
}

/// Rotate Left and bitwise And with accumulator
pub fn rla<M: Mapper, C: Controller>(nes: &mut Nes<M, C>, operand: Word)
    ensures
        *final(nes) == old(nes).after_rla(operand.0),
        old(nes).ran(*final(nes), 3, 516),
{
    reveal(Nes::after_rla);
    let carry_in = nes.cpu.p.contains(STATUS_C);
    shift_memory(nes, operand, true, carry_in);
    and(nes, operand)
}

/// logical Shift Right and bitwise Exclusive or
pub fn sre<M: Mapper, C: Controller>(nes: &mut Nes<M, C>, operand: Word)
    ensures
        *final(nes) == old(nes).after_sre(operand.0),
        old(nes).ran(*final(nes), 3, 516),
{
    reveal(Nes::after_sre);
    shift_memory(nes, operand, false, false);
    eor(nes, operand)
}

/// Rotate Right and Add with carry
pub fn rra<M: Mapper, C: Controller>(nes: &mut Nes<M, C>, operand: Word)
    ensures
        *final(nes) == old(nes).after_rra(operand.0),
        old(nes).ran(*final(nes), 3, 516),
{
    reveal(Nes::after_rra);
    let carry_in = nes.cpu.p.contains(STATUS_C);
    shift_memory(nes, operand, false, carry_in);
    adc(nes, operand)
}

impl<M: Mapper, C: Controller> Nes<M, C> {
    /// The machine after the instruction `instruction` has run on `operand`.
    /// A store through `(zp),Y` takes one cycle more.
    #[verifier::opaque]
    pub open spec fn after_run(self, instruction: Instruction, operand: u16) -> Self {
        let s = self;
        match (instruction.mnemonic, instruction.addressing_mode) {
            (Mnemonic::LDA, _) => s.after_lda(operand),
            (Mnemonic::LDX, _) => s.after_ldx(operand),
            (Mnemonic::LDY, _) => s.after_ldy(operand),
            (Mnemonic::STA, AddressingMode::IndirectIndexed) => s.after_write(operand, s.cpu.a).ticked(),
            (Mnemonic::STA, _) => s.after_write(operand, s.cpu.a),
            (Mnemonic::STX, _) => s.after_write(operand, s.cpu.x),
            (Mnemonic::STY, _) => s.after_write(operand, s.cpu.y),
            (Mnemonic::TAX, _) => s.after_tax(),
            (Mnemonic::TSX, _) => s.after_tsx(),
            (Mnemonic::TAY, _) => s.after_tay(),
            (Mnemonic::TXA, _) => s.after_txa(),
            (Mnemonic::TXS, _) => s.after_txs(),
            (Mnemonic::TYA, _) => s.after_tya(),
            (Mnemonic::PHA, _) => s.after_push(s.cpu.a).ticked(),
            (Mnemonic::PHP, _) => s.after_push(s.cpu.p.bits | OPERATED_B).ticked(),
            (Mnemonic::PLA, _) => s.after_pla(),
            (Mnemonic::PLP, _) => s.after_plp(),
            (Mnemonic::AND, _) => s.after_and(operand),
            (Mnemonic::EOR, _) => s.after_eor(operand),
            (Mnemonic::ORA, _) => s.after_ora(operand),
            (Mnemonic::BIT, _) => s.after_bit(operand),
            (Mnemonic::ADC, _) => s.after_adc(operand),
            (Mnemonic::SBC, _) => s.after_sbc(operand),
            (Mnemonic::CMP, _) => s.after_compare_a(operand),
            (Mnemonic::CPX, _) => s.after_cpx(operand),
            (Mnemonic::CPY, _) => s.after_cpy(operand),
            (Mnemonic::INC, _) => s.after_inc(operand),
            (Mnemonic::INX, _) => s.after_inx(),
            (Mnemonic::INY, _) => s.after_iny(),
            (Mnemonic::DEC, _) => s.after_dec(operand),
            (Mnemonic::DEX, _) => s.after_dex(),
            (Mnemonic::DEY, _) => s.after_dey(),
            (Mnemonic::ASL, AddressingMode::Accumulator) => s.after_shift_a(
                shifted_left(s.cpu.a, false),
                top_bit(s.cpu.a),
            ),
            (Mnemonic::ASL, _) => s.after_asl(operand),
            (Mnemonic::LSR, AddressingMode::Accumulator) => s.after_shift_a(
                shifted_right(s.cpu.a, false),
                bottom_bit(s.cpu.a),
            ),
            (Mnemonic::LSR, _) => s.after_lsr(operand),
            (Mnemonic::ROL, AddressingMode::Accumulator) => s.after_shift_a(
                shifted_left(s.cpu.a, has_flag(s.cpu.p.bits, STATUS_C)),
                top_bit(s.cpu.a),
            ),
            (Mnemonic::ROL, _) => s.after_rol(operand),
            (Mnemonic::ROR, AddressingMode::Accumulator) => s.after_shift_a(
                shifted_right(s.cpu.a, has_flag(s.cpu.p.bits, STATUS_C)),
                bottom_bit(s.cpu.a),
            ),
            (Mnemonic::ROR, _) => s.after_ror(operand),
            (Mnemonic::JMP, _) => s.with_pc(operand),
            (Mnemonic::JSR, _) => s.after_jsr(operand),
            (Mnemonic::RTS, _) => s.after_rts(),
            (Mnemonic::RTI, _) => s.after_rti(),
            (Mnemonic::BCC, _) => s.after_branch_if(!has_flag(s.cpu.p.bits, STATUS_C), operand),
            (Mnemonic::BCS, _) => s.after_branch_if(has_flag(s.cpu.p.bits, STATUS_C), operand),
            (Mnemonic::BEQ, _) => s.after_branch_if(has_flag(s.cpu.p.bits, STATUS_Z), operand),
            (Mnemonic::BMI, _) => s.after_branch_if(has_flag(s.cpu.p.bits, STATUS_N), operand),
            (Mnemonic::BNE, _) => s.after_branch_if(!has_flag(s.cpu.p.bits, STATUS_Z), operand),
            (Mnemonic::BPL, _) => s.after_branch_if(!has_flag(s.cpu.p.bits, STATUS_N), operand),
            (Mnemonic::BVC, _) => s.after_branch_if(!has_flag(s.cpu.p.bits, STATUS_V), operand),
            (Mnemonic::BVS, _) => s.after_branch_if(has_flag(s.cpu.p.bits, STATUS_V), operand),
            (Mnemonic::CLC, _) => s.after_flag(STATUS_C, false),
            (Mnemonic::CLD, _) => s.after_flag(STATUS_D, false),
            (Mnemonic::CLI, _) => s.after_flag(STATUS_I, false),
            (Mnemonic::CLV, _) => s.after_flag(STATUS_V, false),
            (Mnemonic::SEC, _) => s.after_flag(STATUS_C, true),
            (Mnemonic::SED, _) => s.after_flag(STATUS_D, true),
            (Mnemonic::SEI, _) => s.after_flag(STATUS_I, true),
            (Mnemonic::BRK, _) => s.after_brk(),
            (Mnemonic::NOP, _) => s.ticked(),
            (Mnemonic::LAX, _) => s.after_lax(operand),
            (Mnemonic::SAX, _) => s.after_write(operand, s.cpu.a & s.cpu.x),
            (Mnemonic::DCP, _) => s.after_dcp(operand),
            (Mnemonic::ISB, _) => s.after_isb(operand),
            (Mnemonic::SLO, _) => s.after_slo(operand),
            (Mnemonic::RLA, _) => s.after_rla(operand),
            (Mnemonic::SRE, _) => s.after_sre(operand),
            (Mnemonic::RRA, _) => s.after_rra(operand),
        }
    }

    /// The machine after an instruction whose opcode was fetched: the operand
    /// fetched, then the instruction run on it.
    #[verifier::opaque]
    pub open spec fn after_execute(self, instruction: Instruction) -> Self {
        self.after_get_operand(instruction.addressing_mode).after_run(
            instruction,
            self.operand_value(instruction.addressing_mode),
        )
    }
}

/// Runs the instruction `instruction` on the operand `operand`.
#[verifier::rlimit(50)]
pub fn run<M: Mapper, C: Controller>(nes: &mut Nes<M, C>, instruction: Instruction, operand: Word)
    ensures
        *final(nes) == old(nes).after_run(instruction, operand.0),
        old(nes).ran(*final(nes), 0, 517),
{
    reveal(Nes::after_run);
    match (instruction.mnemonic, instruction.addressing_mode) {
        (Mnemonic::LDA, _) => lda(nes, operand),
        (Mnemonic::LDX, _) => ldx(nes, operand),
        (Mnemonic::LDY, _) => ldy(nes, operand),
        (Mnemonic::STA, AddressingMode::IndirectIndexed) => {
            sta(nes, operand);
            nes.tick();
        },
        (Mnemonic::STA, _) => sta(nes, operand),
        (Mnemonic::STX, _) => stx(nes, operand),
        (Mnemonic::STY, _) => sty(nes, operand),
        (Mnemonic::TAX, _) => tax(nes),
        (Mnemonic::TSX, _) => tsx(nes),
        (Mnemonic::TAY, _) => tay(nes),
        (Mnemonic::TXA, _) => txa(nes),
        (Mnemonic::TXS, _) => txs(nes),
        (Mnemonic::TYA, _) => tya(nes),
        (Mnemonic::PHA, _) => pha(nes),
        (Mnemonic::PHP, _) => php(nes),
        (Mnemonic::PLA, _) => pla(nes),
        (Mnemonic::PLP, _) => plp(nes),
        (Mnemonic::AND, _) => and(nes, operand),
        (Mnemonic::EOR, _) => eor(nes, operand),
        (Mnemonic::ORA, _) => ora(nes, operand),
        (Mnemonic::BIT, _) => bit(nes, operand),
        (Mnemonic::ADC, _) => adc(nes, operand),
        (Mnemonic::SBC, _) => sbc(nes, operand),
        (Mnemonic::CMP, _) => cmp(nes, operand),
        (Mnemonic::CPX, _) => cpx(nes, operand),
        (Mnemonic::CPY, _) => cpy(nes, operand),
        (Mnemonic::INC, _) => inc(nes, operand),
        (Mnemonic::INX, _) => inx(nes),
        (Mnemonic::INY, _) => iny(nes),
        (Mnemonic::DEC, _) => dec(nes, operand),
        (Mnemonic::DEX, _) => dex(nes),
        (Mnemonic::DEY, _) => dey(nes),
        (Mnemonic::ASL, AddressingMode::Accumulator) => asl_for_accumelator(nes),
        (Mnemonic::ASL, _) => asl(nes, operand),
        (Mnemonic::LSR, AddressingMode::Accumulator) => lsr_for_accumelator(nes),
        (Mnemonic::LSR, _) => lsr(nes, operand),
        (Mnemonic::ROL, AddressingMode::Accumulator) => rol_for_accumelator(nes),
        (Mnemonic::ROL, _) => rol(nes, operand),
        (Mnemonic::ROR, AddressingMode::Accumulator) => ror_for_accumelator(nes),
        (Mnemonic::ROR, _) => ror(nes, operand),
        (Mnemonic::JMP, _) => jmp(nes, operand),
        (Mnemonic::JSR, _) => jsr(nes, operand),
        (Mnemonic::RTS, _) => rts(nes),
        (Mnemonic::RTI, _) => rti(nes),
        (Mnemonic::BCC, _) => bcc(nes, operand),
        (Mnemonic::BCS, _) => bcs(nes, operand),
        (Mnemonic::BEQ, _) => beq(nes, operand),
        (Mnemonic::BMI, _) => bmi(nes, operand),
        (Mnemonic::BNE, _) => bne(nes, operand),
        (Mnemonic::BPL, _) => bpl(nes, operand),
        (Mnemonic::BVC, _) => bvc(nes, operand),
        (Mnemonic::BVS, _) => bvs(nes, operand),
        (Mnemonic::CLC, _) => clc(nes),
        (Mnemonic::CLD, _) => cld(nes),
        (Mnemonic::CLI, _) => cli(nes),
        (Mnemonic::CLV, _) => clv(nes),
        (Mnemonic::SEC, _) => sec(nes),
        (Mnemonic::SED, _) => sed(nes),
        (Mnemonic::SEI, _) => sei(nes),
        (Mnemonic::BRK, _) => brk(nes),
        (Mnemonic::NOP, _) => nop(nes),
        (Mnemonic::LAX, _) => lax(nes, operand),
        (Mnemonic::SAX, _) => sax(nes, operand),
        (Mnemonic::DCP, _) => dcp(nes, operand),
        (Mnemonic::ISB, _) => isb(nes, operand),
        (Mnemonic::SLO, _) => slo(nes, operand),
        (Mnemonic::RLA, _) => rla(nes, operand),
        (Mnemonic::SRE, _) => sre(nes, operand),
        (Mnemonic::RRA, _) => rra(nes, operand),
    }
}

/// Fetches the operand of the instruction `instruction` and runs it.
pub fn execute<M: Mapper, C: Controller>(nes: &mut Nes<M, C>, instruction: Instruction)
    ensures
        *final(nes) == old(nes).after_execute(instruction),
        old(nes).ran(*final(nes), 0, 521),
{
    reveal(Nes::after_execute);
    let operand = get_operand(nes, &instruction.addressing_mode);
    run(nes, instruction, operand);
}

} // verus!
