//! The trace of an instruction about to run, as one line of text.

use vstd::prelude::*;
use vstd::string::StringExecFns;
use crate::controller::Controller;
use crate::cpu::instruction::decode;
use crate::cpu::{AddressingMode, Mnemonic};
use crate::data_unit::{extend_sign, make_word, sign_extend, word_of};
use crate::nes::Nes;
use crate::rom::Mapper;
use crate::bus::indirect_high_addr;
use crate::cpu::instruction::opcode_table;
use crate::data_unit::{Byte, Word};

verus! {

/// The width that the operand text is padded to.
pub const OPERAND_WIDTH: usize = 28;

/// The name of a mnemonic.
pub open spec fn mnemonic_text(mnemonic: Mnemonic) -> Seq<char> {
    match mnemonic {
        Mnemonic::LDA => "LDA"@,
        Mnemonic::LDX => "LDX"@,
        Mnemonic::LDY => "LDY"@,
        Mnemonic::STA => "STA"@,
        Mnemonic::STX => "STX"@,
        Mnemonic::STY => "STY"@,
        Mnemonic::TAX => "TAX"@,
        Mnemonic::TSX => "TSX"@,
        Mnemonic::TAY => "TAY"@,
        Mnemonic::TXA => "TXA"@,
        Mnemonic::TXS => "TXS"@,
        Mnemonic::TYA => "TYA"@,
        Mnemonic::PHA => "PHA"@,
        Mnemonic::PHP => "PHP"@,
        Mnemonic::PLA => "PLA"@,
        Mnemonic::PLP => "PLP"@,
        Mnemonic::AND => "AND"@,
        Mnemonic::EOR => "EOR"@,
        Mnemonic::ORA => "ORA"@,
        Mnemonic::BIT => "BIT"@,
        Mnemonic::ADC => "ADC"@,
        Mnemonic::SBC => "SBC"@,
        Mnemonic::CMP => "CMP"@,
        Mnemonic::CPX => "CPX"@,
        Mnemonic::CPY => "CPY"@,
        Mnemonic::INC => "INC"@,
        Mnemonic::INX => "INX"@,
        Mnemonic::INY => "INY"@,
        Mnemonic::DEC => "DEC"@,
        Mnemonic::DEX => "DEX"@,
        Mnemonic::DEY => "DEY"@,
        Mnemonic::ASL => "ASL"@,
        Mnemonic::LSR => "LSR"@,
        Mnemonic::ROL => "ROL"@,
        Mnemonic::ROR => "ROR"@,
        Mnemonic::JMP => "JMP"@,
        Mnemonic::JSR => "JSR"@,
        Mnemonic::RTS => "RTS"@,
        Mnemonic::RTI => "RTI"@,
        Mnemonic::BCC => "BCC"@,
        Mnemonic::BCS => "BCS"@,
        Mnemonic::BEQ => "BEQ"@,
        Mnemonic::BMI => "BMI"@,
        Mnemonic::BNE => "BNE"@,
        Mnemonic::BPL => "BPL"@,
        Mnemonic::BVC => "BVC"@,
        Mnemonic::BVS => "BVS"@,
        Mnemonic::CLC => "CLC"@,
        Mnemonic::CLD => "CLD"@,
        Mnemonic::CLI => "CLI"@,
        Mnemonic::CLV => "CLV"@,
        Mnemonic::SEC => "SEC"@,
        Mnemonic::SED => "SED"@,
        Mnemonic::SEI => "SEI"@,
        Mnemonic::BRK => "BRK"@,
        Mnemonic::NOP => "NOP"@,
        Mnemonic::LAX => "LAX"@,
        Mnemonic::SAX => "SAX"@,
        Mnemonic::DCP => "DCP"@,
        Mnemonic::ISB => "ISB"@,
        Mnemonic::SLO => "SLO"@,
        Mnemonic::RLA => "RLA"@,
        Mnemonic::SRE => "SRE"@,
        Mnemonic::RRA => "RRA"@,
    }
}

pub fn mnemonic_name(mnemonic: Mnemonic) -> (r: &'static str)
    ensures
        r@ == mnemonic_text(mnemonic),
{
    match mnemonic {
        Mnemonic::LDA => "LDA",
        Mnemonic::LDX => "LDX",
        Mnemonic::LDY => "LDY",
        Mnemonic::STA => "STA",
        Mnemonic::STX => "STX",
        Mnemonic::STY => "STY",
        Mnemonic::TAX => "TAX",
        Mnemonic::TSX => "TSX",
        Mnemonic::TAY => "TAY",
        Mnemonic::TXA => "TXA",
        Mnemonic::TXS => "TXS",
        Mnemonic::TYA => "TYA",
        Mnemonic::PHA => "PHA",
        Mnemonic::PHP => "PHP",
        Mnemonic::PLA => "PLA",
        Mnemonic::PLP => "PLP",
        Mnemonic::AND => "AND",
        Mnemonic::EOR => "EOR",
        Mnemonic::ORA => "ORA",
        Mnemonic::BIT => "BIT",
        Mnemonic::ADC => "ADC",
        Mnemonic::SBC => "SBC",
        Mnemonic::CMP => "CMP",
        Mnemonic::CPX => "CPX",
        Mnemonic::CPY => "CPY",
        Mnemonic::INC => "INC",
        Mnemonic::INX => "INX",
        Mnemonic::INY => "INY",
        Mnemonic::DEC => "DEC",
        Mnemonic::DEX => "DEX",
        Mnemonic::DEY => "DEY",
        Mnemonic::ASL => "ASL",
        Mnemonic::LSR => "LSR",
        Mnemonic::ROL => "ROL",
        Mnemonic::ROR => "ROR",
        Mnemonic::JMP => "JMP",
        Mnemonic::JSR => "JSR",
        Mnemonic::RTS => "RTS",
        Mnemonic::RTI => "RTI",
        Mnemonic::BCC => "BCC",
        Mnemonic::BCS => "BCS",
        Mnemonic::BEQ => "BEQ",
        Mnemonic::BMI => "BMI",
        Mnemonic::BNE => "BNE",
        Mnemonic::BPL => "BPL",
        Mnemonic::BVC => "BVC",
        Mnemonic::BVS => "BVS",
        Mnemonic::CLC => "CLC",
        Mnemonic::CLD => "CLD",
        Mnemonic::CLI => "CLI",
        Mnemonic::CLV => "CLV",
        Mnemonic::SEC => "SEC",
        Mnemonic::SED => "SED",
        Mnemonic::SEI => "SEI",
        Mnemonic::BRK => "BRK",
        Mnemonic::NOP => "NOP",
        Mnemonic::LAX => "LAX",
        Mnemonic::SAX => "SAX",
        Mnemonic::DCP => "DCP",
        Mnemonic::ISB => "ISB",
        Mnemonic::SLO => "SLO",
        Mnemonic::RLA => "RLA",
        Mnemonic::SRE => "SRE",
        Mnemonic::RRA => "RRA",
    }
}

/// The hexadecimal digit of `d`, for `d` below 16.
pub open spec fn hex_digit_text(d: u8) -> Seq<char> {
    match d {
        0 => "0"@,
        1 => "1"@,
        2 => "2"@,
        3 => "3"@,
        4 => "4"@,
        5 => "5"@,
        6 => "6"@,
        7 => "7"@,
        8 => "8"@,
        9 => "9"@,
        10 => "A"@,
        11 => "B"@,
        12 => "C"@,
        13 => "D"@,
        14 => "E"@,
        _ => "F"@,
    }
}

pub fn hex_digit(d: u8) -> (r: &'static str)
    ensures
        r@ == hex_digit_text(d),
{
    match d {
        0 => "0",
        1 => "1",
        2 => "2",
        3 => "3",
        4 => "4",
        5 => "5",
        6 => "6",
        7 => "7",
        8 => "8",
        9 => "9",
        10 => "A",
        11 => "B",
        12 => "C",
        13 => "D",
        14 => "E",
        _ => "F",
    }
}

/// A byte as two hexadecimal digits.
pub open spec fn hex2(b: u8) -> Seq<char> {
    hex_digit_text(b / 16) + hex_digit_text(b % 16)
}

/// A word as four hexadecimal digits.
pub open spec fn hex4(w: u16) -> Seq<char> {
    hex2((w / 0x100) as u8) + hex2((w % 0x100) as u8)
}

/// A number in decimal digits, without leading zeros.
pub open spec fn decimal(n: u64) -> Seq<char>
    decreases n,
{
    if n < 10 {
        hex_digit_text(n as u8)
    } else {
        decimal(n / 10) + hex_digit_text((n % 10) as u8)
    }
}

/// `n` spaces.
pub open spec fn spaces(n: nat) -> Seq<char>
    decreases n,
{
    if n == 0 {
        Seq::empty()
    } else {
        spaces((n - 1) as nat) + " "@
    }
}

/// `text`, with spaces behind it up to the width `width`.
pub open spec fn padded(text: Seq<char>, width: nat) -> Seq<char> {
    if text.len() < width {
        text + spaces((width - text.len()) as nat)
    } else {
        text
    }
}

pub fn push_hex2(out: &mut String, b: u8)
    ensures
        final(out)@ == old(out)@ + hex2(b),
{
    out.append(hex_digit(b / 16));
    out.append(hex_digit(b % 16));
    assert(out@ =~= old(out)@ + hex2(b));
}

pub fn push_hex4(out: &mut String, w: u16)
    ensures
        final(out)@ == old(out)@ + hex4(w),
{
    push_hex2(out, (w / 0x100) as u8);
    push_hex2(out, (w % 0x100) as u8);
    assert(out@ =~= old(out)@ + hex4(w));
}

pub fn push_decimal(out: &mut String, n: u64)
    ensures
        final(out)@ == old(out)@ + decimal(n),
    decreases n,
{
    if n < 10 {
        out.append(hex_digit(n as u8));
    } else {
        push_decimal(out, n / 10);
        out.append(hex_digit((n % 10) as u8));
        assert(out@ =~= old(out)@ + decimal(n));
    }
}

pub fn push_spaces(out: &mut String, n: usize)
    ensures
        final(out)@ == old(out)@ + spaces(n as nat),
{
    let mut i: usize = 0;
    assert(out@ =~= old(out)@ + spaces(0));
    while i < n
        invariant
            i <= n,
            out@ == old(out)@ + spaces(i as nat),
        decreases n - i,
    {
        out.append(" ");
        i += 1;
        assert(out@ =~= old(out)@ + spaces(i as nat));
    }
}

/// Whether `opcode` is one of the 80 undocumented opcodes.
pub open spec fn undocumented(opcode: u8) -> bool {
    match opcode {
        0xEB | 0x04 | 0x44 | 0x64 | 0x0C | 0x14 | 0x34 | 0x54 | 0x74 | 0xD4
        | 0xF4 | 0x1A | 0x3A | 0x5A | 0x7A | 0xDA | 0xFA | 0x1C | 0x3C | 0x5C
        | 0x7C | 0xDC | 0xFC | 0x80 | 0x82 | 0x89 | 0xC2 | 0xE2 | 0xA3 | 0xA7
        | 0xAF | 0xB3 | 0xB7 | 0xBF | 0x83 | 0x87 | 0x8F | 0x97 | 0xC3 | 0xC7
        | 0xCF | 0xD3 | 0xD7 | 0xDB | 0xDF | 0xE3 | 0xE7 | 0xEF | 0xF3 | 0xF7
        | 0xFB | 0xFF | 0x03 | 0x07 | 0x0F | 0x13 | 0x17 | 0x1B | 0x1F | 0x23
        | 0x27 | 0x2F | 0x33 | 0x37 | 0x3B | 0x3F | 0x43 | 0x47 | 0x4F | 0x53
        | 0x57 | 0x5B | 0x5F | 0x63 | 0x67 | 0x6F | 0x73 | 0x77 | 0x7B | 0x7F => true,
        _ => false,
    }
}

pub fn is_undocumented(opcode: u8) -> (r: bool)
    ensures
        r == undocumented(opcode),
{
    match opcode {
        0xEB | 0x04 | 0x44 | 0x64 | 0x0C | 0x14 | 0x34 | 0x54 | 0x74 | 0xD4
        | 0xF4 | 0x1A | 0x3A | 0x5A | 0x7A | 0xDA | 0xFA | 0x1C | 0x3C | 0x5C
        | 0x7C | 0xDC | 0xFC | 0x80 | 0x82 | 0x89 | 0xC2 | 0xE2 | 0xA3 | 0xA7
        | 0xAF | 0xB3 | 0xB7 | 0xBF | 0x83 | 0x87 | 0x8F | 0x97 | 0xC3 | 0xC7
        | 0xCF | 0xD3 | 0xD7 | 0xDB | 0xDF | 0xE3 | 0xE7 | 0xEF | 0xF3 | 0xF7
        | 0xFB | 0xFF | 0x03 | 0x07 | 0x0F | 0x13 | 0x17 | 0x1B | 0x1F | 0x23
        | 0x27 | 0x2F | 0x33 | 0x37 | 0x3B | 0x3F | 0x43 | 0x47 | 0x4F | 0x53
        | 0x57 | 0x5B | 0x5F | 0x63 | 0x67 | 0x6F | 0x73 | 0x77 | 0x7B | 0x7F => true,
        _ => false,
    }
}

impl AddressingMode {
    /// How many bytes an instruction of this addressing mode takes, opcode
    /// included.
    pub open spec fn spec_instruction_length(&self) -> u8 {
        match *self {
            AddressingMode::Immediate
            | AddressingMode::ZeroPage
            | AddressingMode::ZeroPageX
            | AddressingMode::ZeroPageY
            | AddressingMode::Relative
            | AddressingMode::IndirectIndexed
            | AddressingMode::IndexedIndirect => 2,
            AddressingMode::Indirect
            | AddressingMode::Absolute
            | AddressingMode::AbsoluteX { .. }
            | AddressingMode::AbsoluteY { .. } => 3,
            _ => 1,
        }
    }

    #[verifier::when_used_as_spec(spec_instruction_length)]
    pub fn instruction_length(&self) -> (r: u8)
        ensures
            r == self.spec_instruction_length(),
    {
        match self {
            AddressingMode::Immediate
            | AddressingMode::ZeroPage
            | AddressingMode::ZeroPageX
            | AddressingMode::ZeroPageY
            | AddressingMode::Relative
            | AddressingMode::IndirectIndexed
            | AddressingMode::IndexedIndirect => 2,
            AddressingMode::Indirect
            | AddressingMode::Absolute
            | AddressingMode::AbsoluteX { .. }
            | AddressingMode::AbsoluteY { .. } => 3,
            _ => 1,
        }
    }
}

/// What the trace of an instruction shows of memory: the two bytes behind the
/// opcode, the pointer that an indirect mode reads, the address that the
/// instruction works on, and the byte there.
#[derive(Clone, Copy, Debug, PartialEq, Eq, Structural)]
pub struct Operands {
    pub operand_1: u8,
    pub operand_2: u8,
    pub pointer: u16,
    pub address: u16,
    pub value: u8,
}

impl<M: Mapper, C: Controller> Nes<M, C> {
    /// The byte that the trace shows for `addr`: work RAM and cartridge are
    /// read; the registers between them are not, and show as 0xFF.
    pub open spec fn trace_value(&self, addr: u16) -> u8 {
        if addr < 0x2000 {
            self.wram[addr as int % 0x0800]
        } else if addr >= 0x4020 {
            self.mapper.peek(addr)
        } else {
            0xFF
        }
    }

    /// The machine after the trace has read `addr`: only a read of the
    /// cartridge can change anything.
    pub open spec fn after_trace_read(self, addr: u16) -> Self {
        if addr >= 0x4020 {
            Nes { mapper: self.mapper.after_read(addr), ..self }
        } else {
            self
        }
    }

    pub fn trace_read(&mut self, addr: u16) -> (r: u8)
        ensures
            r == old(self).trace_value(addr),
            *final(self) == old(self).after_trace_read(addr),
    {
        if addr < 0x2000 {
            self.wram[(addr % 0x0800) as usize]
        } else if addr >= 0x4020 {
            self.mapper.read(Word(addr)).0
        } else {
            0xFF
        }
    }

    /// The word that the trace shows for an indirect read at `addr`: the high
    /// byte comes from `indirect_high_addr(addr)`.
    pub open spec fn trace_indirect(&self, addr: u16) -> u16 {
        word_of(
            self.trace_value(addr),
            self.after_trace_read(addr).trace_value(indirect_high_addr(addr)),
        )
    }

    pub open spec fn after_trace_indirect(self, addr: u16) -> Self {
        self.after_trace_read(addr).after_trace_read(indirect_high_addr(addr))
    }

    pub fn trace_read_on_indirect(&mut self, addr: u16) -> (r: u16)
        ensures
            r == old(self).trace_indirect(addr),
            *final(self) == old(self).after_trace_indirect(addr),
    {
        let low = self.trace_read(addr);
        let high = self.trace_read((addr / 0x100) * 0x100 + (addr.wrapping_add(1)) % 0x100);
        make_word(low, high)
    }

    /// The byte behind the opcode at `PC`.
    pub fn cpu_operand_1(&mut self) -> (r: Byte)
        ensures
            r.0 == old(self).trace_value(old(self).cpu.pc.wrapping_add(1)),
            *final(self) == old(self).after_trace_read(old(self).cpu.pc.wrapping_add(1)),
    {
        Byte(self.trace_read(self.cpu.pc.wrapping_add(1)))
    }

    /// The second byte behind the opcode at `PC`.
    pub fn cpu_operand_2(&mut self) -> (r: Byte)
        ensures
            r.0 == old(self).trace_value(old(self).cpu.pc.wrapping_add(2)),
            *final(self) == old(self).after_trace_read(old(self).cpu.pc.wrapping_add(2)),
    {
        Byte(self.trace_read(self.cpu.pc.wrapping_add(2)))
    }

    /// The machine after the trace has read the two bytes behind the opcode.
    pub open spec fn after_operand_bytes(self) -> Self {
        self.after_trace_read(self.cpu.pc.wrapping_add(1)).after_trace_read(
            self.cpu.pc.wrapping_add(2),
        )
    }

    /// What the trace shows of memory for an instruction of the addressing
    /// mode `mode` at `PC`, of which `first` and `second` are the bytes behind
    /// the opcode, read from this machine.
    pub open spec fn operands_from(&self, mode: AddressingMode, first: u8, second: u8) -> Operands {
        let absolute = word_of(first, second);
        let bare = Operands {
            operand_1: first,
            operand_2: second,
            pointer: 0,
            address: 0,
            value: 0,
        };
        match mode {
            AddressingMode::Implicit => bare,
            AddressingMode::Accumulator => bare,
            AddressingMode::Immediate => Operands {
                address: self.cpu.pc.wrapping_add(1),
                value: first,
                ..bare
            },
            AddressingMode::ZeroPage => self.shown(bare, first as u16),
            AddressingMode::ZeroPageX => self.shown(bare, ((first + self.cpu.x) % 0x100) as u16),
            AddressingMode::ZeroPageY => self.shown(bare, ((first + self.cpu.y) % 0x100) as u16),
            AddressingMode::Absolute => self.shown(bare, absolute),
            AddressingMode::AbsoluteX { .. } => self.shown(
                bare,
                absolute.wrapping_add(self.cpu.x as u16),
            ),
            AddressingMode::AbsoluteY { .. } => self.shown(
                bare,
                absolute.wrapping_add(self.cpu.y as u16),
            ),
            AddressingMode::Relative => Operands {
                address: self.cpu.pc.wrapping_add(2).wrapping_add(sign_extend(first)),
                ..bare
            },
            AddressingMode::Indirect => Operands {
                pointer: absolute,
                address: self.trace_indirect(absolute),
                ..bare
            },
            AddressingMode::IndexedIndirect => {
                let pointer = ((first + self.cpu.x) % 0x100) as u16;
                self.after_trace_indirect(pointer).shown(
                    Operands { pointer, ..bare },
                    self.trace_indirect(pointer),
                )
            },
            AddressingMode::IndirectIndexed => {
                let pointer = self.trace_indirect(first as u16);
                self.after_trace_indirect(first as u16).shown(
                    Operands { pointer, ..bare },
                    pointer.wrapping_add(self.cpu.y as u16),
                )
            },
        }
    }

    /// `operands` with `address` as the address worked on and the byte there.
    pub open spec fn shown(&self, operands: Operands, address: u16) -> Operands {
        Operands { address, value: self.trace_value(address), ..operands }
    }

    /// The machine after the trace has read what `operands_from` shows.
    pub open spec fn after_operands_from(
        self,
        mode: AddressingMode,
        first: u8,
        second: u8,
    ) -> Self {
        let absolute = word_of(first, second);
        match mode {
            AddressingMode::ZeroPage => self.after_trace_read(first as u16),
            AddressingMode::ZeroPageX => self.after_trace_read(
                ((first + self.cpu.x) % 0x100) as u16,
            ),
            AddressingMode::ZeroPageY => self.after_trace_read(
                ((first + self.cpu.y) % 0x100) as u16,
            ),
            AddressingMode::Absolute => self.after_trace_read(absolute),
            AddressingMode::AbsoluteX { .. } => self.after_trace_read(
                absolute.wrapping_add(self.cpu.x as u16),
            ),
            AddressingMode::AbsoluteY { .. } => self.after_trace_read(
                absolute.wrapping_add(self.cpu.y as u16),
            ),
            AddressingMode::Indirect => self.after_trace_indirect(absolute),
            AddressingMode::IndexedIndirect => {
                let pointer = ((first + self.cpu.x) % 0x100) as u16;
                self.after_trace_indirect(pointer).after_trace_read(self.trace_indirect(pointer))
            },
            AddressingMode::IndirectIndexed => self.after_trace_indirect(
                first as u16,
            ).after_trace_read(
                self.trace_indirect(first as u16).wrapping_add(self.cpu.y as u16),
            ),
            _ => self,
        }
    }
}

/// Reads what the trace of an instruction of the addressing mode
/// `addressing_mode` at `PC` shows of memory.
pub fn decode_address<M: Mapper, C: Controller>(
    addressing_mode: AddressingMode,
    nes: &mut Nes<M, C>,
) -> (r: Operands)
    ensures
        r.operand_1 == old(nes).trace_value(old(nes).cpu.pc.wrapping_add(1)),
        r.operand_2 == old(nes).after_trace_read(old(nes).cpu.pc.wrapping_add(1)).trace_value(
            old(nes).cpu.pc.wrapping_add(2),
        ),
        r == old(nes).after_operand_bytes().operands_from(
            addressing_mode,
            r.operand_1,
            r.operand_2,
        ),
        *final(nes) == old(nes).after_operand_bytes().after_operands_from(
            addressing_mode,
            r.operand_1,
            r.operand_2,
        ),
        final(nes).cpu == old(nes).cpu,
        final(nes).wram == old(nes).wram,
        final(nes).ppu == old(nes).ppu,
        final(nes).apu == old(nes).apu,
        final(nes).interrupt == old(nes).interrupt,
        final(nes).controller_1 == old(nes).controller_1,
        final(nes).controller_2 == old(nes).controller_2,
{
    let first = nes.cpu_operand_1().0;
    let second = nes.cpu_operand_2().0;
    let absolute = make_word(first, second);
    let mut r = Operands { operand_1: first, operand_2: second, pointer: 0, address: 0, value: 0 };
    match addressing_mode {
        AddressingMode::Implicit => {},
        AddressingMode::Accumulator => {},
        AddressingMode::Immediate => {
            r.address = nes.cpu.pc.wrapping_add(1);
            r.value = first;
        },
        AddressingMode::ZeroPage => {
            r.address = first as u16;
            r.value = nes.trace_read(r.address);
        },
        AddressingMode::ZeroPageX => {
            r.address = (first as u16 + nes.cpu.x as u16) % 0x100;
            r.value = nes.trace_read(r.address);
        },
        AddressingMode::ZeroPageY => {
            r.address = (first as u16 + nes.cpu.y as u16) % 0x100;
            r.value = nes.trace_read(r.address);
        },
        AddressingMode::Absolute => {
            r.address = absolute;
            r.value = nes.trace_read(r.address);
        },
        AddressingMode::AbsoluteX { .. } => {
            r.address = absolute.wrapping_add(nes.cpu.x as u16);
            r.value = nes.trace_read(r.address);
        },
        AddressingMode::AbsoluteY { .. } => {
            r.address = absolute.wrapping_add(nes.cpu.y as u16);
            r.value = nes.trace_read(r.address);
        },
        AddressingMode::Relative => {
            r.address = nes.cpu.pc.wrapping_add(2).wrapping_add(extend_sign(first));
        },
        AddressingMode::Indirect => {
            r.pointer = absolute;
            r.address = nes.trace_read_on_indirect(absolute);
        },
        AddressingMode::IndexedIndirect => {
            r.pointer = (first as u16 + nes.cpu.x as u16) % 0x100;
            r.address = nes.trace_read_on_indirect(r.pointer);
            r.value = nes.trace_read(r.address);
        },
        AddressingMode::IndirectIndexed => {
            r.pointer = nes.trace_read_on_indirect(first as u16);
            r.address = r.pointer.wrapping_add(nes.cpu.y as u16);
            r.value = nes.trace_read(r.address);
        },
    }
    r
}

/// The operand of an instruction as the trace writes it, by addressing mode:
///
/// | Mode            | Text                                  |
/// |-----------------|---------------------------------------|
/// | Implicit        | nothing                               |
/// | Accumulator     | `A` for the shifts, else nothing      |
/// | Immediate       | `#$11`                                |
/// | ZeroPage        | `$11 = VV`                            |
/// | ZeroPageX       | `$11,X @ AA = VV`                     |
/// | ZeroPageY       | `$11,Y @ AA = VV`                     |
/// | Absolute        | `$2211 = VV`; `$2211` for JMP and JSR |
/// | AbsoluteX       | `$2211,X @ AAAA = VV`                 |
/// | AbsoluteY       | `$2211,Y @ AAAA = VV`                 |
/// | Relative        | `$AAAA`                               |
/// | Indirect        | `($2211) = AAAA`                      |
/// | IndexedIndirect | `($11,X) @ PP = AAAA = VV`            |
/// | IndirectIndexed | `($11),Y = PPPP @ AAAA = VV`          |
///
/// where `11` and `22` are the bytes behind the opcode, `AA` or `AAAA` the
/// address worked on, `PP` or `PPPP` the pointer read, and `VV` the byte at
/// the address.
pub open spec fn operand_text(
    mnemonic: Mnemonic,
    mode: AddressingMode,
    operands: Operands,
) -> Seq<char> {
    let first = operands.operand_1;
    let absolute = word_of(operands.operand_1, operands.operand_2);
    match mode {
        AddressingMode::Implicit => Seq::empty(),
        AddressingMode::Accumulator => if mnemonic == Mnemonic::LSR || mnemonic == Mnemonic::ASL
            || mnemonic == Mnemonic::ROR || mnemonic == Mnemonic::ROL {
            "A"@
        } else {
            Seq::empty()
        },
        AddressingMode::Immediate => "#$"@ + hex2(first),
        AddressingMode::ZeroPage => "$"@ + hex2(first) + " = "@ + hex2(operands.value),
        AddressingMode::ZeroPageX => "$"@ + hex2(first) + ",X @ "@ + hex2(
            (operands.address % 0x100) as u8,
        ) + " = "@ + hex2(operands.value),
        AddressingMode::ZeroPageY => "$"@ + hex2(first) + ",Y @ "@ + hex2(
            (operands.address % 0x100) as u8,
        ) + " = "@ + hex2(operands.value),
        AddressingMode::Absolute => if mnemonic == Mnemonic::JMP || mnemonic == Mnemonic::JSR {
            "$"@ + hex4(absolute)
        } else {
            "$"@ + hex4(absolute) + " = "@ + hex2(operands.value)
        },
        AddressingMode::AbsoluteX { .. } => "$"@ + hex4(absolute) + ",X @ "@ + hex4(
            operands.address,
        ) + " = "@ + hex2(operands.value),
        AddressingMode::AbsoluteY { .. } => "$"@ + hex4(absolute) + ",Y @ "@ + hex4(
            operands.address,
        ) + " = "@ + hex2(operands.value),
        AddressingMode::Relative => "$"@ + hex4(operands.address),
        AddressingMode::Indirect => "($"@ + hex4(absolute) + ") = "@ + hex4(operands.address),
        AddressingMode::IndexedIndirect => "($"@ + hex2(first) + ",X) @ "@ + hex2(
            (operands.pointer % 0x100) as u8,
        ) + " = "@ + hex4(operands.address) + " = "@ + hex2(operands.value),
        AddressingMode::IndirectIndexed => "($"@ + hex2(first) + "),Y = "@ + hex4(
            operands.pointer,
        ) + " @ "@ + hex4(operands.address) + " = "@ + hex2(operands.value),
    }
}

/// The instruction as the trace writes it: `*` before an undocumented opcode,
/// else a space; the mnemonic; a space; the operand, padded to 28 characters.
pub open spec fn assembly_text(
    operation: u8,
    mnemonic: Mnemonic,
    mode: AddressingMode,
    operands: Operands,
) -> Seq<char> {
    (if undocumented(operation) {
        "*"@
    } else {
        " "@
    }) + mnemonic_text(mnemonic) + " "@ + padded(
        operand_text(mnemonic, mode, operands),
        OPERAND_WIDTH as nat,
    )
}

/// Writes the operand of an instruction by its addressing mode.
pub fn operand_code(mnemonic: Mnemonic, addressing_mode: AddressingMode, operands: &Operands) -> (r:
    String)
    ensures
        r@ == operand_text(mnemonic, addressing_mode, *operands),
{
    let first = operands.operand_1;
    let absolute = make_word(operands.operand_1, operands.operand_2);
    let mut out = String::new();
    assert(out@ + "A"@ =~= "A"@);
    assert(out@ + "$"@ =~= "$"@);
    assert(out@ + "#$"@ =~= "#$"@);
    assert(out@ + "($"@ =~= "($"@);
    match addressing_mode {
        AddressingMode::Implicit => {},
        AddressingMode::Accumulator => {
            match mnemonic {
                Mnemonic::LSR | Mnemonic::ASL | Mnemonic::ROR | Mnemonic::ROL => {
                    out.append("A");
                },
                _ => {},
            }
        },
        AddressingMode::Immediate => {
            out.append("#$");
            push_hex2(&mut out, first);
        },
        AddressingMode::ZeroPage => {
            out.append("$");
            push_hex2(&mut out, first);
            out.append(" = ");
            push_hex2(&mut out, operands.value);
        },
        AddressingMode::ZeroPageX => {
            out.append("$");
            push_hex2(&mut out, first);
            out.append(",X @ ");
            push_hex2(&mut out, (operands.address % 0x100) as u8);
            out.append(" = ");
            push_hex2(&mut out, operands.value);
        },
        AddressingMode::ZeroPageY => {
            out.append("$");
            push_hex2(&mut out, first);
            out.append(",Y @ ");
            push_hex2(&mut out, (operands.address % 0x100) as u8);
            out.append(" = ");
            push_hex2(&mut out, operands.value);
        },
        AddressingMode::Absolute => {
            out.append("$");
            push_hex4(&mut out, absolute);
            match mnemonic {
                Mnemonic::JMP | Mnemonic::JSR => {},
                _ => {
                    out.append(" = ");
                    push_hex2(&mut out, operands.value);
                },
            }
        },
        AddressingMode::AbsoluteX { .. } => {
            out.append("$");
            push_hex4(&mut out, absolute);
            out.append(",X @ ");
            push_hex4(&mut out, operands.address);
            out.append(" = ");
            push_hex2(&mut out, operands.value);
        },
        AddressingMode::AbsoluteY { .. } => {
            out.append("$");
            push_hex4(&mut out, absolute);
            out.append(",Y @ ");
            push_hex4(&mut out, operands.address);
            out.append(" = ");
            push_hex2(&mut out, operands.value);
        },
        AddressingMode::Relative => {
            out.append("$");
            push_hex4(&mut out, operands.address);
        },
        AddressingMode::Indirect => {
            out.append("($");
            push_hex4(&mut out, absolute);
            out.append(") = ");
            push_hex4(&mut out, operands.address);
        },
        AddressingMode::IndexedIndirect => {
            out.append("($");
            push_hex2(&mut out, first);
            out.append(",X) @ ");
            push_hex2(&mut out, (operands.pointer % 0x100) as u8);
            out.append(" = ");
            push_hex4(&mut out, operands.address);
            out.append(" = ");
            push_hex2(&mut out, operands.value);
        },
        AddressingMode::IndirectIndexed => {
            out.append("($");
            push_hex2(&mut out, first);
            out.append("),Y = ");
            push_hex4(&mut out, operands.pointer);
            out.append(" @ ");
            push_hex4(&mut out, operands.address);
            out.append(" = ");
            push_hex2(&mut out, operands.value);
        },
    }
    out
}

/// Writes an instruction: the mark of an undocumented opcode, the mnemonic
/// and the operand.
pub fn to_assembly_code(
    operation: Byte,
    mnemonic: Mnemonic,
    addressing_mode: AddressingMode,
    operands: &Operands,
) -> (r: String)
    ensures
        r@ == assembly_text(operation.0, mnemonic, addressing_mode, *operands),
{
    let operand = operand_code(mnemonic, addressing_mode, operands);
    let len = operand.as_str().unicode_len();
    let mut out = String::new();
    assert(out@ + "*"@ =~= "*"@);
    assert(out@ + " "@ =~= " "@);
    if is_undocumented(operation.0) {
        out.append("*");
    } else {
        out.append(" ");
    }
    out.append(mnemonic_name(mnemonic));
    out.append(" ");
    out.append(operand.as_str());
    if len < OPERAND_WIDTH {
        push_spaces(&mut out, OPERAND_WIDTH - len);
    }
    assert(out@ =~= assembly_text(operation.0, mnemonic, addressing_mode, *operands));
    out
}

impl<M: Mapper, C: Controller> Nes<M, C> {
    /// What the trace of the instruction at `PC` shows of memory.
    pub open spec fn trace_operands(&self) -> Operands {
        let pc = self.cpu.pc;
        let read = self.after_trace_read(pc);
        read.after_operand_bytes().operands_from(
            opcode_table(self.trace_value(pc)).addressing_mode,
            read.trace_value(pc.wrapping_add(1)),
            read.after_trace_read(pc.wrapping_add(1)).trace_value(pc.wrapping_add(2)),
        )
    }

    /// The instruction at `PC` as the trace writes it.
    pub open spec fn trace_assembly(&self) -> Seq<char> {
        assembly_text(
            self.trace_value(self.cpu.pc),
            opcode_table(self.trace_value(self.cpu.pc)).mnemonic,
            opcode_table(self.trace_value(self.cpu.pc)).addressing_mode,
            self.trace_operands(),
        )
    }

    /// The machine after the trace of the instruction at `PC` was taken: the
    /// opcode, the two bytes behind it and what the addressing mode shows of
    /// memory were read, in this order.
    pub open spec fn after_trace(self) -> Self {
        let pc = self.cpu.pc;
        let read = self.after_trace_read(pc);
        read.after_operand_bytes().after_operands_from(
            opcode_table(self.trace_value(pc)).addressing_mode,
            read.trace_value(pc.wrapping_add(1)),
            read.after_trace_read(pc.wrapping_add(1)).trace_value(pc.wrapping_add(2)),
        )
    }
}

/// The trace of the instruction at `PC`, taken before it runs.
#[derive(Debug, Clone, PartialEq, Eq)]
pub struct Trace {
    pub pc: u16,
    pub operation: u8,
    pub operand_1: u8,
    pub operand_2: u8,
    pub a: u8,
    pub x: u8,
    pub y: u8,
    pub sp: u8,
    pub p: u8,
    pub cycle: u64,
    pub mnemonic: Mnemonic,
    pub addressing_mode: AddressingMode,
    pub assembly_code: String,
}

/// The bytes of an instruction as the trace writes them: as many as the
/// instruction is long, two digits each, padded to the width of three.
pub open spec fn machine_code_text(length: u8, operation: u8, first: u8, second: u8) -> Seq<char> {
    if length == 3 {
        hex2(operation) + " "@ + hex2(first) + " "@ + hex2(second)
    } else if length == 2 {
        hex2(operation) + " "@ + hex2(first) + "   "@
    } else {
        hex2(operation) + "      "@
    }
}

impl Trace {
    /// The line of the trace:
    /// `PPPP  OP 11 22 *MNE operand   A:AA X:XX Y:YY P:PP SP:SS CYC:n`.
    pub open spec fn line_text(&self) -> Seq<char> {
        hex4(self.pc) + "  "@ + machine_code_text(
            self.addressing_mode.spec_instruction_length(),
            self.operation,
            self.operand_1,
            self.operand_2,
        ) + " "@ + self.assembly_code@ + "A:"@ + hex2(self.a) + " X:"@ + hex2(self.x) + " Y:"@
            + hex2(self.y) + " P:"@ + hex2(self.p) + " SP:"@ + hex2(self.sp) + " CYC:"@ + decimal(
            self.cycle,
        )
    }

    /// Whether this is the trace of the instruction at `PC` of `nes`.
    pub open spec fn taken_of<M: Mapper, C: Controller>(&self, nes: Nes<M, C>) -> bool {
        &&& self.pc == nes.cpu.pc
        &&& self.operation == nes.trace_value(nes.cpu.pc)
        &&& self.mnemonic == opcode_table(self.operation).mnemonic
        &&& self.addressing_mode == opcode_table(self.operation).addressing_mode
        &&& self.operand_1 == nes.trace_operands().operand_1
        &&& self.operand_2 == nes.trace_operands().operand_2
        &&& self.a == nes.cpu.a
        &&& self.x == nes.cpu.x
        &&& self.y == nes.cpu.y
        &&& self.sp == nes.cpu.s
        &&& self.p == nes.cpu.p.bits
        &&& self.cycle == nes.cpu.cycles
        &&& self.assembly_code@ == nes.trace_assembly()
    }

    /// Takes the trace of the instruction at `PC`. The machine is left as it
    /// is; but the cartridge is read, at `PC` and where `decode_address` reads.
    pub fn new<M: Mapper, C: Controller>(nes: &mut Nes<M, C>) -> (r: Self)
        ensures
            r.taken_of(*old(nes)),
            *final(nes) == old(nes).after_trace(),
            final(nes).cpu == old(nes).cpu,
            final(nes).wram == old(nes).wram,
            final(nes).ppu == old(nes).ppu,
            final(nes).apu == old(nes).apu,
            final(nes).interrupt == old(nes).interrupt,
    {
        let operation = nes.trace_read(nes.cpu.pc);
        let instruction = decode(operation);
        let operands = decode_address(instruction.addressing_mode, nes);
        let assembly_code = to_assembly_code(
            Byte(operation),
            instruction.mnemonic,
            instruction.addressing_mode,
            &operands,
        );
        Trace {
            pc: nes.cpu.pc,
            operation,
            operand_1: operands.operand_1,
            operand_2: operands.operand_2,
            a: nes.cpu.a,
            x: nes.cpu.x,
            y: nes.cpu.y,
            sp: nes.cpu.s,
            p: nes.cpu.p.bits,
            cycle: nes.cpu.cycles,
            mnemonic: instruction.mnemonic,
            addressing_mode: instruction.addressing_mode,
            assembly_code,
        }
    }

    /// Writes the line of the trace.
    pub fn to_string(&self) -> (r: String)
        ensures
            r@ == self.line_text(),
    {
        let mut out = String::new();
        let len = self.addressing_mode.instruction_length();
        push_hex4(&mut out, self.pc);
        assert(out@ =~= hex4(self.pc));
        out.append("  ");
        push_hex2(&mut out, self.operation);
        if len == 3 {
            out.append(" ");
            push_hex2(&mut out, self.operand_1);
            out.append(" ");
            push_hex2(&mut out, self.operand_2);
        } else if len == 2 {
            out.append(" ");
            push_hex2(&mut out, self.operand_1);
            out.append("   ");
        } else {
            out.append("      ");
        }
        assert(out@ =~= hex4(self.pc) + "  "@ + machine_code_text(
            len,
            self.operation,
            self.operand_1,
            self.operand_2,
        ));
        out.append(" ");
        out.append(self.assembly_code.as_str());
        out.append("A:");
        push_hex2(&mut out, self.a);
        out.append(" X:");
        push_hex2(&mut out, self.x);
        out.append(" Y:");
        push_hex2(&mut out, self.y);
        out.append(" P:");
        push_hex2(&mut out, self.p);
        out.append(" SP:");
        push_hex2(&mut out, self.sp);
        out.append(" CYC:");
        push_decimal(&mut out, self.cycle);
        out
    }
}

} // verus!
