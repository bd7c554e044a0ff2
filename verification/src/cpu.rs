//! The 6502-family CPU: registers, status flags, opcodes.

pub mod instruction;
pub mod interrupt;

use vstd::prelude::*;
use vstd::array::spec_array_update;
use crate::controller::Controller;
use crate::data_unit::{
    assign_flag, flag_is_set, has_flag, high_byte, lemma_put_flag, low_byte, make_word, put_flag,
    wadd16, word_of,
};
use crate::cpu::instruction::{decode, execute, opcode_table};
use crate::data_unit::Byte;
use crate::nes::Nes;
use crate::rom::Mapper;

verus! {

/// Negative.
pub const STATUS_N: u8 = 0x80;
/// Overflow.
pub const STATUS_V: u8 = 0x40;
/// Bit 5, which reads 1 wherever the status is observed.
pub const STATUS_R: u8 = 0x20;
/// Break.
pub const STATUS_B: u8 = 0x10;
/// Decimal mode; without effect on this machine.
pub const STATUS_D: u8 = 0x08;
/// Interrupt disable.
pub const STATUS_I: u8 = 0x04;
/// Zero.
pub const STATUS_Z: u8 = 0x02;
/// Carry.
pub const STATUS_C: u8 = 0x01;
/// What an instruction (`PHP`, `BRK`) adds to the status it pushes.
pub const OPERATED_B: u8 = 0x30;
/// What a hardware interrupt adds to the status it pushes.
pub const INTERRUPTED_B: u8 = 0x20;

/// Whether `mask` is one of the seven flags `N V B D I Z C`.
pub open spec fn is_flag(mask: u8) -> bool {
    mask == STATUS_N || mask == STATUS_V || mask == STATUS_B || mask == STATUS_D || mask
        == STATUS_I || mask == STATUS_Z || mask == STATUS_C
}

/// None of the seven flags shares a bit with bit 5.
pub proof fn lemma_flags_apart()
    ensures
        forall|mask: u8| is_flag(mask) ==> STATUS_R & mask == 0,
{
    assert(0x20u8 & 0x80 == 0 && 0x20u8 & 0x40 == 0 && 0x20u8 & 0x10 == 0 && 0x20u8 & 0x08 == 0
        && 0x20u8 & 0x04 == 0 && 0x20u8 & 0x02 == 0 && 0x20u8 & 0x01 == 0) by (bit_vector);
}

/// The processor status register `P`.
#[derive(Clone, Copy, Debug, PartialEq, Eq, Structural)]
pub struct Status {
    pub bits: u8,
}

/// The status after `value` has updated `Z` and `N`: `Z` is set exactly when
/// `value` is zero, `N` exactly when bit 7 of `value` is set.
pub open spec fn zn_of(bits: u8, value: u16) -> u8 {
    put_flag(put_flag(bits, STATUS_Z, value == 0), STATUS_N, (value >> 7) & 1 == 1)
}

/// After a value has updated `Z` and `N`, `Z` is set exactly if the value is
/// zero and `N` exactly if its bit 7 is set; bit 5 and the other flags are as
/// they were.
pub proof fn law_zn_reflects_value(bits: u8, value: u16)
    ensures
        has_flag(zn_of(bits, value), STATUS_Z) <==> value == 0,
        has_flag(zn_of(bits, value), STATUS_N) <==> value & 0x80 != 0,
        has_flag(zn_of(bits, value), STATUS_R) == has_flag(bits, STATUS_R),
        has_flag(zn_of(bits, value), STATUS_C) == has_flag(bits, STATUS_C),
        has_flag(zn_of(bits, value), STATUS_V) == has_flag(bits, STATUS_V),
        has_flag(zn_of(bits, value), STATUS_I) == has_flag(bits, STATUS_I),
        has_flag(zn_of(bits, value), STATUS_D) == has_flag(bits, STATUS_D),
        has_flag(zn_of(bits, value), STATUS_B) == has_flag(bits, STATUS_B),
{
    let z = value == 0;
    let n = (value >> 7) & 1 == 1;
    assert(((value >> 7) & 1 == 1) <==> (value & 0x80 != 0)) by (bit_vector);
    let a = put_flag(bits, STATUS_Z, z);
    assert(0x20u8 & 0x02 == 0 && 0x01u8 & 0x02 == 0 && 0x40u8 & 0x02 == 0 && 0x04u8 & 0x02 == 0
        && 0x08u8 & 0x02 == 0 && 0x10u8 & 0x02 == 0 && 0x80u8 & 0x02 == 0 && 0x20u8 & 0x80 == 0
        && 0x01u8 & 0x80 == 0 && 0x40u8 & 0x80 == 0 && 0x04u8 & 0x80 == 0 && 0x08u8 & 0x80 == 0
        && 0x10u8 & 0x80 == 0 && 0x02u8 & 0x80 == 0) by (bit_vector);
    lemma_put_flag(bits, STATUS_Z, z, STATUS_R);
    lemma_put_flag(bits, STATUS_Z, z, STATUS_C);
    lemma_put_flag(bits, STATUS_Z, z, STATUS_V);
    lemma_put_flag(bits, STATUS_Z, z, STATUS_I);
    lemma_put_flag(bits, STATUS_Z, z, STATUS_D);
    lemma_put_flag(bits, STATUS_Z, z, STATUS_B);
    lemma_put_flag(bits, STATUS_Z, z, STATUS_N);
    lemma_put_flag(a, STATUS_N, n, STATUS_R);
    lemma_put_flag(a, STATUS_N, n, STATUS_C);
    lemma_put_flag(a, STATUS_N, n, STATUS_V);
    lemma_put_flag(a, STATUS_N, n, STATUS_I);
    lemma_put_flag(a, STATUS_N, n, STATUS_D);
    lemma_put_flag(a, STATUS_N, n, STATUS_B);
    lemma_put_flag(a, STATUS_N, n, STATUS_Z);
}

impl Status {
    pub fn from_bits_truncate(bits: u8) -> (r: Self)
        ensures
            r.bits == bits,
    {
        Status { bits }
    }

    pub fn bits(&self) -> (r: u8)
        ensures
            r == self.bits,
    {
        self.bits
    }

    pub open spec fn spec_contains(&self, mask: u8) -> bool {
        has_flag(self.bits, mask)
    }

    #[verifier::when_used_as_spec(spec_contains)]
    pub fn contains(&self, mask: u8) -> (r: bool)
        ensures
            r == self.spec_contains(mask),
    {
        flag_is_set(self.bits, mask)
    }

    pub fn insert(&mut self, mask: u8)
        ensures
            final(self).bits == put_flag(old(self).bits, mask, true),
            has_flag(old(self).bits, STATUS_R) ==> has_flag(final(self).bits, STATUS_R),
    {
        proof {
            let b = self.bits;
            assert((b & 0x20 == 0x20) ==> ((b | mask) & 0x20 == 0x20)) by (bit_vector);
        }
        self.bits = assign_flag(self.bits, mask, true);
    }

    pub fn remove(&mut self, mask: u8)
        ensures
            final(self).bits == put_flag(old(self).bits, mask, false),
            is_flag(mask) && has_flag(old(self).bits, STATUS_R) ==> has_flag(
                final(self).bits,
                STATUS_R,
            ),
    {
        proof {
            lemma_flags_apart();
            lemma_put_flag(self.bits, mask, false, STATUS_R);
        }
        self.bits = assign_flag(self.bits, mask, false);
    }

    pub fn set(&mut self, mask: u8, on: bool)
        ensures
            final(self).bits == put_flag(old(self).bits, mask, on),
            is_flag(mask) && has_flag(old(self).bits, STATUS_R) ==> has_flag(
                final(self).bits,
                STATUS_R,
            ),
    {
        proof {
            lemma_flags_apart();
            lemma_put_flag(self.bits, mask, on, STATUS_R);
        }
        self.bits = assign_flag(self.bits, mask, on);
    }

    /// Updates `Z` and `N` from `value`: `Z` is set exactly when `value` is
    /// zero, `N` exactly when its bit 7 is set.
    pub fn set_zn(&mut self, value: u16)
        ensures
            final(self).bits == zn_of(old(self).bits, value),
            has_flag(old(self).bits, STATUS_R) ==> has_flag(final(self).bits, STATUS_R),
    {
        self.set(STATUS_Z, value == 0);
        self.set(STATUS_N, (value >> 7) & 1 == 1);
    }

    /// The status as pulled from the stack: `B` cleared, bit 5 set.
    pub open spec fn pulled(value: u8) -> u8 {
        (value & !STATUS_B) | STATUS_R
    }

    pub fn from_pulled(value: u8) -> (r: Self)
        ensures
            r.bits == Self::pulled(value),
            has_flag(r.bits, STATUS_R),
    {
        assert(((value & !0x10u8) | 0x20) & 0x20 == 0x20) by (bit_vector);
        Status { bits: (value & !STATUS_B) | STATUS_R }
    }
}

/// The CPU registers.
#[derive(Clone, Copy, Debug, PartialEq, Eq, Structural)]
pub struct Cpu {
    pub a: u8,
    pub x: u8,
    pub y: u8,
    /// The stack pointer; the stack lives at `0x0100 + s`.
    pub s: u8,
    pub p: Status,
    pub pc: u16,
    /// The cycles spent so far, wrapping at 64 bits.
    pub cycles: u64,
}

impl Cpu {
    pub open spec fn zeroed() -> Self {
        Cpu { a: 0, x: 0, y: 0, s: 0, p: Status { bits: 0 }, pc: 0, cycles: 0 }
    }

    pub fn new() -> (r: Self)
        ensures
            r == Self::zeroed(),
    {
        Cpu { a: 0, x: 0, y: 0, s: 0, p: Status { bits: 0 }, pc: 0, cycles: 0 }
    }

    /// The registers after `value` has updated `Z` and `N`.
    pub open spec fn zn(self, value: u16) -> Self {
        Cpu { p: Status { bits: zn_of(self.p.bits, value) }, ..self }
    }

    /// The registers with the flag `mask` set (`on`) or cleared.
    pub open spec fn flag(self, mask: u8, on: bool) -> Self {
        Cpu { p: Status { bits: put_flag(self.p.bits, mask, on) }, ..self }
    }

    /// The registers after `val` and the carry were added to `A`: `C` is the
    /// carry out of bit 7, `V` is set where both operands differ in sign from
    /// the result, `Z` and `N` follow the result. Decimal mode has no effect.
    // http://www.righto.com/2012/12/the-6502-overflow-flag-explained.html
    pub open spec fn added(self, val: u8) -> Self {
        let sum = self.a + val + (if has_flag(self.p.bits, STATUS_C) {
            1int
        } else {
            0int
        });
        let result = (sum % 0x100) as u8;
        Cpu { a: result, ..self.flag(STATUS_C, sum > 0xFF).flag(
            STATUS_V,
            (self.a ^ result) & (val ^ result) & 0x80 != 0,
        ) }.zn(result as u16)
    }

    pub fn add_with_carry(&mut self, val: u8)
        ensures
            *final(self) == old(self).added(val),
            has_flag(old(self).p.bits, STATUS_R) ==> has_flag(final(self).p.bits, STATUS_R),
    {
        let a = self.a;
        let carry: u16 = if self.p.contains(STATUS_C) {
            1
        } else {
            0
        };
        let sum: u16 = a as u16 + val as u16 + carry;
        let result: u8 = (sum % 0x100) as u8;
        self.p.set(STATUS_C, sum > 0xFF);
        self.p.set(STATUS_V, (a ^ result) & (val ^ result) & 0x80 != 0);
        self.a = result;
        self.p.set_zn(result as u16);
    }

    /// The registers after `reg` was compared with `m`: `C` where `reg >= m`,
    /// `Z` and `N` from the difference `diff`.
    pub open spec fn compared(self, reg: u8, m: u8, diff: u16) -> Self {
        self.flag(STATUS_C, m <= reg).zn(diff)
    }

    /// Whether the interrupt-disable flag is set.
    pub fn interrupted(&self) -> (r: bool)
        ensures
            r == has_flag(self.p.bits, STATUS_I),
    {
        self.p.contains(STATUS_I)
    }
}

// http://wiki.nesdev.com/w/index.php/CPU_addressing_modes
#[derive(Clone, Copy, Debug, PartialEq, Eq, Structural)]
pub enum AddressingMode {
    Implicit,
    Accumulator,
    Immediate,
    ZeroPage,
    ZeroPageX,
    ZeroPageY,
    Absolute,
    /// `penalty`: whether a page cross costs a cycle, rather than every access.
    AbsoluteX { penalty: bool },
    /// `penalty`: whether a page cross costs a cycle, rather than every access.
    AbsoluteY { penalty: bool },
    Relative,
    Indirect,
    IndexedIndirect,
    IndirectIndexed,
}

// http://obelisk.me.uk/6502/reference.html
#[derive(Clone, Copy, Debug, PartialEq, Eq, Structural)]
pub enum Mnemonic {
    // Load/Store Operations
    LDA, LDX, LDY, STA, STX, STY,
    // Register Operations
    TAX, TSX, TAY, TXA, TXS, TYA,
    // Stack instructions
    PHA, PHP, PLA, PLP,
    // Logical instructions
    AND, EOR, ORA, BIT,
    // Arithmetic instructions
    ADC, SBC, CMP, CPX, CPY,
    // Increment/Decrement instructions
    INC, INX, INY, DEC, DEX, DEY,
    // Shift instructions
    ASL, LSR, ROL, ROR,
    // Jump instructions
    JMP, JSR, RTS, RTI,
    // Branch instructions
    BCC, BCS, BEQ, BMI, BNE, BPL, BVC, BVS,
    // Flag control instructions
    CLC, CLD, CLI, CLV, SEC, SED, SEI,
    // Misc
    BRK, NOP,
    // Unofficial
    LAX, SAX, DCP, ISB, SLO, RLA, SRE, RRA,
}

/// A decoded opcode.
#[derive(Clone, Copy, Debug, PartialEq, Eq, Structural)]
pub struct Instruction {
    pub mnemonic: Mnemonic,
    pub addressing_mode: AddressingMode,
}

/// Whether adding `value` to `from` (modulo 0x10000) leaves the page of `from`.
pub open spec fn crosses_page(value: u16, from: u16) -> bool {
    from.wrapping_add(value) / 0x100 != from / 0x100
}

pub fn page_crossed_u16(value: u16, from: u16) -> (r: bool)
    ensures
        r == crosses_page(value, from),
{
    from.wrapping_add(value) / 0x100 != from / 0x100
}

/// Whether adding the signed `value` to `from` leaves the page of `from`.
pub fn page_crossed(value: i8, from: u16) -> (r: bool)
    ensures
        r == ((from + value) / 0x100 != from / 0x100),
{
    let target: i32 = from as i32 + value as i32;
    if target < 0 {
        true
    } else {
        target / 0x100 != (from / 0x100) as i32
    }
}

pub const STACK_BASE: u16 = 0x0100;

impl<M: Mapper, C: Controller> Nes<M, C> {
    pub open spec fn with_s(self, s: u8) -> Self {
        Nes { cpu: Cpu { s, ..self.cpu }, ..self }
    }

    pub open spec fn with_pc(self, pc: u16) -> Self {
        Nes { cpu: Cpu { pc, ..self.cpu }, ..self }
    }

    pub open spec fn with_p(self, bits: u8) -> Self {
        Nes { cpu: Cpu { p: Status { bits }, ..self.cpu }, ..self }
    }

    /// Whether, from `self` to `after`, the scan counter and the interrupt
    /// latch stayed as they were, bit 5 of the status was not cleared, and
    /// between `least` and `most` CPU cycles passed.
    pub open spec fn ran(&self, after: Self, least: u64, most: u64) -> bool {
        &&& after.ppu.scan == self.ppu.scan
        &&& after.interrupt == self.interrupt
        &&& least <= self.spent(after) <= most
        &&& has_flag(self.cpu.p.bits, STATUS_R) ==> has_flag(after.cpu.p.bits, STATUS_R)
    }

    /// The machine after `value` was pushed: written at `0x0100 + S`, then `S`
    /// one down (0xFF below 0x00).
    pub open spec fn after_push(self, value: u8) -> Self {
        let written = self.after_write((STACK_BASE + self.cpu.s) as u16, value);
        written.with_s(self.cpu.s.wrapping_sub(1))
    }

    pub fn push_stack(&mut self, value: u8)
        ensures
            *final(self) == old(self).after_push(value),
            final(self).cpu == (Cpu {
                s: old(self).cpu.s.wrapping_sub(1),
                cycles: final(self).cpu.cycles,
                ..old(self).cpu
            }),
            old(self).ran(*final(self), 1, 1),
    {
        self.write(STACK_BASE + self.cpu.s as u16, value);
        self.cpu.s = self.cpu.s.wrapping_sub(1);
    }

    /// The machine after `word` was pushed: high byte first.
    pub open spec fn after_push_word(self, word: u16) -> Self {
        self.after_push((word / 0x100) as u8).after_push((word % 0x100) as u8)
    }

    pub fn push_stack_word(&mut self, word: u16)
        ensures
            *final(self) == old(self).after_push_word(word),
            final(self).cpu == (Cpu {
                s: old(self).cpu.s.wrapping_sub(2),
                cycles: final(self).cpu.cycles,
                ..old(self).cpu
            }),
            old(self).ran(*final(self), 2, 2),
    {
        self.push_stack(high_byte(word));
        self.push_stack(low_byte(word));
    }

    /// The byte that a pull gives: the one at `0x0100 + (S + 1)` (0x00 above
    /// 0xFF).
    pub open spec fn pull_value(&self) -> u8 {
        self.with_s(self.cpu.s.wrapping_add(1)).read_value(
            (STACK_BASE + self.cpu.s.wrapping_add(1)) as u16,
        )
    }

    /// The machine after a pull: `S` one up, then the byte read.
    pub open spec fn after_pull(self) -> Self {
        self.with_s(self.cpu.s.wrapping_add(1)).after_read(
            (STACK_BASE + self.cpu.s.wrapping_add(1)) as u16,
        )
    }

    pub fn pull_stack(&mut self) -> (r: u8)
        ensures
            r == old(self).pull_value(),
            *final(self) == old(self).after_pull(),
            final(self).cpu == (Cpu {
                s: old(self).cpu.s.wrapping_add(1),
                cycles: final(self).cpu.cycles,
                ..old(self).cpu
            }),
            old(self).ran(*final(self), 1, 1),
    {
        self.cpu.s = self.cpu.s.wrapping_add(1);
        self.read(STACK_BASE + self.cpu.s as u16)
    }

    /// The word that a pull gives: low byte first.
    pub open spec fn pull_word_value(&self) -> u16 {
        word_of(self.pull_value(), self.after_pull().pull_value())
    }

    pub open spec fn after_pull_word(self) -> Self {
        self.after_pull().after_pull()
    }

    pub fn pull_stack_word(&mut self) -> (r: u16)
        ensures
            r == old(self).pull_word_value(),
            *final(self) == old(self).after_pull_word(),
            final(self).cpu == (Cpu {
                s: old(self).cpu.s.wrapping_add(2),
                cycles: final(self).cpu.cycles,
                ..old(self).cpu
            }),
            old(self).ran(*final(self), 2, 2),
    {
        let l = self.pull_stack();
        let h = self.pull_stack();
        make_word(l, h)
    }
}

impl<M: Mapper, C: Controller> Nes<M, C> {
    /// The machine after `n` zero bytes were written to `start` and the
    /// addresses after it, in order.
    pub open spec fn after_zero_fill(self, start: u16, n: nat) -> Self
        decreases n,
    {
        if n == 0 {
            self
        } else {
            self.after_zero_fill(start, (n - 1) as nat).after_write(wadd16(start, n - 1), 0)
        }
    }

    /// The machine as power-on leaves the CPU and the audio unit: `P` 0x34,
    /// `A`, `X`, `Y` zero, `S` 0xFD, and zero written to 0x4017, 0x4015 and
    /// 0x4000 to 0x4013.
    // https://wiki.nesdev.com/w/index.php/CPU_power_up_state
    pub open spec fn after_power_on(self) -> Self {
        Nes {
            cpu: Cpu { p: Status { bits: 0x34 }, a: 0, x: 0, y: 0, s: 0xFD, ..self.cpu },
            ..self
        }.after_write(0x4017, 0).after_write(0x4015, 0).after_zero_fill(0x4000, 20)
    }

    pub fn power_on(&mut self)
        ensures
            *final(self) == old(self).after_power_on(),
            final(self).ppu == old(self).ppu,
            final(self).interrupt == old(self).interrupt,
            final(self).mapper == old(self).mapper,
            final(self).wram == old(self).wram,
    {
        // IRQ disabled
        self.cpu.p = Status::from_bits_truncate(0x34);
        self.cpu.a = 0x00;
        self.cpu.x = 0x00;
        self.cpu.y = 0x00;
        self.cpu.s = 0xFD;
        // frame irq disabled
        self.write(0x4017, 0x00);
        // all channels disabled
        self.write(0x4015, 0x00);
        let ghost before = *self;
        let mut i: u16 = 0;
        while i < 20
            invariant
                i <= 20,
                *self == before.after_zero_fill(0x4000, i as nat),
                self.ppu == before.ppu,
                self.interrupt == before.interrupt,
                self.mapper == before.mapper,
                self.wram == before.wram,
            decreases 20 - i,
        {
            self.write(0x4000 + i, 0x00);
            i += 1;
        }
    }
}

/// Reads the opcode at `PC` and moves `PC` behind it.
pub fn fetch<M: Mapper, C: Controller>(nes: &mut Nes<M, C>) -> (r: Byte)
    ensures
        r.0 == old(nes).read_value(old(nes).cpu.pc),
        *final(nes) == old(nes).after_read(old(nes).cpu.pc).with_pc(
            old(nes).cpu.pc.wrapping_add(1),
        ),
        final(nes).cpu == (Cpu {
            pc: old(nes).cpu.pc.wrapping_add(1),
            cycles: final(nes).cpu.cycles,
            ..old(nes).cpu
        }),
        old(nes).ran(*final(nes), 1, 1),
{
    let opcode = nes.read(nes.cpu.pc);
    nes.cpu.pc = nes.cpu.pc.wrapping_add(1);
    Byte(opcode)
}

impl<M: Mapper, C: Controller> Nes<M, C> {
    /// The machine after one instruction: the opcode at `PC` fetched and
    /// decoded, its operand fetched, and the instruction run.
    pub open spec fn after_cpu_step(self) -> Self {
        self.after_read(self.cpu.pc).with_pc(self.cpu.pc.wrapping_add(1)).after_execute(
            opcode_table(self.read_value(self.cpu.pc)),
        )
    }
}

/// Runs one instruction and gives the cycles that it took.
pub fn step<M: Mapper, C: Controller>(nes: &mut Nes<M, C>) -> (r: u64)
    ensures
        *final(nes) == old(nes).after_cpu_step(),
        r == old(nes).spent(*final(nes)),
        old(nes).ran(*final(nes), 1, 522),
{
    let before = nes.cpu.cycles;
    let opcode = fetch(nes);
    let instruction = decode(opcode.0);
    execute(nes, instruction);
    nes.cpu.cycles.wrapping_sub(before)
}

// The stack gives back what it was given.
impl<M: Mapper, C: Controller> Nes<M, C> {
    /// The machine after the bytes of `values` were pushed, first to last.
    pub open spec fn after_pushes(self, values: Seq<u8>) -> Self
        decreases values.len(),
    {
        if values.len() == 0 {
            self
        } else {
            self.after_pushes(values.drop_last()).after_push(values.last())
        }
    }

    /// The bytes that `n` pulls give, first to last.
    pub open spec fn pulled(self, n: nat) -> Seq<u8>
        decreases n,
    {
        if n == 0 {
            Seq::empty()
        } else {
            seq![self.pull_value()] + self.after_pull().pulled((n - 1) as nat)
        }
    }

    /// The machine after `n` pulls.
    pub open spec fn after_pulls(self, n: nat) -> Self
        decreases n,
    {
        if n == 0 {
            self
        } else {
            self.after_pull().after_pulls((n - 1) as nat)
        }
    }

    /// The cell of the work RAM that the stack pointer `s` points to.
    pub open spec fn stack_cell(s: u8) -> int {
        STACK_BASE + s
    }

    /// The stack cell `k` above the one that the stack pointer `s` points to.
    pub open spec fn cell_above(s: u8, k: int) -> int {
        STACK_BASE + (s + k) % 0x100
    }

    /// A push writes the stack cell under `S` and touches no other cell of
    /// the work RAM.
    pub proof fn lemma_push_cell(self, value: u8)
        ensures
            self.after_push(value).wram == spec_array_update(
                self.wram,
                Self::stack_cell(self.cpu.s),
                value,
            ),
            self.after_push(value).cpu.s == self.cpu.s.wrapping_sub(1),
    {
        reveal(Nes::after_write_bus);
        let addr = (STACK_BASE + self.cpu.s) as u16;
        assert(addr != crate::bus::OAMDMA && addr < 0x2000);
        assert(self.after_write(addr, value) == self.ticked().after_write_bus(addr, value));
        assert(addr as int % 0x0800 == Self::stack_cell(self.cpu.s));
    }

    /// A pull reads the stack cell above `S` and writes none.
    pub proof fn lemma_pull_cell(self)
        ensures
            self.pull_value() == self.wram[Self::stack_cell(self.cpu.s.wrapping_add(1))],
            self.after_pull().wram == self.wram,
            self.after_pull().cpu.s == self.cpu.s.wrapping_add(1),
    {
        reveal(Nes::bus_value);
        reveal(Nes::after_read_bus);
        let addr = (STACK_BASE + self.cpu.s.wrapping_add(1)) as u16;
        assert(addr < 0x2000);
        assert(addr as int % 0x0800 == Self::stack_cell(self.cpu.s.wrapping_add(1)));
    }

    /// A push writes the stack cell under `S` and touches no other cell of
    /// the work RAM; a pull reads the cell above `S` and writes none.
    pub proof fn lemma_stack_cells(self, value: u8)
        ensures
            self.after_push(value).wram == spec_array_update(
                self.wram,
                Self::stack_cell(self.cpu.s),
                value,
            ),
            self.after_push(value).cpu.s == self.cpu.s.wrapping_sub(1),
            self.pull_value() == self.wram[Self::stack_cell(self.cpu.s.wrapping_add(1))],
            self.after_pull().wram == self.wram,
            self.after_pull().cpu.s == self.cpu.s.wrapping_add(1),
    {
        self.lemma_push_cell(value);
        self.lemma_pull_cell();
    }

    /// A byte that was pushed is the byte that the next pull gives, and the
    /// pull leaves `S` where it was before the push.
    pub proof fn law_stack_round_trip(self, value: u8)
        ensures
            self.after_push(value).pull_value() == value,
            self.after_push(value).after_pull().cpu.s == self.cpu.s,
    {
        self.lemma_stack_cells(value);
        self.after_push(value).lemma_stack_cells(value);
    }

    /// A word that was pushed is the word that the next pull of a word gives,
    /// and the pull leaves `S` where it was before the push.
    pub proof fn law_stack_word_round_trip(self, word: u16)
        ensures
            self.after_push_word(word).pull_word_value() == word,
            self.after_push_word(word).after_pull_word().cpu.s == self.cpu.s,
    {
        let high = (word / 0x100) as u8;
        let low = (word % 0x100) as u8;
        let a = self.after_push(high);
        let b = a.after_push(low);
        self.lemma_stack_cells(high);
        a.lemma_stack_cells(low);
        b.lemma_stack_cells(0);
        b.after_pull().lemma_stack_cells(0);
    }

    /// What `n` pulls give depends only on `S` and on the `n` stack cells
    /// above it.
    pub proof fn lemma_pulled_frame(self, other: Self, n: nat)
        requires
            n <= 256,
            self.cpu.s == other.cpu.s,
            forall|k: int|
                1 <= k <= n ==> self.wram[#[trigger] Self::cell_above(self.cpu.s, k)]
                    == other.wram[Self::cell_above(self.cpu.s, k)],
        ensures
            self.pulled(n) == other.pulled(n),
            self.after_pulls(n).cpu.s == (self.cpu.s + n) % 0x100,
        decreases n,
    {
        if n > 0 {
            self.lemma_stack_cells(0);
            other.lemma_stack_cells(0);
            let a = self.after_pull();
            let b = other.after_pull();
            assert(self.wram[Self::cell_above(self.cpu.s, 1)] == other.wram[Self::cell_above(
                self.cpu.s,
                1,
            )]);
            assert forall|k: int| 1 <= k <= n - 1 implies a.wram[#[trigger] Self::cell_above(
                a.cpu.s,
                k,
            )] == b.wram[Self::cell_above(a.cpu.s, k)] by {
                assert(Self::cell_above(a.cpu.s, k) == Self::cell_above(self.cpu.s, k + 1));
            }
            a.lemma_pulled_frame(b, (n - 1) as nat);
        }
    }

    /// After up to 256 bytes were pushed, as many pulls give the same bytes
    /// in reverse order and leave `S` where it was before the first push.
    pub proof fn law_stack_sequence(self, values: Seq<u8>)
        requires
            values.len() <= 256,
        ensures
            self.after_pushes(values).pulled(values.len()) == values.reverse(),
            self.after_pushes(values).after_pulls(values.len()).cpu.s == self.cpu.s,
            self.after_pushes(values).cpu.s == (self.cpu.s - values.len()) % 0x100,
        decreases values.len(),
    {
        let n = values.len();
        if n == 0 {
            assert(values.reverse() =~= Seq::<u8>::empty());
        } else {
            let init = values.drop_last();
            let v = values.last();
            let s1 = self.after_pushes(init);
            let s2 = s1.after_push(v);
            self.law_stack_sequence(init);
            s1.lemma_stack_cells(v);
            s2.lemma_stack_cells(v);
            let back = s2.after_pull();
            assert(back.cpu.s == s1.cpu.s);
            assert forall|k: int| 1 <= k <= n - 1 implies back.wram[#[trigger] Self::cell_above(
                back.cpu.s,
                k,
            )] == s1.wram[Self::cell_above(back.cpu.s, k)] by {
                assert(Self::cell_above(back.cpu.s, k) != Self::stack_cell(s1.cpu.s));
            }
            back.lemma_pulled_frame(s1, (n - 1) as nat);
            s1.lemma_pulled_frame(s1, (n - 1) as nat);
            assert(s2.pulled(n) == seq![v] + back.pulled((n - 1) as nat));
            assert(values.reverse() =~= seq![v] + init.reverse());
            assert(s2.after_pulls(n) == back.after_pulls((n - 1) as nat));
        }
    }
}

} // verus!
