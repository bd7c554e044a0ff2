//! The interrupt latch: the set of pending interrupts, by priority.

use vstd::prelude::*;
use crate::controller::Controller;
use crate::cpu::interrupt::{IRQ_VECTOR, NMI_VECTOR};
use crate::cpu::{STATUS_I, STATUS_R};
use crate::data_unit::{assign_flag, flag_is_set, has_flag, put_flag};
use crate::nes::Nes;
use crate::rom::Mapper;

verus! {

pub const RESET: u8 = 0x08;
pub const NMI: u8 = 0x04;
pub const IRQ: u8 = 0x02;
pub const BRK: u8 = 0x01;
pub const NO_INTERRUPT: u8 = 0x00;

/// The pending interrupts, one bit each.
#[derive(Clone, Copy, Debug, PartialEq, Eq, Structural)]
pub struct Interrupt {
    pub bits: u8,
}

/// The highest pending interrupt in `bits`: `RESET` before `NMI` before `IRQ`
/// before `BRK`; `NO_INTERRUPT` when none is pending.
pub open spec fn highest_pending(bits: u8) -> u8 {
    if has_flag(bits, RESET) {
        RESET
    } else if has_flag(bits, NMI) {
        NMI
    } else if has_flag(bits, IRQ) {
        IRQ
    } else if has_flag(bits, BRK) {
        BRK
    } else {
        NO_INTERRUPT
    }
}

impl Interrupt {
    pub fn new() -> (r: Self)
        ensures
            r.bits == NO_INTERRUPT,
    {
        Interrupt { bits: NO_INTERRUPT }
    }

    pub fn contains(&self, mask: u8) -> (r: bool)
        ensures
            r == has_flag(self.bits, mask),
    {
        flag_is_set(self.bits, mask)
    }

    pub fn insert(&mut self, mask: u8)
        ensures
            final(self).bits == put_flag(old(self).bits, mask, true),
    {
        self.bits = assign_flag(self.bits, mask, true);
    }

    pub fn remove(&mut self, mask: u8)
        ensures
            final(self).bits == put_flag(old(self).bits, mask, false),
    {
        self.bits = assign_flag(self.bits, mask, false);
    }

    /// The highest pending interrupt alone; the latch itself is unchanged, and
    /// the caller removes what it has handled.
    pub fn get(&self) -> (r: Self)
        ensures
            r.bits == highest_pending(self.bits),
    {
        if self.contains(RESET) {
            Interrupt { bits: RESET }
        } else if self.contains(NMI) {
            Interrupt { bits: NMI }
        } else if self.contains(IRQ) {
            Interrupt { bits: IRQ }
        } else if self.contains(BRK) {
            Interrupt { bits: BRK }
        } else {
            Interrupt { bits: NO_INTERRUPT }
        }
    }
}

impl<M: Mapper, C: Controller> Nes<M, C> {
    /// Whether an interrupt is pending that the CPU takes now: any but an
    /// `IRQ` held back by the `I` flag.
    pub open spec fn spec_interrupt_due(&self) -> bool {
        let pending = highest_pending(self.interrupt.bits);
        pending == RESET || pending == NMI || pending == BRK || (pending == IRQ && !has_flag(
            self.cpu.p.bits,
            STATUS_I,
        ))
    }

    #[verifier::when_used_as_spec(spec_interrupt_due)]
    pub fn interrupt_due(&self) -> (r: bool)
        ensures
            r == self.spec_interrupt_due(),
    {
        let pending = self.interrupt.get().bits;
        pending == RESET || pending == NMI || pending == BRK || (pending == IRQ
            && !self.cpu.interrupted())
    }

    /// The machine after the highest pending interrupt was handled and taken
    /// off the latch; unchanged where none is due.
    pub open spec fn after_handle_interrupt(self) -> Self {
        let pending = highest_pending(self.interrupt.bits);
        if !self.spec_interrupt_due() {
            self
        } else {
            let handled = if pending == RESET {
                self.after_reset()
            } else if pending == NMI {
                self.after_interrupt(NMI_VECTOR, false)
            } else if pending == IRQ {
                self.after_interrupt(IRQ_VECTOR, false)
            } else {
                self.after_interrupt(IRQ_VECTOR, true)
            };
            Nes {
                interrupt: Interrupt { bits: put_flag(self.interrupt.bits, pending, false) },
                ..handled
            }
        }
    }
}

/// Handles the highest pending interrupt, if it is due, and gives the cycles
/// that this took: 7, or 0 where none was due.
pub fn handle_interrupt<M: Mapper, C: Controller>(nes: &mut Nes<M, C>) -> (r: u64)
    ensures
        *final(nes) == old(nes).after_handle_interrupt(),
        r == old(nes).spent(*final(nes)),
        r == (if old(nes).spec_interrupt_due() {
            7u64
        } else {
            0u64
        }),
        final(nes).ppu.scan == old(nes).ppu.scan,
        has_flag(old(nes).cpu.p.bits, STATUS_R) ==> has_flag(final(nes).cpu.p.bits, STATUS_R),
{
    let before = nes.cpu.cycles;
    let current = nes.interrupt.get().bits;
    if current == RESET {
        nes.reset();
        nes.interrupt.remove(current);
    } else if current == NMI {
        nes.non_markable_interrupt();
        nes.interrupt.remove(current);
    } else if current == IRQ {
        if !nes.cpu.interrupted() {
            nes.interrupt_request();
            nes.interrupt.remove(current);
        }
    } else if current == BRK {
        nes.break_interrupt();
        nes.interrupt.remove(current);
    }
    nes.cpu.cycles.wrapping_sub(before)
}

} // verus!
