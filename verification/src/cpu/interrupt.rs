//! Interrupt sequences.

use vstd::prelude::*;
use crate::controller::Controller;
use crate::cpu::{Cpu, INTERRUPTED_B, STATUS_I};
use crate::nes::Nes;
use crate::rom::Mapper;

verus! {

pub const RESET_VECTOR: u16 = 0xFFFC;
pub const NMI_VECTOR: u16 = 0xFFFA;
pub const IRQ_VECTOR: u16 = 0xFFFE;

impl<M: Mapper, C: Controller> Nes<M, C> {
    /// The machine after a reset: five idle cycles, `PC` loaded from 0xFFFC,
    /// `I` set, `S` three down.
    #[verifier::opaque]
    pub open spec fn after_reset(self) -> Self {
        let t = self.ticked_by(5);
        let r = t.after_read_word(RESET_VECTOR);
        Nes {
            cpu: Cpu {
                pc: t.word_value(RESET_VECTOR),
                s: r.cpu.s.wrapping_sub(3),
                ..r.cpu.flag(STATUS_I, true)
            },
            ..r
        }
    }

    pub fn reset(&mut self)
        ensures
            *final(self) == old(self).after_reset(),
            old(self).ran(*final(self), 7, 7),
    {
        reveal(Nes::after_reset);
        self.cpu.cycles = self.cpu.cycles.wrapping_add(5);
        self.cpu.pc = self.read_word(RESET_VECTOR);
        self.cpu.p.insert(STATUS_I);
        self.cpu.s = self.cpu.s.wrapping_sub(3);
    }

    /// The machine after an interrupt sequence through `vector`: two idle
    /// cycles, `PC` pushed (one further if `skip`), the status pushed with
    /// bit 5 set and `B` as it is, `I` set, `PC` loaded from `vector`.
    #[verifier::opaque]
    pub open spec fn after_interrupt(self, vector: u16, skip: bool) -> Self {
        let t = self.ticked_by(2);
        let pc = if skip {
            t.cpu.pc.wrapping_add(1)
        } else {
            t.cpu.pc
        };
        let pushed = t.with_pc(pc).after_push_word(pc).after_push(t.cpu.p.bits | INTERRUPTED_B);
        let set = Nes { cpu: pushed.cpu.flag(STATUS_I, true), ..pushed };
        set.after_read_word(vector).with_pc(set.word_value(vector))
    }

    pub fn interrupt(&mut self, vector: u16, skip: bool)
        ensures
            *final(self) == old(self).after_interrupt(vector, skip),
            old(self).ran(*final(self), 7, 7),
    {
        reveal(Nes::after_interrupt);
        self.cpu.cycles = self.cpu.cycles.wrapping_add(2);
        if skip {
            self.cpu.pc = self.cpu.pc.wrapping_add(1);
        }
        self.push_stack_word(self.cpu.pc);
        // https://wiki.nesdev.com/w/index.php/Status_flags#The_B_flag
        // http://visual6502.org/wiki/index.php?title=6502_BRK_and_B_bit
        self.push_stack(self.cpu.p.bits | INTERRUPTED_B);
        self.cpu.p.insert(STATUS_I);
        self.cpu.pc = self.read_word(vector);
    }

    /// The non-maskable interrupt, through the vector at 0xFFFA.
    pub fn non_markable_interrupt(&mut self)
        ensures
            *final(self) == old(self).after_interrupt(NMI_VECTOR, false),
            old(self).ran(*final(self), 7, 7),
    {
        self.interrupt(NMI_VECTOR, false)
    }

    /// The interrupt request, through the vector at 0xFFFE.
    pub fn interrupt_request(&mut self)
        ensures
            *final(self) == old(self).after_interrupt(IRQ_VECTOR, false),
            old(self).ran(*final(self), 7, 7),
    {
        self.interrupt(IRQ_VECTOR, false)
    }

    /// The break interrupt, through the vector at 0xFFFE, with `PC` one further.
    pub fn break_interrupt(&mut self)
        ensures
            *final(self) == old(self).after_interrupt(IRQ_VECTOR, true),
            old(self).ran(*final(self), 7, 7),
    {
        self.interrupt(IRQ_VECTOR, true)
    }
}

} // verus!
