//! The bus as the CPU drives it: every access costs one cycle, and a write
//! to 0x4014 starts an OAM DMA.

use vstd::prelude::*;
use crate::controller::Controller;
use crate::cpu::Cpu;
use crate::data_unit::{make_word, wadd16, word_of};
use crate::nes::Nes;
use crate::rom::Mapper;

verus! {

/// The register whose write starts an OAM DMA.
pub const OAMDMA: u16 = 0x4014;
/// The register through which the CPU writes OAM.
pub const OAMDATA: u16 = 0x2004;

/// Where an indirect read takes the high byte of its word from: the byte
/// after `addr` within the same page, so that the byte after `0x..FF` is
/// `0x..00`.
// Reproduce 6502 bug; http://nesdev.com/6502bugs.txt
pub open spec fn indirect_high_addr(addr: u16) -> u16 {
    ((addr / 0x100) * 0x100 + (addr + 1) % 0x100) as u16
}

/// An indirect read at the last byte of a page takes its high byte from the
/// first byte of the same page, not from the next page.
pub proof fn law_indirect_page_wrap(addr: u16)
    ensures
        addr % 0x100 == 0xFF ==> indirect_high_addr(addr) == addr - 0xFF,
        addr % 0x100 != 0xFF ==> indirect_high_addr(addr) == addr + 1,
        indirect_high_addr(addr) / 0x100 == addr / 0x100,
{
}

impl<M: Mapper, C: Controller> Nes<M, C> {
    /// Whether, of the CPU registers, the scan counter and the interrupt
    /// latch, nothing but the cycle counter differs between `self` and `after`.
    pub open spec fn only_clock_moved(&self, after: Self) -> bool {
        &&& after.cpu == (Cpu { cycles: after.cpu.cycles, ..self.cpu })
        &&& after.ppu.scan == self.ppu.scan
        &&& after.interrupt == self.interrupt
    }

    /// What a write to `addr` costs, in cycles: 513 for an OAM DMA, 514 if it
    /// starts on an odd cycle; else 1.
    pub open spec fn write_cost(&self, addr: u16) -> u64 {
        if addr == OAMDMA {
            if self.cpu.cycles % 2 == 1 {
                514
            } else {
                513
            }
        } else {
            1
        }
    }

    /// The byte that the CPU reads at `addr`.
    pub open spec fn read_value(&self, addr: u16) -> u8 {
        self.ticked().bus_value(addr)
    }

    /// The machine after the CPU has read `addr`: one cycle later, and after
    /// what the read does to the device behind `addr`.
    pub open spec fn after_read(self, addr: u16) -> Self {
        self.ticked().after_read_bus(addr)
    }

    pub fn read(&mut self, addr: u16) -> (r: u8)
        ensures
            r == old(self).read_value(addr),
            *final(self) == old(self).after_read(addr),
            old(self).only_clock_moved(*final(self)),
            old(self).spent(*final(self)) == 1,
    {
        self.tick();
        self.read_bus(addr)
    }

    /// The machine after `n` bytes of an OAM DMA from `start`: each byte is
    /// read (one cycle) and written to 0x2004 (one cycle).
    pub open spec fn after_dma_copy(self, start: u16, n: nat) -> Self
        decreases n,
    {
        if n == 0 {
            self
        } else {
            let prev = self.after_dma_copy(start, (n - 1) as nat);
            let a = wadd16(start, n - 1);
            prev.after_read_bus(a).ticked().after_write_bus(OAMDATA, prev.bus_value(a)).ticked()
        }
    }

    /// The machine after an OAM DMA from page `page`: 256 bytes copied, one
    /// idle cycle, and one more if the DMA started on an odd cycle.
    pub open spec fn after_dma(self, page: u8) -> Self {
        let copied = self.after_dma_copy((page * 0x100) as u16, 256).ticked();
        if self.cpu.cycles % 2 == 1 {
            copied.ticked()
        } else {
            copied
        }
    }

    /// The machine after the CPU has written `value` to `addr`: an OAM DMA
    /// for 0x4014; else one cycle later, and after what the write does to the
    /// device behind `addr`.
    pub open spec fn after_write(self, addr: u16, value: u8) -> Self {
        if addr == OAMDMA {
            self.after_dma(value)
        } else {
            self.ticked().after_write_bus(addr, value)
        }
    }

    pub fn write(&mut self, addr: u16, value: u8)
        ensures
            *final(self) == old(self).after_write(addr, value),
            old(self).only_clock_moved(*final(self)),
            old(self).spent(*final(self)) == old(self).write_cost(addr),
            0x4000 <= addr < 0x4020 && addr != OAMDMA ==> final(self).mapper == old(self).mapper
                && final(self).ppu == old(self).ppu && final(self).wram == old(self).wram,
    {
        if addr == OAMDMA {
            let odd = self.cpu.cycles % 2 == 1;
            let start: u16 = (value as u16) * 0x100;
            let ghost before = *self;
            let mut i: u16 = 0;
            while i < 256
                invariant
                    i <= 256,
                    start == value * 0x100,
                    *self == before.after_dma_copy(start, i as nat),
                    before.only_clock_moved(*self),
                    before.spent(*self) == 2 * i,
                decreases 256 - i,
            {
                let a = start.wrapping_add(i);
                let data = self.read_bus(a);
                self.tick();
                self.write_bus(OAMDATA, data);
                self.tick();
                i += 1;
            }
            // dummy cycles
            self.tick();
            if odd {
                self.tick();
            }
            return ;
        }
        self.tick();
        self.write_bus(addr, value);
    }

    /// The word that the CPU reads at `addr`: low byte first, the high byte
    /// from the address after (0x0000 after 0xFFFF).
    pub open spec fn word_value(&self, addr: u16) -> u16 {
        word_of(self.read_value(addr), self.after_read(addr).read_value(wadd16(addr, 1)))
    }

    pub open spec fn after_read_word(self, addr: u16) -> Self {
        self.after_read(addr).after_read(wadd16(addr, 1))
    }

    pub fn read_word(&mut self, addr: u16) -> (r: u16)
        ensures
            r == old(self).word_value(addr),
            *final(self) == old(self).after_read_word(addr),
            old(self).only_clock_moved(*final(self)),
            old(self).spent(*final(self)) == 2,
    {
        let low = self.read(addr);
        let high = self.read(addr.wrapping_add(1));
        make_word(low, high)
    }

    /// The word that the CPU reads at `addr` for an indirect operand: low byte
    /// first, the high byte from `indirect_high_addr(addr)`.
    pub open spec fn indirect_value(&self, addr: u16) -> u16 {
        word_of(self.read_value(addr), self.after_read(addr).read_value(indirect_high_addr(addr)))
    }

    pub open spec fn after_read_on_indirect(self, addr: u16) -> Self {
        self.after_read(addr).after_read(indirect_high_addr(addr))
    }

    pub fn read_on_indirect(&mut self, addr: u16) -> (r: u16)
        ensures
            r == old(self).indirect_value(addr),
            *final(self) == old(self).after_read_on_indirect(addr),
            old(self).only_clock_moved(*final(self)),
            old(self).spent(*final(self)) == 2,
    {
        let low = self.read(addr);
        let high = self.read((addr / 0x100) * 0x100 + (addr.wrapping_add(1)) % 0x100);
        make_word(low, high)
    }
}

} // verus!
