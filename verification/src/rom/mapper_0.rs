//! Mapper 0 (NROM): 16 or 32 KiB of PRG ROM and 8 KiB of CHR.

use vstd::prelude::*;
use vstd::array::spec_array_update;
use crate::data_unit::{Byte, Word};
use crate::rom::inesfile::{INESFile, MIRRORING_VERTICAL};
use crate::rom::{Mapper, Mirroring};

verus! {

pub const CHR_SIZE: usize = 0x2000;
pub const PRG_BANK: usize = 0x4000;

pub struct Mapper0 {
    pub prg: Vec<u8>,
    pub chr: [u8; 0x2000],
    /// Whether the cartridge has CHR RAM in place of CHR ROM.
    pub chr_ram: bool,
    pub mirroring: Mirroring,
    /// Whether the PRG ROM is one 16 KiB bank, seen twice.
    pub mirrored: bool,
}

/// Where in the PRG ROM the CPU address `addr` (from 0x8000 up) points.
pub open spec fn prg_index(mirrored: bool, addr: u16) -> int {
    if mirrored {
        (addr - 0x8000) % 0x4000
    } else {
        addr - 0x8000
    }
}

impl Mapper0 {
    /// Whether this mapper holds the PRG data `prg` and the CHR data `chr`
    /// (its first 8 KiB, zero beyond its end; CHR RAM where it is empty),
    /// under the mirroring that `flag6` names.
    pub open spec fn holds(&self, prg: Seq<u8>, chr: Seq<u8>, flag6: u8) -> bool {
        &&& self.prg@ == prg
        &&& forall|i: int|
            0 <= i < 0x2000 ==> self.chr[i] == (if i < chr.len() {
                chr[i]
            } else {
                0u8
            })
        &&& self.chr_ram == (chr.len() == 0)
        &&& self.mirroring == (if flag6 & MIRRORING_VERTICAL != 0 {
            Mirroring::Vertical
        } else {
            Mirroring::Horizontal
        })
        &&& self.mirrored == (prg.len() == 0x4000)
    }

    pub fn new(rom: INESFile) -> (r: Self)
        ensures
            r.holds(rom.prg_rom@, rom.chr_rom@, rom.flag6),
    {
        let mirroring = if rom.flag6 & MIRRORING_VERTICAL != 0 {
            Mirroring::Vertical
        } else {
            Mirroring::Horizontal
        };
        let mirrored = rom.prg_rom.len() == PRG_BANK;
        let chr_ram = rom.chr_rom.len() == 0;
        let mut chr = [0u8; 0x2000];
        let mut i: usize = 0;
        while i < CHR_SIZE && i < rom.chr_rom.len()
            invariant
                i <= CHR_SIZE,
                i <= rom.chr_rom.len(),
                forall|k: int| 0 <= k < i ==> chr[k] == rom.chr_rom[k],
                forall|k: int| i <= k < 0x2000 ==> chr[k] == 0,
            decreases CHR_SIZE - i,
        {
            chr[i] = rom.chr_rom[i];
            i += 1;
        }
        Mapper0 { prg: rom.prg_rom, chr, chr_ram, mirroring, mirrored }
    }

    pub fn prg_addr(&self, addr: u16) -> (r: usize)
        requires
            addr >= 0x8000,
        ensures
            r == prg_index(self.mirrored, addr),
    {
        if self.mirrored {
            ((addr - 0x8000) % 0x4000) as usize
        } else {
            (addr - 0x8000) as usize
        }
    }
}

impl Mapper for Mapper0 {
    /// CHR below 0x2000; PRG ROM from 0x8000 up, 0 beyond its end; 0 elsewhere.
    open spec fn peek(&self, addr: u16) -> u8 {
        if addr < 0x2000 {
            self.chr[addr as int]
        } else if addr >= 0x8000 {
            if prg_index(self.mirrored, addr) < self.prg.len() {
                self.prg[prg_index(self.mirrored, addr)]
            } else {
                0
            }
        } else {
            0
        }
    }

    open spec fn after_read(&self, addr: u16) -> Self {
        *self
    }

    /// A write below 0x2000 reaches CHR RAM, where there is any; every other
    /// write is lost.
    open spec fn after_write(&self, addr: u16, value: u8) -> Self {
        if addr < 0x2000 && self.chr_ram {
            Mapper0 { chr: spec_array_update(self.chr, addr as int, value), ..*self }
        } else {
            *self
        }
    }

    open spec fn mirroring_mode(&self) -> Mirroring {
        self.mirroring
    }

    fn read(&mut self, addr: Word) -> (r: Byte) {
        let a = addr.0;
        if a < 0x2000 {
            Byte(self.chr[a as usize])
        } else if a >= 0x8000 {
            let i = self.prg_addr(a);
            if i < self.prg.len() {
                Byte(self.prg[i])
            } else {
                Byte(0)
            }
        } else {
            Byte(0)
        }
    }

    fn write(&mut self, addr: Word, value: Byte) {
        let a = addr.0;
        if a < 0x2000 && self.chr_ram {
            self.chr[a as usize] = value.0;
        }
    }

    fn mirroring(&self) -> (r: Mirroring) {
        self.mirroring
    }
}

} // verus!
