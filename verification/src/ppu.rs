//! The picture unit: its state, its address space and its registers.

pub mod bg;
pub mod register;
pub mod spr;
pub mod vram_addr;

use vstd::prelude::*;
use vstd::array::{spec_array_fill_for_copy_type, spec_array_update};
use crate::controller::Controller;
use crate::data_unit::{has_flag, put_flag, Byte, Word};
use crate::nes::Nes;
use crate::ppu::bg::{BgPattern, BgPatternAttr};
use crate::interrupt::{Interrupt, NMI};
use crate::ppu::register::{Mask, Status, CTRL_NMI, CTRL_VRAM_ADDR_INCR, STATUS_VBLANK};
use crate::ppu::spr::{Oam, Sprite, BEHIND_BACKGROUND};
use crate::ppu::vram_addr::VramAddr;
use crate::rom::{Mapper, Mirroring};
use crate::scanline::{Scan, Scanline};

verus! {

/// The width of the picture, in pixels.
pub const WIDTH: usize = 256;
/// The height of the picture, in pixels.
pub const HEIGHT: usize = 240;
pub struct Ppu {
    /// PPUCTRL
    pub controller: register::Controller,
    /// PPUMASK
    pub mask: Mask,
    /// PPUSTATUS
    pub status: Status,
    /// OAMADDR
    pub oam_address: u8,
    /// OAMDATA
    pub oam: Oam,
    /// Fine X scroll, 3 bits.
    pub fine_x: u8,
    /// The current VRAM address.
    pub v: VramAddr,
    /// The temporary VRAM address.
    pub t: VramAddr,
    /// The PPUDATA read buffer.
    pub data: u8,
    /// Whether the next write to PPUSCROLL or PPUADDR is the second.
    pub write_toggle: bool,
    // http://wiki.nesdev.com/w/index.php/PPU_registers#Ports
    pub internal_data_bus: u8,
    pub name_table: [u8; 0x1000],
    pub pallete_ram_idx: [u8; 0x0020],
    // Background
    pub bg: BgPattern,
    pub bg_addr: u16,
    pub nt_latch: u8,
    pub at_latch: u8,
    pub bg_shift: BgPattern,
    pub at_shift: BgPatternAttr,
    // Sprites
    pub sprites: [Sprite; 8],
    /// Whether sprite 0 is among the sprites of the line being drawn.
    pub sprite_zero_on_line: bool,
    /// Whether sprite 0 is among the sprites found for the next line.
    pub sprite_zero_found: bool,
    pub mirroring: Mirroring,
    pub scan: Scan,
    /// The two frame buffers, 240 rows of 256 palette entries each.
    pub buffer_0: [u8; 61440],
    pub buffer_1: [u8; 61440],
    /// Which buffer the host reads, 0 or 1; the unit draws into the other.
    pub buffer_index: u8,
}

/// Where the name table address `base` lies in the name table memory:
/// vertical mirroring folds it modulo 0x0800; horizontal mirroring maps the
/// first pair of tables to the first KiB and the second pair to the second.
pub open spec fn name_table_index(base: u16, mirroring: Mirroring) -> int {
    match mirroring {
        Mirroring::Vertical => base as int % 0x0800,
        Mirroring::Horizontal => ((base as int % 0x1000) / 0x0800) * 0x0400 + base as int % 0x0400,
    }
}

pub fn to_name_table_addr(base: u16, mirroring: &Mirroring) -> (r: usize)
    ensures
        r == name_table_index(base, *mirroring),
        r < 0x0800,
{
    match mirroring {
        Mirroring::Vertical => (base % 0x0800) as usize,
        Mirroring::Horizontal => (((base % 0x1000) / 0x0800) * 0x0400 + base % 0x0400) as usize,
    }
}

/// Where the palette address `base` lies in the palette memory: modulo 32,
/// with entries 0x10, 0x14, 0x18 and 0x1C standing for 0x00, 0x04, 0x08 and
/// 0x0C.
// http://wiki.nesdev.com/w/index.php/PPU_palettes#Memory_Map
pub open spec fn pallete_index(base: u16) -> int {
    let addr = base as int % 32;
    if addr >= 16 && addr % 4 == 0 {
        addr - 16
    } else {
        addr
    }
}

pub fn to_pallete_addr(base: u16) -> (r: usize)
    ensures
        r == pallete_index(base),
        r < 32,
{
    let addr = base % 32;
    if addr >= 16 && addr % 4 == 0 {
        (addr - 16) as usize
    } else {
        addr as usize
    }
}

impl Ppu {
    pub open spec fn power_up() -> Self {
        Ppu {
            controller: register::Controller { bits: 0 },
            mask: Mask { bits: 0 },
            status: Status { bits: 0 },
            oam_address: 0,
            oam: Oam::power_up(),
            fine_x: 0,
            v: VramAddr(0),
            t: VramAddr(0),
            data: 0,
            write_toggle: false,
            internal_data_bus: 0,
            name_table: spec_array_fill_for_copy_type::<u8, 0x1000>(0u8),
            pallete_ram_idx: spec_array_fill_for_copy_type::<u8, 0x0020>(0u8),
            bg: BgPattern { low: 0, high: 0 },
            bg_addr: 0,
            nt_latch: 0,
            at_latch: 0,
            bg_shift: BgPattern { low: 0, high: 0 },
            at_shift: BgPatternAttr { low: 0, high: 0, low_latch: false, high_latch: false },
            sprites: spec_array_fill_for_copy_type::<Sprite, 8>(Sprite::none()),
            sprite_zero_on_line: false,
            sprite_zero_found: false,
            mirroring: Mirroring::Vertical,
            scan: Scan { dot: 0, line: 0, frames: 0 },
            buffer_0: spec_array_fill_for_copy_type::<u8, 61440>(0u8),
            buffer_1: spec_array_fill_for_copy_type::<u8, 61440>(0u8),
            buffer_index: 0,
        }
    }

    pub fn new() -> (r: Self)
        ensures
            r == Self::power_up(),
    {
        Ppu {
            controller: register::Controller { bits: 0 },
            mask: Mask { bits: 0 },
            status: Status { bits: 0 },
            oam_address: 0,
            oam: Oam::new(),
            fine_x: 0,
            v: VramAddr(0),
            t: VramAddr(0),
            data: 0,
            write_toggle: false,
            internal_data_bus: 0,
            name_table: [0u8; 0x1000],
            pallete_ram_idx: [0u8; 0x0020],
            bg: BgPattern { low: 0, high: 0 },
            bg_addr: 0,
            nt_latch: 0,
            at_latch: 0,
            bg_shift: BgPattern { low: 0, high: 0 },
            at_shift: BgPatternAttr { low: 0, high: 0, low_latch: false, high_latch: false },
            sprites: [Sprite { y: 0xFF, tile_index: 0xFF, attr: 0xFF, x: 0xFF, low: 0, high: 0 }; 8],
            sprite_zero_on_line: false,
            sprite_zero_found: false,
            mirroring: Mirroring::Vertical,
            scan: Scan::new(),
            buffer_0: [0u8; 61440],
            buffer_1: [0u8; 61440],
            buffer_index: 0,
        }
    }

    /// The unit as power-on leaves it: registers, scroll, read buffer and
    /// write toggle cleared, name tables and palette zeroed, the scan counter
    /// at the first dot of frame 0.
    // https://wiki.nesdev.com/w/index.php/PPU_power_up_state
    pub open spec fn after_power_on(self) -> Self {
        Ppu {
            controller: register::Controller { bits: 0 },
            mask: Mask { bits: 0 },
            status: Status { bits: 0 },
            fine_x: 0,
            v: VramAddr(0),
            t: VramAddr(0),
            data: 0,
            write_toggle: false,
            name_table: spec_array_fill_for_copy_type::<u8, 0x1000>(0u8),
            pallete_ram_idx: spec_array_fill_for_copy_type::<u8, 0x0020>(0u8),
            scan: Scan { dot: 0, line: 0, frames: 0 },
            ..self
        }
    }

    pub fn power_on(&mut self)
        ensures
            *final(self) == old(self).after_power_on(),
    {
        self.controller = register::Controller { bits: 0 };
        self.mask = Mask { bits: 0 };
        self.status = Status { bits: 0 };
        self.fine_x = 0;
        self.v = VramAddr(0);
        self.t = VramAddr(0);
        self.data = 0;
        self.write_toggle = false;
        self.name_table = [0u8; 0x1000];
        self.pallete_ram_idx = [0u8; 0x0020];
        self.scan = Scan { dot: 0, line: 0, frames: 0 };
    }

    /// The unit as a reset leaves it: registers, fine X, read buffer and write
    /// toggle cleared, the scan counter at the first dot of frame 0; the VRAM
    /// addresses and the memories are kept.
    pub open spec fn after_reset(self) -> Self {
        Ppu {
            controller: register::Controller { bits: 0 },
            mask: Mask { bits: 0 },
            status: Status { bits: 0 },
            fine_x: 0,
            data: 0,
            write_toggle: false,
            scan: Scan { dot: 0, line: 0, frames: 0 },
            ..self
        }
    }

    pub fn reset(&mut self)
        ensures
            *final(self) == old(self).after_reset(),
    {
        self.controller = register::Controller { bits: 0 };
        self.mask = Mask { bits: 0 };
        self.status = Status { bits: 0 };
        self.fine_x = 0;
        self.data = 0;
        self.write_toggle = false;
        self.scan = Scan { dot: 0, line: 0, frames: 0 };
    }

    /// The height of a sprite: 16 or 8.
    pub fn sprite_size(&self) -> (r: u8)
        ensures
            r == self.controller.spec_sprite_height(),
    {
        if self.controller.contains(register::CTRL_SPRITE_SIZE) {
            16
        } else {
            8
        }
    }

    /// A write to 0x2000: sets PPUCTRL and copies its bits 0 and 1 into the
    /// name table select of `t`.
    // http://wiki.nesdev.com/w/index.php/PPU_scrolling#.242000_write
    pub open spec fn after_write_controller(self, value: u8) -> Self {
        Ppu {
            controller: register::Controller { bits: value },
            // t: ...BA.. ........ = d: ......BA
            t: VramAddr((self.t.0 & !0x0C00u16) | (((value & 0b11) as u16) << 10)),
            ..self
        }
    }

    pub fn write_controller(&mut self, value: u8)
        ensures
            *final(self) == old(self).after_write_controller(value),
    {
        self.controller = register::Controller::from_bits_truncate(value);
        self.t = VramAddr((self.t.0 & !0x0C00u16) | (self.controller.name_table_select() << 10));
    }

    /// Gives the status bits, then clears VBLANK and the write toggle.
    // http://wiki.nesdev.com/w/index.php/PPU_scrolling#.242002_read
    pub fn read_status(&mut self) -> (r: Byte)
        ensures
            r.0 == old(self).status.bits,
            *final(self) == (Ppu {
                status: Status { bits: put_flag(old(self).status.bits, STATUS_VBLANK, false) },
                write_toggle: false,
                ..*old(self)
            }),
    {
        let s = self.status;
        self.status.remove(STATUS_VBLANK);
        self.write_toggle = false;
        Byte(s.bits)
    }

    /// A write to 0x2005. The first sets coarse X of `t` and fine X; the
    /// second sets coarse Y and fine Y of `t`.
    // http://wiki.nesdev.com/w/index.php/PPU_scrolling#.242005_first_write_.28w_is_0.29
    // http://wiki.nesdev.com/w/index.php/PPU_scrolling#.242005_second_write_.28w_is_1.29
    pub open spec fn after_write_scroll(self, p: u8) -> Self {
        if !self.write_toggle {
            // t: ....... ...HGFED = d: HGFED...
            // x:              CBA = d: .....CBA
            Ppu {
                t: VramAddr((self.t.0 & !0x001Fu16) | ((p as u16 & 0b11111000) >> 3)),
                fine_x: p & 0b111,
                write_toggle: true,
                ..self
            }
        } else {
            // t: CBA..HG FED..... = d: HGFEDCBA
            Ppu {
                t: VramAddr(
                    (self.t.0 & !0x73E0u16) | ((p as u16 & 0b111) << 12) | ((p as u16
                        & 0b11111000) << 2),
                ),
                write_toggle: false,
                ..self
            }
        }
    }

    pub fn write_scroll(&mut self, position: u8)
        ensures
            *final(self) == old(self).after_write_scroll(position),
    {
        let p = position;
        if !self.write_toggle {
            self.t = VramAddr((self.t.0 & !0x001Fu16) | ((p as u16 & 0b11111000) >> 3));
            self.fine_x = p & 0b111;
            self.write_toggle = true;
        } else {
            self.t = VramAddr(
                (self.t.0 & !0x73E0u16) | ((p as u16 & 0b111) << 12) | ((p as u16 & 0b11111000)
                    << 2),
            );
            self.write_toggle = false
        }
    }

    /// A write to 0x2006. The first sets bits 8 to 13 of `t` and clears bit
    /// 14; the second sets the low 8 bits of `t` and copies `t` to `v`.
    // http://wiki.nesdev.com/w/index.php/PPU_scrolling#.242006_first_write_.28w_is_0.29
    // http://wiki.nesdev.com/w/index.php/PPU_scrolling#.242006_second_write_.28w_is_1.29
    pub open spec fn after_write_vram_address(self, d: u8) -> Self {
        if !self.write_toggle {
            // t: .FEDCBA ........ = d: ..FEDCBA
            // t: X...... ........ = 0
            Ppu {
                t: VramAddr((self.t.0 & 0x00FFu16) | ((d as u16 & 0b111111) << 8)),
                write_toggle: true,
                ..self
            }
        } else {
            // t: ....... HGFEDCBA = d: HGFEDCBA
            // v                   = t
            Ppu {
                t: VramAddr((self.t.0 & 0xFF00u16) | d as u16),
                v: VramAddr((self.t.0 & 0xFF00u16) | d as u16),
                write_toggle: false,
                ..self
            }
        }
    }

    pub fn write_vram_address(&mut self, addr: u8)
        ensures
            *final(self) == old(self).after_write_vram_address(addr),
    {
        let d = addr;
        if !self.write_toggle {
            self.t = VramAddr((self.t.0 & 0x00FFu16) | ((d as u16 & 0b111111) << 8));
            self.write_toggle = true
        } else {
            self.t = VramAddr((self.t.0 & 0xFF00u16) | d as u16);
            self.v = self.t;
            self.write_toggle = false
        }
    }

    /// `v` after an access to PPUDATA: 32 further if PPUCTRL says so, else 1,
    /// within 15 bits.
    pub open spec fn after_incr_v(self) -> Self {
        Ppu {
            v: VramAddr(
                self.v.0.wrapping_add(
                    if has_flag(self.controller.bits, CTRL_VRAM_ADDR_INCR) {
                        32u16
                    } else {
                        1u16
                    },
                ) & 0x7FFF,
            ),
            ..self
        }
    }

    pub fn incr_v(&mut self)
        ensures
            *final(self) == old(self).after_incr_v(),
    {
        let step: u16 = if self.controller.contains(CTRL_VRAM_ADDR_INCR) {
            32
        } else {
            1
        };
        self.v = VramAddr(self.v.0.wrapping_add(step) & 0x7FFF);
    }
}

/// Two writes to 0x2006, starting with the write toggle clear, leave in `v`
/// the low six bits of the first byte over the second byte: bits 14 and 15
/// are clear.
pub proof fn law_vram_address_writes(ppu: Ppu, first: u8, second: u8)
    requires
        !ppu.write_toggle,
    ensures
        ppu.after_write_vram_address(first).after_write_vram_address(second).v.0 == (((
        first as u16) & 0x3F) << 8) | (second as u16),
        ppu.after_write_vram_address(first).after_write_vram_address(second).v.0 < 0x4000,
        !ppu.after_write_vram_address(first).after_write_vram_address(second).write_toggle,
{
    let t = ppu.t.0;
    let f = first as u16;
    let d = second as u16;
    assert((((t & 0x00FFu16) | ((f & 0b111111) << 8)) & 0xFF00u16) | d == ((f & 0x3F) << 8) | d)
        by (bit_vector)
        requires
            d < 0x100,
    ;
    assert((((f & 0x3F) << 8) | d) < 0x4000) by (bit_vector)
        requires
            d < 0x100,
    ;
}

// The picture unit's address space.
impl<M: Mapper, C: Controller> Nes<M, C> {
    /// The byte at `addr` of the picture unit's address space: the cartridge
    /// below 0x2000, the name tables up to 0x3EFF (0x3000 up mirrors 0x2000
    /// up), the palette up to 0x3FFF, 0 beyond.
    pub open spec fn ppu_peek(&self, addr: u16) -> u8 {
        if addr < 0x2000 {
            self.mapper.peek(addr)
        } else if addr < 0x3000 {
            self.ppu.name_table[name_table_index(addr, self.ppu.mirroring)]
        } else if addr < 0x3F00 {
            self.ppu.name_table[name_table_index((addr - 0x1000) as u16, self.ppu.mirroring)]
        } else if addr < 0x4000 {
            self.ppu.pallete_ram_idx[pallete_index(addr)]
        } else {
            0
        }
    }

    /// The machine after the picture unit has read `addr`: only a read of the
    /// cartridge can change anything.
    pub open spec fn after_read_ppu(self, addr: u16) -> Self {
        if addr < 0x2000 {
            Nes { mapper: self.mapper.after_read(addr), ..self }
        } else {
            self
        }
    }

    /// The palette entries 0x10, 0x14, 0x18 and 0x1C are the entries 0x00,
    /// 0x04, 0x08 and 0x0C: a read of one gives what a read of the other
    /// gives, throughout the palette's mirrors.
    pub proof fn law_palette_mirror(&self, addr: u16)
        requires
            0x3F00 <= addr < 0x4000,
            addr % 32 == 16 || addr % 32 == 20 || addr % 32 == 24 || addr % 32 == 28,
        ensures
            self.ppu_peek(addr) == self.ppu_peek((addr - 16) as u16),
            self.ppu_peek(0x3F10) == self.ppu_peek(0x3F00),
            self.ppu_peek(0x3F14) == self.ppu_peek(0x3F04),
            self.ppu_peek(0x3F18) == self.ppu_peek(0x3F08),
            self.ppu_peek(0x3F1C) == self.ppu_peek(0x3F0C),
    {
    }

    pub fn read_ppu(&mut self, addr: u16) -> (r: u8)
        ensures
            r == old(self).ppu_peek(addr),
            *final(self) == old(self).after_read_ppu(addr),
    {
        match addr {
            0x0000..=0x1FFF => self.mapper.read(Word(addr)).0,
            0x2000..=0x2FFF => self.ppu.name_table[to_name_table_addr(addr, &self.ppu.mirroring)],
            0x3000..=0x3EFF => self.ppu.name_table[to_name_table_addr(
                addr - 0x1000,
                &self.ppu.mirroring,
            )],
            0x3F00..=0x3FFF => self.ppu.pallete_ram_idx[to_pallete_addr(addr)],
            _ => 0,
        }
    }

    /// The machine after the picture unit has written `value` to `addr`.
    pub open spec fn after_write_ppu(self, addr: u16, value: u8) -> Self {
        if addr < 0x2000 {
            Nes { mapper: self.mapper.after_write(addr, value), ..self }
        } else if addr < 0x3000 {
            Nes {
                ppu: Ppu {
                    name_table: spec_array_update(
                        self.ppu.name_table,
                        name_table_index(addr, self.ppu.mirroring),
                        value,
                    ),
                    ..self.ppu
                },
                ..self
            }
        } else if addr < 0x3F00 {
            Nes {
                ppu: Ppu {
                    name_table: spec_array_update(
                        self.ppu.name_table,
                        name_table_index((addr - 0x1000) as u16, self.ppu.mirroring),
                        value,
                    ),
                    ..self.ppu
                },
                ..self
            }
        } else if addr < 0x4000 {
            Nes {
                ppu: Ppu {
                    pallete_ram_idx: spec_array_update(
                        self.ppu.pallete_ram_idx,
                        pallete_index(addr),
                        value,
                    ),
                    ..self.ppu
                },
                ..self
            }
        } else {
            self
        }
    }

    pub fn write_ppu(&mut self, addr: u16, value: u8)
        ensures
            *final(self) == old(self).after_write_ppu(addr, value),
    {
        match addr {
            0x0000..=0x1FFF => self.mapper.write(Word(addr), Byte(value)),
            0x2000..=0x2FFF => {
                let i = to_name_table_addr(addr, &self.ppu.mirroring);
                self.ppu.name_table[i] = value;
            },
            0x3000..=0x3EFF => {
                let i = to_name_table_addr(addr - 0x1000, &self.ppu.mirroring);
                self.ppu.name_table[i] = value;
            },
            0x3F00..=0x3FFF => {
                let i = to_pallete_addr(addr);
                self.ppu.pallete_ram_idx[i] = value;
            },
            _ => {},
        }
    }
}

// Register access from the CPU bus.
impl<M: Mapper, C: Controller> Nes<M, C> {
    /// What a read of the register `addr` (0x2000 to 0x2007) gives.
    /// - 0x2002: the status bits over the low five bits of the data bus; bit 7
    ///   reads clear on line 241 at dots 0 and 1.
    /// - 0x2004: the OAM byte under OAMADDR; 0xFF on a visible line during
    ///   dots 1 to 64.
    /// - 0x2007: the read buffer for addresses up to 0x3EFF, else the byte at
    ///   `v`.
    /// - any other register: 0.
    pub open spec fn ppu_register_value(&self, addr: u16) -> u8 {
        if addr == 0x2002 {
            let result = self.ppu.status.bits | (self.ppu.internal_data_bus & 0b11111);
            if self.ppu.scan.line == 241 && self.ppu.scan.dot < 2 {
                result & !0x80u8
            } else {
                result
            }
        } else if addr == 0x2004 {
            if self.ppu.scan.line < 240 && 1 <= self.ppu.scan.dot && self.ppu.scan.dot <= 64 {
                0xFF
            } else {
                self.ppu.oam.primary[self.ppu.oam_address as int]
            }
        } else if addr == 0x2007 {
            if self.ppu.v.0 <= 0x3EFF {
                self.ppu.data
            } else {
                self.ppu_peek(self.ppu.v.0)
            }
        } else {
            0
        }
    }

    /// The machine after a read of the register `addr`: the value read stays
    /// on the data bus; a read of 0x2002 clears VBLANK and the write toggle; a
    /// read of 0x2007 reads memory at `v` (into the read buffer, up to 0x3EFF)
    /// and steps `v`.
    pub open spec fn after_read_ppu_register(self, addr: u16) -> Self {
        let result = self.ppu_register_value(addr);
        let touched = if addr == 0x2002 {
            Nes {
                ppu: Ppu {
                    status: Status { bits: put_flag(self.ppu.status.bits, STATUS_VBLANK, false) },
                    write_toggle: false,
                    ..self.ppu
                },
                ..self
            }
        } else if addr == 0x2007 {
            let read = self.after_read_ppu(self.ppu.v.0);
            let kept = if self.ppu.v.0 <= 0x3EFF {
                Nes { ppu: Ppu { data: self.ppu_peek(self.ppu.v.0), ..read.ppu }, ..read }
            } else {
                read
            };
            Nes { ppu: kept.ppu.after_incr_v(), ..kept }
        } else {
            self
        };
        Nes { ppu: Ppu { internal_data_bus: result, ..touched.ppu }, ..touched }
    }

    pub fn read_ppu_register(&mut self, addr: u16) -> (r: Byte)
        ensures
            r.0 == old(self).ppu_register_value(addr),
            *final(self) == old(self).after_read_ppu_register(addr),
    {
        let result: u8 = match addr {
            0x2002 => {
                let result = self.ppu.read_status().0 | (self.ppu.internal_data_bus & 0b11111);
                if self.ppu.scan.line == 241 && self.ppu.scan.dot < 2 {
                    result & !0x80u8
                } else {
                    result
                }
            },
            0x2004 => {
                // https://wiki.nesdev.com/w/index.php/PPU_sprite_evaluation
                if self.ppu.scan.line < 240 && 1 <= self.ppu.scan.dot && self.ppu.scan.dot <= 64 {
                    // during sprite evaluation
                    0xFF
                } else {
                    self.ppu.oam.primary[self.ppu.oam_address as usize]
                }
            },
            0x2007 => {
                let v: u16 = self.ppu.v.0;
                let result = if v <= 0x3EFF {
                    let data = self.ppu.data;
                    let fetched = self.read_ppu(v);
                    self.ppu.data = fetched;
                    data
                } else {
                    self.read_ppu(v)
                };
                self.ppu.incr_v();
                result
            },
            _ => 0,
        };
        self.ppu.internal_data_bus = result;
        Byte(result)
    }

    /// The machine after `value` was written to the register `addr` (0x2000
    /// to 0x2007; 0x2002 is read-only).
    pub open spec fn after_write_ppu_register(self, addr: u16, value: u8) -> Self {
        if addr == 0x2000 {
            Nes { ppu: self.ppu.after_write_controller(value), ..self }
        } else if addr == 0x2001 {
            Nes { ppu: Ppu { mask: Mask { bits: value }, ..self.ppu }, ..self }
        } else if addr == 0x2003 {
            Nes { ppu: Ppu { oam_address: value, ..self.ppu }, ..self }
        } else if addr == 0x2004 {
            Nes {
                ppu: Ppu {
                    oam: Oam {
                        primary: spec_array_update(
                            self.ppu.oam.primary,
                            self.ppu.oam_address as int,
                            value,
                        ),
                        ..self.ppu.oam
                    },
                    oam_address: self.ppu.oam_address.wrapping_add(1),
                    ..self.ppu
                },
                ..self
            }
        } else if addr == 0x2005 {
            Nes { ppu: self.ppu.after_write_scroll(value), ..self }
        } else if addr == 0x2006 {
            Nes { ppu: self.ppu.after_write_vram_address(value), ..self }
        } else if addr == 0x2007 {
            let written = self.after_write_ppu(self.ppu.v.0, value);
            Nes { ppu: written.ppu.after_incr_v(), ..written }
        } else {
            self
        }
    }

    pub fn write_ppu_register(&mut self, addr: u16, value: Byte)
        ensures
            *final(self) == old(self).after_write_ppu_register(addr, value.0),
    {
        match addr {
            0x2000 => self.ppu.write_controller(value.0),
            0x2001 => self.ppu.mask = Mask::from_bits_truncate(value.0),
            0x2003 => self.ppu.oam_address = value.0,
            0x2004 => {
                self.ppu.oam.primary[self.ppu.oam_address as usize] = value.0;
                self.ppu.oam_address = self.ppu.oam_address.wrapping_add(1);
            },
            0x2005 => self.ppu.write_scroll(value.0),
            0x2006 => self.ppu.write_vram_address(value.0),
            0x2007 => {
                let v = self.ppu.v.0;
                self.write_ppu(v, value.0);
                self.ppu.incr_v();
            },
            _ => {},
        }
    }
}

/// The first address of the palette.
pub const PALETTE_FIRST: u16 = 0x3F00;

// Pixels and frame buffers.
impl<M: Mapper, C: Controller> Nes<M, C> {
    /// The palette entry that column `x` shows: entry 0 where background and
    /// sprite are both transparent; the background entry where only the
    /// background shows, or both show and the sprite is behind; else the
    /// sprite entry, `16 + 4 * palette + pixel`.
    pub open spec fn palette_entry(&self, x: u16) -> u16 {
        let bg = self.background_pixel(x);
        let spr = self.sprite_pixel(x).0;
        let attr = self.sprite_pixel(x).1;
        let sprite_entry = (16 + (attr % 4) * 4 + spr % 4) as u16;
        if bg == 0 && spr == 0 {
            0
        } else if bg == 0 {
            sprite_entry
        } else if spr == 0 {
            bg % 32
        } else if has_flag(attr, BEHIND_BACKGROUND) {
            bg % 32
        } else {
            sprite_entry
        }
    }

    /// The machine with `color` at column `x` of row `y` of the back buffer.
    pub open spec fn with_pixel(self, x: u16, y: u16, color: u8) -> Self {
        if self.ppu.buffer_index == 0 {
            Nes {
                ppu: Ppu {
                    buffer_1: spec_array_update(self.ppu.buffer_1, y * WIDTH + x, color),
                    ..self.ppu
                },
                ..self
            }
        } else {
            Nes {
                ppu: Ppu {
                    buffer_0: spec_array_update(self.ppu.buffer_0, y * WIDTH + x, color),
                    ..self.ppu
                },
                ..self
            }
        }
    }

    pub fn write_buffer(&mut self, x: u16, y: u16, color: u8)
        requires
            x < WIDTH,
            y < HEIGHT,
        ensures
            *final(self) == old(self).with_pixel(x, y, color),
    {
        let i = (y as usize) * WIDTH + (x as usize);
        if self.ppu.buffer_index == 0 {
            self.ppu.buffer_1[i] = color;
        } else {
            self.ppu.buffer_0[i] = color;
        }
    }

    /// Makes the buffer that was drawn into the one that the host reads.
    pub fn swap_buffers(&mut self)
        ensures
            *final(self) == old(self).swapped(),
    {
        self.ppu.buffer_index = if self.ppu.buffer_index == 0 {
            1
        } else {
            0
        };
    }

    pub open spec fn swapped(self) -> Self {
        Nes {
            ppu: Ppu {
                buffer_index: if self.ppu.buffer_index == 0 {
                    1
                } else {
                    0
                },
                ..self.ppu
            },
            ..self
        }
    }

    /// The machine with the sprite 0 hit raised if drawing column `x` raises
    /// it.
    pub open spec fn with_hit(self, x: u16) -> Self {
        if self.sprite_zero_hits(x, self.background_pixel(x)) {
            Nes {
                ppu: Ppu {
                    status: Status {
                        bits: put_flag(
                            self.ppu.status.bits,
                            register::STATUS_SPRITE_ZERO_HIT,
                            true,
                        ),
                    },
                    ..self.ppu
                },
                ..self
            }
        } else {
            self
        }
    }

    /// The machine after the pixel of this dot of a visible line was drawn:
    /// dots 2 to 257 draw columns 0 to 255; the colour is the palette byte
    /// under the column's palette entry.
    #[verifier::opaque]
    pub open spec fn after_render_pixel(self) -> Self {
        let dot = self.ppu.scan.dot;
        if 2 <= dot <= 257 {
            let x = (dot - 2) as u16;
            let entry = self.palette_entry(x);
            self.with_hit(x).with_pixel(
                x,
                self.ppu.scan.line,
                self.with_hit(x).ppu_peek((PALETTE_FIRST + entry) as u16),
            )
        } else {
            self
        }
    }

    pub fn render_pixel(&mut self)
        requires
            old(self).ppu.scan.line < HEIGHT,
        ensures
            *final(self) == old(self).after_render_pixel(),
            final(self).ppu.scan == old(self).ppu.scan,
            final(self).ppu.mask == old(self).ppu.mask,
            final(self).interrupt == old(self).interrupt,
            final(self).cpu == old(self).cpu,
    {
        reveal(Nes::after_render_pixel);
        let dot = self.ppu.scan.dot;
        if dot < 2 || 257 < dot {
            return ;
        }
        let x = dot - 2;
        let bg_addr = self.render_background_pixel(x);
        let (sprite_addr, attr) = self.render_sprite(x, bg_addr);
        let sprite_entry = 16 + (attr as u16 % 4) * 4 + sprite_addr % 4;
        let entry = match (0 < bg_addr, 0 < sprite_addr) {
            (false, false) => 0,
            (false, true) => sprite_entry,
            (true, false) => bg_addr % 32,
            (true, true) => {
                if crate::data_unit::flag_is_set(attr, BEHIND_BACKGROUND) {
                    bg_addr % 32
                } else {
                    sprite_entry
                }
            },
        };
        let pixel = self.read_ppu(PALETTE_FIRST + entry);
        self.write_buffer(x, self.ppu.scan.line, pixel);
    }

    /// The machine with the vertical blank begun: VBLANK set, and NMI latched
    /// if PPUCTRL asks for it.
    pub open spec fn with_vblank(self) -> Self {
        Nes {
            ppu: Ppu {
                status: Status { bits: put_flag(self.ppu.status.bits, STATUS_VBLANK, true) },
                ..self.ppu
            },
            interrupt: if has_flag(self.ppu.controller.bits, CTRL_NMI) {
                Interrupt { bits: put_flag(self.interrupt.bits, NMI, true) }
            } else {
                self.interrupt
            },
            ..self
        }
    }

    /// The machine after the picture unit has worked one dot.
    /// - Lines 0 to 239: sprites, background, pixel.
    /// - Lines 240 to 260: idle, but that dot 1 of line 241 begins the
    ///   vertical blank, and the last dot of line 260 swaps the frame buffers.
    /// - Line 261: sprites, background.
    /// Then the scan counter moves on.
    pub open spec fn after_ppu_step(self) -> Self {
        let scan = self.ppu.scan;
        let drawn = match Scanline::spec_from(scan.line) {
            Scanline::Pre => self.after_process_sprites().after_process_background(
                Scanline::Pre,
            ),
            Scanline::Visible => self.after_process_sprites().after_process_background(
                Scanline::Visible,
            ).after_render_pixel(),
            Scanline::Post { nmi: false } => if scan.line == 260 && scan.dot == 340 {
                self.swapped()
            } else {
                self
            },
            Scanline::Post { nmi: true } => if scan.dot == 1 {
                self.with_vblank()
            } else {
                self
            },
        };
        Nes {
            ppu: Ppu { scan: scan.after_dot(self.ppu.mask.spec_render_enabled()), ..drawn.ppu },
            ..drawn
        }
    }
}

/// Works one dot.
pub fn step<M: Mapper, C: Controller>(nes: &mut Nes<M, C>)
    requires
        old(nes).ppu.scan.wf(),
    ensures
        *final(nes) == old(nes).after_ppu_step(),
        final(nes).ppu.scan == old(nes).ppu.scan.after_dot(
            old(nes).ppu.mask.spec_render_enabled(),
        ),
        final(nes).ppu.scan.wf(),
        final(nes).ppu.mask == old(nes).ppu.mask,
        final(nes).cpu == old(nes).cpu,
{
    let render = nes.ppu.mask.render_enabled();
    let scanline = Scanline::from(nes.ppu.scan.line);
    match scanline {
        Scanline::Pre => {
            nes.process_sprites();
            nes.process_background(scanline);
        },
        Scanline::Visible => {
            nes.process_sprites();
            nes.process_background(scanline);
            nes.render_pixel();
        },
        Scanline::Post { nmi: false } => {
            if nes.ppu.scan.line == 260 && nes.ppu.scan.dot == 340 {
                nes.swap_buffers();
            }
        },
        Scanline::Post { nmi: true } => {
            if nes.ppu.scan.dot == 1 {
                // Begin VBLANK
                nes.ppu.status.insert(STATUS_VBLANK);
                if nes.ppu.controller.contains(CTRL_NMI) {
                    nes.interrupt.insert(NMI);
                }
            }
        },
    }
    nes.ppu.scan.advance(render);
}

} // verus!
