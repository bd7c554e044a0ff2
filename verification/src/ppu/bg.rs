//! The background pipeline: latches, shift registers and scroll updates.

use vstd::prelude::*;
use crate::controller::Controller;
use crate::data_unit::{has_flag, put_flag};
use crate::nes::Nes;
use crate::ppu::register::{
    Status, MASK_BACKGROUND, MASK_BACKGROUND_LEFT, };
use crate::ppu::vram_addr::{
    attribute_index_of, coarse_x_of, coarse_y_of, fine_y_of, name_table_index_of, VramAddr,
    ATTR_TABLE_FIRST, NAME_TABLE_FIRST,
};
use crate::ppu::Ppu;
use crate::rom::Mapper;
use crate::scanline::Scanline;

verus! {

/// Two pattern planes: as latches, the low 8 bits hold the next tile's row;
/// as shift registers, bit 15 is the pixel about to be drawn.
#[derive(Clone, Copy, Debug, PartialEq, Eq, Structural)]
pub struct BgPattern {
    pub low: u16,
    pub high: u16,
}

/// The attribute shift registers and the latches that feed them.
#[derive(Clone, Copy, Debug, PartialEq, Eq, Structural)]
pub struct BgPatternAttr {
    pub low: u8,
    pub high: u8,
    pub low_latch: bool,
    pub high_latch: bool,
}

/// `v` with coarse X one further: from 31 it wraps to 0 and switches the
/// horizontal name table.
// http://wiki.nesdev.com/w/index.php/PPU_scrolling#Coarse_X_increment
pub open spec fn with_coarse_x_incremented(v: u16) -> u16 {
    if coarse_x_of(v) == 31 {
        (v & !0x001Fu16) ^ 0x0400
    } else {
        v.wrapping_add(1)
    }
}

/// `v` with fine Y one further: from 7 it wraps to 0 and carries into coarse
/// Y, which wraps from 29 to 0 switching the vertical name table, and from 31
/// to 0 without switching.
// https://wiki.nesdev.com/w/index.php?title=PPU_scrolling#Y_increment
pub open spec fn with_y_incremented(v: u16) -> u16 {
    if fine_y_of(v) < 7 {
        v.wrapping_add(0x1000)
    } else {
        let cleared = v & !0x7000u16;
        let y = coarse_y_of(cleared);
        if y == 29 {
            ((cleared ^ 0x0800) & !0x03E0u16) | (0u16 << 5)
        } else if y == 31 {
            (cleared & !0x03E0u16) | (0u16 << 5)
        } else {
            (cleared & !0x03E0u16) | (((y + 1) as u16) << 5)
        }
    }
}

/// `v` with the horizontal bits of `t`.
// http://wiki.nesdev.com/w/index.php/PPU_scrolling#At_dot_257_of_each_scanline
pub open spec fn with_x_copied(v: u16, t: u16) -> u16 {
    // v: ....F.. ...EDCBA = t: ....F.. ...EDCBA
    (v & !0x041Fu16) | (t & 0x041F)
}

/// `v` with the vertical bits of `t`.
// http://wiki.nesdev.com/w/index.php/PPU_scrolling#During_dots_280_to_304_of_the_pre-render_scanline_.28end_of_vblank.29
pub open spec fn with_y_copied(v: u16, t: u16) -> u16 {
    // v: IHGF.ED CBA..... = t: IHGF.ED CBA.....
    (v & !0x7BE0u16) | (t & 0x7BE0)
}

impl Ppu {
    /// One shift of the background registers: the pattern planes move left by
    /// one bit, the attribute planes move left and take their latch in bit 0.
    pub open spec fn after_background_shift(self) -> Self {
        Ppu {
            bg_shift: BgPattern { low: self.bg_shift.low << 1, high: self.bg_shift.high << 1 },
            at_shift: BgPatternAttr {
                low: (self.at_shift.low << 1) | (if self.at_shift.low_latch {
                    1u8
                } else {
                    0u8
                }),
                high: (self.at_shift.high << 1) | (if self.at_shift.high_latch {
                    1u8
                } else {
                    0u8
                }),
                ..self.at_shift
            },
            ..self
        }
    }

    pub fn background_shift(&mut self)
        ensures
            *final(self) == old(self).after_background_shift(),
    {
        self.bg_shift.low = self.bg_shift.low << 1;
        self.bg_shift.high = self.bg_shift.high << 1;
        self.at_shift.low = (self.at_shift.low << 1) | if self.at_shift.low_latch {
            1
        } else {
            0
        };
        self.at_shift.high = (self.at_shift.high << 1) | if self.at_shift.high_latch {
            1
        } else {
            0
        };
    }

    /// One reload of the background registers: the low 8 bits of the pattern
    /// planes take the latched tile row, the attribute latches take bits 0 and
    /// 1 of the latched attribute.
    pub open spec fn after_background_reload_shift(self) -> Self {
        Ppu {
            bg_shift: BgPattern {
                low: (self.bg_shift.low & 0xFF00) | self.bg.low,
                high: (self.bg_shift.high & 0xFF00) | self.bg.high,
            },
            at_shift: BgPatternAttr {
                low_latch: self.at_latch & 1 == 1,
                high_latch: (self.at_latch >> 1) & 1 == 1,
                ..self.at_shift
            },
            ..self
        }
    }

    pub fn background_reload_shift(&mut self)
        ensures
            *final(self) == old(self).after_background_reload_shift(),
    {
        self.bg_shift.low = (self.bg_shift.low & 0xFF00) | self.bg.low;
        self.bg_shift.high = (self.bg_shift.high & 0xFF00) | self.bg.high;
        self.at_shift.low_latch = self.at_latch & 1 == 1;
        self.at_shift.high_latch = (self.at_latch >> 1) & 1 == 1;
    }

    pub fn incr_coarse_x(&mut self)
        ensures
            *final(self) == (Ppu {
                v: VramAddr(with_coarse_x_incremented(old(self).v.0)),
                ..*old(self)
            }),
    {
        if self.v.coarse_x_scroll().0 == 31 {
            // coarse X = 0, switch horizontal nametable
            self.v = VramAddr((self.v.0 & !0x001Fu16) ^ 0x0400);
        } else {
            self.v = VramAddr(self.v.0.wrapping_add(1));
        }
    }

    pub fn incr_y(&mut self)
        ensures
            *final(self) == (Ppu { v: VramAddr(with_y_incremented(old(self).v.0)), ..*old(self) }),
    {
        if self.v.fine_y_scroll().0 < 7 {
            self.v = VramAddr(self.v.0.wrapping_add(0x1000));
        } else {
            // fine Y = 0
            let mut v = self.v.0 & !0x7000u16;
            let mut y: u16 = VramAddr(v).coarse_y_scroll().0;
            if y == 29 {
                y = 0;
                // switch vertical nametable
                v = v ^ 0x0800;
            } else if y == 31 {
                y = 0;
            } else {
                y += 1;
            }
            self.v = VramAddr((v & !0x03E0u16) | (y << 5));
        }
    }

    pub fn copy_x(&mut self)
        ensures
            *final(self) == (Ppu {
                v: VramAddr(with_x_copied(old(self).v.0, old(self).t.0)),
                ..*old(self)
            }),
    {
        self.v = VramAddr((self.v.0 & !0x041Fu16) | (self.t.0 & 0x041F));
    }

    pub fn copy_y(&mut self)
        ensures
            *final(self) == (Ppu {
                v: VramAddr(with_y_copied(old(self).v.0, old(self).t.0)),
                ..*old(self)
            }),
    {
        self.v = VramAddr((self.v.0 & !0x7BE0u16) | (self.t.0 & 0x7BE0));
    }
}

/// The height of a tile, in rows; a tile takes twice as many bytes.
pub const TILE_HEIGHT: u16 = 8;

/// The three status flags that the pre-render line clears.
pub const STATUS_LINE_FLAGS: u8 = 0xE0;

/// The attribute bits of the tile at `v`: of the four pairs in the attribute
/// byte `at`, the pair of the quadrant that bit 1 of coarse X and of coarse Y
/// select, in bits 0 and 1.
pub open spec fn quadrant_of(at: u8, v: u16) -> u8 {
    let lower = if coarse_y_of(v) & 2 != 0 {
        at >> 4
    } else {
        at
    };
    if coarse_x_of(v) & 2 != 0 {
        lower >> 2
    } else {
        lower
    }
}

impl<M: Mapper, C: Controller> Nes<M, C> {
    /// The machine with `addr` as the address of the next background fetch.
    pub open spec fn with_bg_addr(self, addr: u16) -> Self {
        Nes { ppu: Ppu { bg_addr: addr, ..self.ppu }, ..self }
    }

    /// The address of the name table byte of the tile at `v`.
    pub open spec fn tile_addr(&self) -> u16 {
        NAME_TABLE_FIRST | name_table_index_of(self.ppu.v.0)
    }

    /// What the background pipeline fetches in the phase `phase` (0 to 7) of
    /// a group of eight dots: see `after_process_background`.
    #[verifier::opaque]
    pub open spec fn after_background_fetch(self, phase: u16) -> Self {
        let s = self;
        let render = self.ppu.mask.spec_render_enabled();
        if phase == 1 {
            let a = s.with_bg_addr(s.tile_addr());
            Nes { ppu: a.ppu.after_background_reload_shift(), ..a }
        } else if phase == 2 {
            let r = s.after_read_ppu(s.ppu.bg_addr);
            Nes { ppu: Ppu { nt_latch: s.ppu_peek(s.ppu.bg_addr), ..r.ppu }, ..r }
        } else if phase == 3 {
            s.with_bg_addr(ATTR_TABLE_FIRST | attribute_index_of(s.ppu.v.0))
        } else if phase == 4 {
            let r = s.after_read_ppu(s.ppu.bg_addr);
            Nes {
                ppu: Ppu {
                    at_latch: quadrant_of(s.ppu_peek(s.ppu.bg_addr), s.ppu.v.0),
                    ..r.ppu
                },
                ..r
            }
        } else if phase == 5 {
            s.with_bg_addr(
                (s.ppu.controller.spec_bg_table() + s.ppu.nt_latch * 16 + fine_y_of(
                    s.ppu.v.0,
                )) as u16,
            )
        } else if phase == 6 {
            let r = s.after_read_ppu(s.ppu.bg_addr);
            Nes {
                ppu: Ppu {
                    bg: BgPattern { low: s.ppu_peek(s.ppu.bg_addr) as u16, ..r.ppu.bg },
                    ..r.ppu
                },
                ..r
            }
        } else if phase == 7 {
            s.with_bg_addr(s.ppu.bg_addr.wrapping_add(TILE_HEIGHT))
        } else {
            let r = s.after_read_ppu(s.ppu.bg_addr);
            Nes {
                ppu: Ppu {
                    bg: BgPattern { high: s.ppu_peek(s.ppu.bg_addr) as u16, ..r.ppu.bg },
                    v: if render {
                        VramAddr(with_coarse_x_incremented(r.ppu.v.0))
                    } else {
                        r.ppu.v
                    },
                    ..r.ppu
                },
                ..r
            }
        }
    }

    /// What the background pipeline does at this dot of a visible or
    /// pre-render line.
    /// - Dot 1: shift; the next fetch is the name table byte; the pre-render
    ///   line clears VBLANK, sprite 0 hit and sprite overflow.
    /// - Dots 2 to 255 and 322 to 336: shift, then by `dot % 8`:
    ///   1 reload the shift registers, the next fetch is the name table byte
    ///   at `0x2000 | (v & 0x0FFF)`; 2 fetch it; 3 the next fetch is the
    ///   attribute byte at `0x23C0 | (v & 0x0C00) | ((v >> 4) & 0x38) |
    ///   ((v >> 2) & 0x07)`; 4 fetch it and keep the tile's quadrant; 5 the
    ///   next fetch is the pattern low byte at `table + tile * 16 + fine Y`;
    ///   6 fetch it; 7 the next fetch is 8 further; 0 fetch the pattern high
    ///   byte and, if rendering, increment coarse X.
    /// - Dot 256: shift, fetch the pattern high byte and, if rendering,
    ///   increment Y.
    /// - Dot 257: reload and, if rendering, copy the horizontal bits of `t`.
    /// - Dots 280 to 304: on the pre-render line, if rendering, copy the
    ///   vertical bits of `t`.
    /// - Dots 320, 337 and 339: the next fetch is the name table byte.
    /// - Dots 338 and 340: fetch it.
    #[verifier::opaque]
    pub open spec fn after_process_background(self, scanline: Scanline) -> Self {
        let dot = self.ppu.scan.dot;
        let render = self.ppu.mask.spec_render_enabled();
        if dot == 1 {
            let shifted = Nes { ppu: self.ppu.after_background_shift(), ..self };
            let addressed = shifted.with_bg_addr(shifted.tile_addr());
            if scanline == Scanline::Pre {
                Nes {
                    ppu: Ppu {
                        status: Status {
                            bits: put_flag(addressed.ppu.status.bits, STATUS_LINE_FLAGS, false),
                        },
                        ..addressed.ppu
                    },
                    ..addressed
                }
            } else {
                addressed
            }
        } else if (2 <= dot <= 255) || (322 <= dot <= 336) {
            Nes { ppu: self.ppu.after_background_shift(), ..self }.after_background_fetch(
                (dot % 8) as u16,
            )
        } else if dot == 256 {
            let s = Nes { ppu: self.ppu.after_background_shift(), ..self };
            let r = s.after_read_ppu(s.ppu.bg_addr);
            Nes {
                ppu: Ppu {
                    bg: BgPattern { high: s.ppu_peek(s.ppu.bg_addr) as u16, ..r.ppu.bg },
                    v: if render {
                        VramAddr(with_y_incremented(r.ppu.v.0))
                    } else {
                        r.ppu.v
                    },
                    ..r.ppu
                },
                ..r
            }
        } else if dot == 257 {
            let s = self.ppu.after_background_reload_shift();
            Nes {
                ppu: Ppu {
                    v: if render {
                        VramAddr(with_x_copied(s.v.0, s.t.0))
                    } else {
                        s.v
                    },
                    ..s
                },
                ..self
            }
        } else if 280 <= dot <= 304 {
            if scanline == Scanline::Pre && render {
                Nes {
                    ppu: Ppu {
                        v: VramAddr(with_y_copied(self.ppu.v.0, self.ppu.t.0)),
                        ..self.ppu
                    },
                    ..self
                }
            } else {
                self
            }
        } else if dot == 320 || dot == 337 || dot == 339 {
            self.with_bg_addr(self.tile_addr())
        } else if dot == 338 || dot == 340 {
            let r = self.after_read_ppu(self.ppu.bg_addr);
            Nes { ppu: Ppu { nt_latch: self.ppu_peek(self.ppu.bg_addr), ..r.ppu }, ..r }
        } else {
            self
        }
    }

    pub fn background_fetch(&mut self, phase: u16)
        ensures
            *final(self) == old(self).after_background_fetch(phase),
            final(self).ppu.scan == old(self).ppu.scan,
            final(self).ppu.mask == old(self).ppu.mask,
            final(self).interrupt == old(self).interrupt,
            final(self).cpu == old(self).cpu,
    {
        reveal(Nes::after_background_fetch);
        let render = self.ppu.mask.render_enabled();
        match phase {
            // Fetch nametable byte : step 1
            1 => {
                self.ppu.bg_addr = self.ppu.v.tile_addr();
                self.ppu.background_reload_shift();
            },
            // Fetch nametable byte : step 2
            2 => {
                self.ppu.nt_latch = self.read_ppu(self.ppu.bg_addr);
            },
            // Fetch attribute table byte : step 1
            3 => {
                self.ppu.bg_addr = self.ppu.v.attr_addr();
            },
            // Fetch attribute table byte : step 2
            4 => {
                let mut at = self.read_ppu(self.ppu.bg_addr);
                if self.ppu.v.coarse_y_scroll().0 & 2 != 0 {
                    at = at >> 4;
                }
                if self.ppu.v.coarse_x_scroll().0 & 2 != 0 {
                    at = at >> 2;
                }
                self.ppu.at_latch = at;
            },
            // Fetch tile bitmap low byte : step 1
            5 => {
                let base = self.ppu.controller.bg_table();
                let index = (self.ppu.nt_latch as u16) * 16;
                self.ppu.bg_addr = base + index + self.ppu.v.fine_y_scroll().0 as u16;
            },
            // Fetch tile bitmap low byte : step 2
            6 => {
                self.ppu.bg.low = self.read_ppu(self.ppu.bg_addr) as u16;
            },
            // Fetch tile bitmap high byte : step 1
            7 => {
                self.ppu.bg_addr = self.ppu.bg_addr.wrapping_add(TILE_HEIGHT);
            },
            // Fetch tile bitmap high byte : step 2
            _ => {
                self.ppu.bg.high = self.read_ppu(self.ppu.bg_addr) as u16;
                if render {
                    self.ppu.incr_coarse_x();
                }
            },
        }
    }

    pub fn process_background(&mut self, scanline: Scanline)
        ensures
            *final(self) == old(self).after_process_background(scanline),
            final(self).ppu.scan == old(self).ppu.scan,
            final(self).ppu.mask == old(self).ppu.mask,
            final(self).interrupt == old(self).interrupt,
            final(self).cpu == old(self).cpu,
    {
        reveal(Nes::after_process_background);
        let dot = self.ppu.scan.dot;
        let render = self.ppu.mask.render_enabled();
        match dot {
            1 => {
                self.ppu.background_shift();
                // no shift reloading
                self.ppu.bg_addr = self.ppu.v.tile_addr();
                if let Scanline::Pre = scanline {
                    // End VBLANK
                    self.ppu.status.remove(STATUS_LINE_FLAGS);
                }
            },
            2..=255 | 322..=336 => {
                self.ppu.background_shift();
                self.background_fetch(dot % 8);
            },
            256 => {
                self.ppu.background_shift();
                self.ppu.bg.high = self.read_ppu(self.ppu.bg_addr) as u16;
                if render {
                    self.ppu.incr_y();
                }
            },
            257 => {
                self.ppu.background_reload_shift();
                if render {
                    self.ppu.copy_x();
                }
            },
            280..=304 => {
                if let Scanline::Pre = scanline {
                    if render {
                        self.ppu.copy_y();
                    }
                }
            },
            320 => {
                // no shift reloading
                self.ppu.bg_addr = self.ppu.v.tile_addr();
            },
            // Unused name table fetches
            337 | 339 => {
                self.ppu.bg_addr = self.ppu.v.tile_addr();
            },
            338 | 340 => {
                self.ppu.nt_latch = self.read_ppu(self.ppu.bg_addr);
            },
            _ => {},
        }
    }

    /// The background pixel at column `x`: 0 where the background does not
    /// show (disabled, or masked in the leftmost 8 pixels); else the two
    /// pattern bits under fine X and, unless these are 0, the two attribute
    /// bits above them.
    pub open spec fn background_pixel(&self, x: u16) -> u16 {
        if !has_flag(self.ppu.mask.bits, MASK_BACKGROUND) || (x < 8 && !has_flag(
            self.ppu.mask.bits,
            MASK_BACKGROUND_LEFT,
        )) {
            0
        } else {
            let fx = self.ppu.fine_x % 8;
            let p = (((self.ppu.bg_shift.high >> ((15 - fx) as u8)) & 1) << 1) | ((
            self.ppu.bg_shift.low >> ((15 - fx) as u8)) & 1);
            if 0 < p {
                let a = (((self.ppu.at_shift.high >> ((7 - fx) as u8)) & 1) << 1) | ((
                self.ppu.at_shift.low >> ((7 - fx) as u8)) & 1);
                p | ((a as u16) << 2)
            } else {
                p
            }
        }
    }

    pub fn render_background_pixel(&self, x: u16) -> (r: u16)
        ensures
            r == self.background_pixel(x),
    {
        if !self.ppu.mask.contains(MASK_BACKGROUND) || (x < 8 && !self.ppu.mask.contains(
            MASK_BACKGROUND_LEFT,
        )) {
            // background rendering disabled
            return 0;
        }
        let fx = self.ppu.fine_x % 8;
        let p: u16 = (((self.ppu.bg_shift.high >> (15 - fx)) & 1) << 1) | ((self.ppu.bg_shift.low
            >> (15 - fx)) & 1);
        if 0 < p {
            let a: u8 = (((self.ppu.at_shift.high >> (7 - fx)) & 1) << 1) | ((
            self.ppu.at_shift.low >> (7 - fx)) & 1);
            p | ((a as u16) << 2)
        } else {
            p
        }
    }
}

} // verus!
