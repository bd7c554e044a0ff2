//! Sprites: the object attribute memory and the eight slots of a line.

use vstd::prelude::*;
use vstd::array::{spec_array_fill_for_copy_type, spec_array_update};
use crate::controller::Controller;
use crate::data_unit::{flag_is_set, has_flag, put_flag};
use crate::nes::Nes;
use crate::ppu::register::{
    Status, CTRL_SPRITE_SIZE, CTRL_SPRITE_TABLE_ADDR, MASK_SPRITE, MASK_SPRITE_LEFT,
    STATUS_SPRITE_OVERFLOW, STATUS_SPRITE_ZERO_HIT,
};
use crate::ppu::Ppu;
use crate::rom::Mapper;

verus! {

/// How many sprites a line can show.
pub const SPRITE_LIMIT: usize = 8;
/// How many sprites the primary OAM holds.
pub const SPRITE_COUNT: usize = 64;
/// Sprite attribute: flipped top to bottom.
pub const FLIP_VERTICALLY: u8 = 0x80;
/// Sprite attribute: flipped left to right.
pub const FLIP_HORIZONTALLY: u8 = 0x40;
/// Sprite attribute: behind the background.
pub const BEHIND_BACKGROUND: u8 = 0x20;

/// A sprite in a slot of the line: its four OAM bytes and the two pattern
/// bytes of the row that the line shows.
#[derive(Clone, Copy, Debug, PartialEq, Eq, Structural)]
pub struct Sprite {
    /// Y position of top
    pub y: u8,
    /// Tile index number
    pub tile_index: u8,
    /// Attributes
    pub attr: u8,
    /// X position of left
    pub x: u8,
    pub low: u8,
    pub high: u8,
}

impl Sprite {
    /// The slot that holds no sprite.
    pub open spec fn none() -> Self {
        Sprite { y: 0xFF, tile_index: 0xFF, attr: 0xFF, x: 0xFF, low: 0, high: 0 }
    }

    /// Whether the slot holds a sprite: not all four OAM bytes are 0xFF.
    pub open spec fn spec_valid(&self) -> bool {
        !(self.x == 0xFF && self.y == 0xFF && self.tile_index == 0xFF && self.attr == 0xFF)
    }

    #[verifier::when_used_as_spec(spec_valid)]
    pub fn valid(&self) -> (r: bool)
        ensures
            r == self.spec_valid(),
    {
        !(self.x == 0xFF && self.y == 0xFF && self.tile_index == 0xFF && self.attr == 0xFF)
    }

    /// The row of the sprite that `line` shows, counted from the top of the
    /// pattern: `line - y - 1` (modulo 0x10000), taken from the bottom if the
    /// sprite is flipped.
    pub open spec fn spec_row(&self, line: u16, sprite_height: u8) -> u16 {
        let row = line.wrapping_sub(self.y as u16).wrapping_sub(1);
        if has_flag(self.attr, FLIP_VERTICALLY) {
            (sprite_height as u16).wrapping_sub(1).wrapping_sub(row)
        } else {
            row
        }
    }

    #[verifier::when_used_as_spec(spec_row)]
    pub fn row(&self, line: u16, sprite_height: u8) -> (r: u16)
        ensures
            r == self.spec_row(line, sprite_height),
    {
        let row = line.wrapping_sub(self.y as u16).wrapping_sub(1);
        if flag_is_set(self.attr, FLIP_VERTICALLY) {
            (sprite_height as u16).wrapping_sub(1).wrapping_sub(row)
        } else {
            row
        }
    }

    /// Whether the sprite covers the column `x` of the screen.
    pub open spec fn spec_covers(&self, x: u16) -> bool {
        self.x <= x && x - self.x < 8
    }

    #[verifier::when_used_as_spec(spec_covers)]
    pub fn covers(&self, x: u16) -> (r: bool)
        ensures
            r == self.spec_covers(x),
    {
        (self.x as u16) <= x && x - (self.x as u16) < 8
    }

    /// The bit of the pattern bytes that column `x` shows: `7 - (x - self.x)`,
    /// mirrored if the sprite is flipped.
    pub open spec fn spec_col(&self, x: u16) -> u8
        recommends
            self.spec_covers(x),
    {
        if has_flag(self.attr, FLIP_HORIZONTALLY) {
            (x - self.x) as u8
        } else {
            (7 - (x - self.x)) as u8
        }
    }

    #[verifier::when_used_as_spec(spec_col)]
    pub fn col(&self, x: u16) -> (r: u8)
        requires
            self.spec_covers(x),
        ensures
            r == self.spec_col(x),
            r < 8,
    {
        let col = 7 - (x - self.x as u16);
        if flag_is_set(self.attr, FLIP_HORIZONTALLY) {
            (7 - col) as u8
        } else {
            col as u8
        }
    }

    /// The two-bit pixel of the sprite at column `x`: pattern high over
    /// pattern low.
    pub open spec fn spec_pixel(&self, x: u16) -> u8
        recommends
            self.spec_covers(x),
    {
        (((self.high >> self.spec_col(x)) & 1) << 1) | ((self.low >> self.spec_col(x)) & 1)
    }

    #[verifier::when_used_as_spec(spec_pixel)]
    pub fn pixel(&self, x: u16) -> (r: u8)
        requires
            self.spec_covers(x),
        ensures
            r == self.spec_pixel(x),
    {
        let col = self.col(x);
        (((self.high >> col) & 1) << 1) | ((self.low >> col) & 1)
    }
}

/// The object attribute memory: 64 sprites of 4 bytes, and the 8 sprites
/// found for the next line.
pub struct Oam {
    pub primary: [u8; 256],
    pub secondary: [u8; 32],
}

impl Oam {
    pub open spec fn power_up() -> Self {
        Oam {
            primary: spec_array_fill_for_copy_type::<u8, 256>(0u8),
            secondary: spec_array_fill_for_copy_type::<u8, 32>(0xFFu8),
        }
    }

    pub fn new() -> (r: Self)
        ensures
            r == Self::power_up(),
    {
        Oam { primary: [0u8; 256], secondary: [0xFFu8; 32] }
    }

    /// Empties the secondary OAM: every byte 0xFF.
    pub fn clear(&mut self)
        ensures
            *final(self) == (Oam {
                secondary: spec_array_fill_for_copy_type::<u8, 32>(0xFFu8),
                ..*old(self)
            }),
    {
        self.secondary = [0xFFu8; 32];
    }
}

/// Whether a sprite with top `y` has a row on the line after `line`.
pub open spec fn in_range(line: u16, y: u8, height: u16) -> bool {
    y <= line && line - y < height
}

/// `secondary` with the four bytes of sprite `i` of `primary` in slot `n`.
pub open spec fn with_slot(secondary: [u8; 32], primary: [u8; 256], i: int, n: int) -> [u8; 32] {
    spec_array_update(
        spec_array_update(
            spec_array_update(
                spec_array_update(secondary, 4 * n, primary[4 * i]),
                4 * n + 1,
                primary[4 * i + 1],
            ),
            4 * n + 2,
            primary[4 * i + 2],
        ),
        4 * n + 3,
        primary[4 * i + 3],
    )
}

/// How many of the first `upto` sprites of `primary` are in range of `line`.
pub open spec fn hits(primary: [u8; 256], line: u16, height: u16, upto: nat) -> nat
    decreases upto,
{
    if upto == 0 {
        0
    } else {
        hits(primary, line, height, (upto - 1) as nat) + (if in_range(
            line,
            primary[4 * (upto - 1)],
            height,
        ) {
            1nat
        } else {
            0nat
        })
    }
}

/// The secondary OAM after the first `upto` sprites of `primary` were
/// evaluated for `line`: the first eight in range, in order, in slots 0 to 7;
/// 0xFF in every slot left over.
pub open spec fn evaluated(primary: [u8; 256], line: u16, height: u16, upto: nat) -> [u8; 32]
    decreases upto,
{
    if upto == 0 {
        spec_array_fill_for_copy_type::<u8, 32>(0xFFu8)
    } else {
        let before = evaluated(primary, line, height, (upto - 1) as nat);
        let n = hits(primary, line, height, (upto - 1) as nat);
        if in_range(line, primary[4 * (upto - 1)], height) && n < 8 {
            with_slot(before, primary, upto - 1, n as int)
        } else {
            before
        }
    }
}

/// Where the pattern row `row` of the tile `tile` starts. For 8x8 sprites the
/// table is the one that PPUCTRL names; for 8x16 sprites bit 0 of `tile`
/// names the table, the other bits the upper tile, and rows 8 to 15 lie in the
/// tile after it.
pub open spec fn sprite_pattern_addr(controller: u8, tile: u8, row: u16) -> u16 {
    if has_flag(controller, CTRL_SPRITE_SIZE) {
        ((tile % 2) * 0x1000 + ((tile / 2) * 2 + (row / 8) % 2) * 16 + row % 8) as u16
    } else if has_flag(controller, CTRL_SPRITE_TABLE_ADDR) {
        (0x1000 + tile * 16 + row % 8) as u16
    } else {
        (tile * 16 + row % 8) as u16
    }
}

pub fn pattern_addr(controller: u8, tile: u8, row: u16) -> (r: u16)
    ensures
        r == sprite_pattern_addr(controller, tile, row),
        r < 0x1FF8,
{
    if flag_is_set(controller, CTRL_SPRITE_SIZE) {
        (tile as u16 % 2) * 0x1000 + ((tile as u16 / 2) * 2 + (row / 8) % 2) * 16 + row % 8
    } else if flag_is_set(controller, CTRL_SPRITE_TABLE_ADDR) {
        0x1000 + (tile as u16) * 16 + row % 8
    } else {
        (tile as u16) * 16 + row % 8
    }
}

impl Ppu {
    /// The unit after sprite evaluation on a visible line: the secondary OAM
    /// holds the first eight sprites in range of the line, sprite 0 is
    /// remembered if it is one of them, and SPRITE_OVERFLOW is set exactly if
    /// eight or more are in range and rendering is enabled.
    pub open spec fn after_eval_sprites(self) -> Self {
        let height = self.controller.spec_sprite_height();
        let line = self.scan.line;
        Ppu {
            oam: Oam { secondary: evaluated(self.oam.primary, line, height, 64), ..self.oam },
            sprite_zero_found: in_range(line, self.oam.primary[0], height),
            status: Status {
                bits: put_flag(
                    self.status.bits,
                    STATUS_SPRITE_OVERFLOW,
                    hits(self.oam.primary, line, height, 64) >= 8
                        && self.mask.spec_render_enabled(),
                ),
            },
            ..self
        }
    }

    pub fn eval_sprites(&mut self)
        ensures
            *final(self) == old(self).after_eval_sprites(),
    {
        let height = self.sprite_size() as u16;
        let line = self.scan.line;
        self.oam.clear();
        let mut n: usize = 0;
        let mut i: usize = 0;
        while i < SPRITE_COUNT
            invariant
                i <= SPRITE_COUNT,
                n <= i,
                height == old(self).controller.spec_sprite_height(),
                line == old(self).scan.line,
                n == hits(old(self).oam.primary, line, height, i as nat),
                *self == (Ppu {
                    oam: Oam {
                        secondary: evaluated(old(self).oam.primary, line, height, i as nat),
                        ..old(self).oam
                    },
                    ..*old(self)
                }),
            decreases SPRITE_COUNT - i,
        {
            let y = self.oam.primary[4 * i];
            if y as u16 <= line && line - (y as u16) < height {
                if n < SPRITE_LIMIT {
                    self.oam.secondary[4 * n] = self.oam.primary[4 * i];
                    self.oam.secondary[4 * n + 1] = self.oam.primary[4 * i + 1];
                    self.oam.secondary[4 * n + 2] = self.oam.primary[4 * i + 2];
                    self.oam.secondary[4 * n + 3] = self.oam.primary[4 * i + 3];
                }
                n += 1;
            }
            i += 1;
        }
        let y0 = self.oam.primary[0];
        self.sprite_zero_found = y0 as u16 <= line && line - (y0 as u16) < height;
        let render = self.mask.render_enabled();
        self.status.set(STATUS_SPRITE_OVERFLOW, n >= SPRITE_LIMIT && render);
    }
}

impl<M: Mapper, C: Controller> Nes<M, C> {
    /// The sprite in slot `i` of the secondary OAM, as the line after this
    /// one shows it: its four bytes, and its two pattern bytes if the slot
    /// holds a sprite.
    pub open spec fn fetched_sprite(&self, i: int) -> Sprite {
        let sec = self.ppu.oam.secondary;
        let bare = Sprite {
            y: sec[4 * i],
            tile_index: sec[4 * i + 1],
            attr: sec[4 * i + 2],
            x: sec[4 * i + 3],
            low: 0,
            high: 0,
        };
        if bare.spec_valid() {
            let addr = self.sprite_addr(bare);
            Sprite {
                low: self.ppu_peek(addr),
                high: self.after_read_ppu(addr).ppu_peek((addr + 8) as u16),
                ..bare
            }
        } else {
            bare
        }
    }

    /// Where the pattern row of `sprite` for the line after this one starts.
    pub open spec fn sprite_addr(&self, sprite: Sprite) -> u16 {
        sprite_pattern_addr(
            self.ppu.controller.bits,
            sprite.tile_index,
            sprite.spec_row(
                self.ppu.scan.line.wrapping_add(1),
                self.ppu.controller.spec_sprite_height() as u8,
            ),
        )
    }

    /// The machine after slot `i` was fetched: the slot holds the fetched
    /// sprite, and the cartridge was read twice if the slot holds a sprite.
    /// Fetching slot 0 also makes the sprite 0 found by the evaluation the
    /// one on the line.
    pub open spec fn after_fetch_sprite(self, i: int) -> Self {
        let sprite = self.fetched_sprite(i);
        let read = if sprite.spec_valid() {
            self.after_read_ppu(self.sprite_addr(sprite)).after_read_ppu(
                (self.sprite_addr(sprite) + 8) as u16,
            )
        } else {
            self
        };
        Nes {
            ppu: Ppu {
                sprites: spec_array_update(read.ppu.sprites, i, sprite),
                sprite_zero_on_line: if i == 0 {
                    read.ppu.sprite_zero_found
                } else {
                    read.ppu.sprite_zero_on_line
                },
                ..read.ppu
            },
            ..read
        }
    }

    pub fn fetch_sprite(&mut self, i: usize)
        requires
            i < SPRITE_LIMIT,
        ensures
            *final(self) == old(self).after_fetch_sprite(i as int),
            final(self).ppu.scan == old(self).ppu.scan,
            final(self).ppu.mask == old(self).ppu.mask,
            final(self).interrupt == old(self).interrupt,
            final(self).cpu == old(self).cpu,
    {
        let n = 4 * i;
        let mut sprite = Sprite {
            y: self.ppu.oam.secondary[n],
            tile_index: self.ppu.oam.secondary[n + 1],
            attr: self.ppu.oam.secondary[n + 2],
            x: self.ppu.oam.secondary[n + 3],
            low: 0,
            high: 0,
        };
        if sprite.valid() {
            let row = sprite.row(self.ppu.scan.line.wrapping_add(1), self.ppu.sprite_size());
            let addr = pattern_addr(self.ppu.controller.bits, sprite.tile_index, row);
            sprite.low = self.read_ppu(addr);
            sprite.high = self.read_ppu(addr + 8);
        }
        self.ppu.sprites[i] = sprite;
        if i == 0 {
            self.ppu.sprite_zero_on_line = self.ppu.sprite_zero_found;
        }
    }

    /// What the sprite pipeline does at this dot of a visible or pre-render
    /// line.
    /// - Dot 1: the secondary OAM is emptied.
    /// - Dot 65: on a visible line, the sprites of the next line are found.
    /// - Dots 258 to 320, every eighth: slot 0 to 7 is fetched.
    pub open spec fn after_process_sprites(self) -> Self {
        let dot = self.ppu.scan.dot;
        if dot == 1 {
            Nes {
                ppu: Ppu {
                    oam: Oam {
                        secondary: spec_array_fill_for_copy_type::<u8, 32>(0xFFu8),
                        ..self.ppu.oam
                    },
                    sprite_zero_found: false,
                    ..self.ppu
                },
                ..self
            }
        } else if dot == 65 && self.ppu.scan.line < 240 {
            Nes { ppu: self.ppu.after_eval_sprites(), ..self }
        } else if 258 <= dot <= 320 && (dot - 258) % 8 == 0 {
            self.after_fetch_sprite((dot - 258) / 8)
        } else {
            self
        }
    }

    pub fn process_sprites(&mut self)
        ensures
            *final(self) == old(self).after_process_sprites(),
            final(self).ppu.scan == old(self).ppu.scan,
            final(self).ppu.mask == old(self).ppu.mask,
            final(self).interrupt == old(self).interrupt,
            final(self).cpu == old(self).cpu,
    {
        let dot = self.ppu.scan.dot;
        if dot == 1 {
            self.ppu.oam.clear();
            self.ppu.sprite_zero_found = false;
        } else if dot == 65 && self.ppu.scan.line < 240 {
            self.ppu.eval_sprites();
        } else if 258 <= dot && dot <= 320 && (dot - 258) % 8 == 0 {
            self.fetch_sprite(((dot - 258) / 8) as usize);
        }
    }

    /// The first slot from `from` on whose sprite shows a pixel at column
    /// `x`: it holds a sprite, the sprite covers `x`, and its pixel there is
    /// not transparent. The search ends at the first slot that holds no
    /// sprite. 8 if there is none.
    pub open spec fn sprite_at(&self, x: u16, from: int) -> int
        decreases 8 - from,
    {
        if from < 0 || from >= 8 {
            8
        } else if !self.ppu.sprites[from].spec_valid() {
            8
        } else if self.ppu.sprites[from].spec_covers(x) && self.ppu.sprites[from].spec_pixel(x)
            != 0 {
            from
        } else {
            self.sprite_at(x, from + 1)
        }
    }

    /// Whether sprites show at column `x`: they are enabled, and not masked
    /// in the leftmost 8 pixels.
    pub open spec fn sprites_shown(&self, x: u16) -> bool {
        has_flag(self.ppu.mask.bits, MASK_SPRITE) && !(x < 8 && !has_flag(
            self.ppu.mask.bits,
            MASK_SPRITE_LEFT,
        ))
    }

    /// The sprite pixel at column `x` with its attribute byte: those of the
    /// first sprite that shows a pixel there; `(0, 0)` if none does or sprites
    /// do not show.
    pub open spec fn sprite_pixel(&self, x: u16) -> (u16, u8) {
        let i = self.sprite_at(x, 0);
        if !self.sprites_shown(x) || i >= 8 {
            (0, 0)
        } else {
            (self.ppu.sprites[i].spec_pixel(x) as u16, self.ppu.sprites[i].attr)
        }
    }

    /// Whether drawing column `x` over the background pixel `bg` raises the
    /// sprite 0 hit: the sprite found is in slot 0, sprite 0 is on the line,
    /// the hit is not up yet, the sprite is not at x 255, `x` is under 255 and
    /// `bg` is not transparent.
    pub open spec fn sprite_zero_hits(&self, x: u16, bg: u16) -> bool {
        &&& self.sprites_shown(x)
        &&& self.sprite_at(x, 0) == 0
        &&& self.ppu.sprite_zero_on_line
        &&& !has_flag(self.ppu.status.bits, STATUS_SPRITE_ZERO_HIT)
        &&& self.ppu.sprites[0].x != 0xFF
        &&& x < 0xFF
        &&& 0 < bg
    }

    /// Gives the sprite pixel at column `x` and its attribute byte, and
    /// raises the sprite 0 hit where it is due.
    pub fn render_sprite(&mut self, x: u16, bg_addr: u16) -> (r: (u16, u8))
        ensures
            r == old(self).sprite_pixel(x),
            *final(self) == (if old(self).sprite_zero_hits(x, bg_addr) {
                Nes {
                    ppu: Ppu {
                        status: Status {
                            bits: put_flag(
                                old(self).ppu.status.bits,
                                STATUS_SPRITE_ZERO_HIT,
                                true,
                            ),
                        },
                        ..old(self).ppu
                    },
                    ..*old(self)
                }
            } else {
                *old(self)
            }),
    {
        if !self.ppu.mask.contains(MASK_SPRITE) || (x < 8 && !self.ppu.mask.contains(
            MASK_SPRITE_LEFT,
        )) {
            return (0, 0);
        }
        let mut i: usize = 0;
        while i < SPRITE_LIMIT
            invariant
                i <= SPRITE_LIMIT,
                *self == *old(self),
                self.sprites_shown(x),
                self.sprite_at(x, 0) == self.sprite_at(x, i as int),
            decreases SPRITE_LIMIT - i,
        {
            let sprite = self.ppu.sprites[i];
            if !sprite.valid() {
                return (0, 0);
            }
            if sprite.covers(x) {
                let pixel = sprite.pixel(x);
                if pixel != 0 {
                    if i == 0 && self.ppu.sprite_zero_on_line && !self.ppu.status.contains(
                        STATUS_SPRITE_ZERO_HIT,
                    ) && sprite.x != 0xFF && x < 0xFF && 0 < bg_addr {
                        self.ppu.status.insert(STATUS_SPRITE_ZERO_HIT);
                    }
                    return (pixel as u16, sprite.attr);
                }
            }
            i += 1;
        }
        (0, 0)
    }
}

} // verus!
