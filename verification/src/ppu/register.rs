//! The picture unit's control, mask and status registers.

use vstd::prelude::*;
use crate::data_unit::{assign_flag, flag_is_set, has_flag, put_flag};

verus! {

/// PPUCTRL: raise NMI at the start of the vertical blank.
pub const CTRL_NMI: u8 = 0x80;
/// PPUCTRL: master/slave select.
pub const CTRL_SLAVE: u8 = 0x40;
/// PPUCTRL: sprites are 8x16 rather than 8x8.
pub const CTRL_SPRITE_SIZE: u8 = 0x20;
/// PPUCTRL: the background pattern table is at 0x1000.
pub const CTRL_BG_TABLE_ADDR: u8 = 0x10;
/// PPUCTRL: the pattern table of 8x8 sprites is at 0x1000.
pub const CTRL_SPRITE_TABLE_ADDR: u8 = 0x08;
/// PPUCTRL: the VRAM address steps by 32 rather than 1.
pub const CTRL_VRAM_ADDR_INCR: u8 = 0x04;

/// PPUMASK: show sprites.
pub const MASK_SPRITE: u8 = 0x10;
/// PPUMASK: show the background.
pub const MASK_BACKGROUND: u8 = 0x08;
/// PPUMASK: show sprites in the leftmost 8 pixels.
pub const MASK_SPRITE_LEFT: u8 = 0x04;
/// PPUMASK: show the background in the leftmost 8 pixels.
pub const MASK_BACKGROUND_LEFT: u8 = 0x02;
/// PPUMASK: greyscale.
pub const MASK_GREYSCALE: u8 = 0x01;

/// PPUSTATUS: in vertical blank.
pub const STATUS_VBLANK: u8 = 0x80;
/// PPUSTATUS: sprite 0 hit.
pub const STATUS_SPRITE_ZERO_HIT: u8 = 0x40;
/// PPUSTATUS: sprite overflow.
pub const STATUS_SPRITE_OVERFLOW: u8 = 0x20;

/// PPUCTRL.
#[derive(Clone, Copy, Debug, PartialEq, Eq, Structural)]
pub struct Controller {
    pub bits: u8,
}

impl Controller {
    pub fn from_bits_truncate(bits: u8) -> (r: Self)
        ensures
            r.bits == bits,
    {
        Controller { bits }
    }

    pub open spec fn spec_contains(&self, mask: u8) -> bool {
        has_flag(self.bits, mask)
    }

    #[verifier::when_used_as_spec(spec_contains)]
    pub fn contains(&self, mask: u8) -> (r: bool)
        ensures
            r == self.spec_contains(mask),
    {
        flag_is_set(self.bits, mask)
    }

    /// Which of the four name tables the scroll starts in.
    pub open spec fn spec_name_table_select(&self) -> u16 {
        (self.bits & 0b11) as u16
    }

    #[verifier::when_used_as_spec(spec_name_table_select)]
    pub fn name_table_select(&self) -> (r: u16)
        ensures
            r == self.spec_name_table_select(),
    {
        (self.bits & 0b11) as u16
    }

    /// Where the background pattern table starts.
    pub open spec fn spec_bg_table(&self) -> u16 {
        if has_flag(self.bits, CTRL_BG_TABLE_ADDR) {
            0x1000
        } else {
            0x0000
        }
    }

    #[verifier::when_used_as_spec(spec_bg_table)]
    pub fn bg_table(&self) -> (r: u16)
        ensures
            r == self.spec_bg_table(),
    {
        if self.contains(CTRL_BG_TABLE_ADDR) {
            0x1000
        } else {
            0x0000
        }
    }

    /// The height of a sprite: 16 or 8.
    pub open spec fn spec_sprite_height(&self) -> u16 {
        if has_flag(self.bits, CTRL_SPRITE_SIZE) {
            16
        } else {
            8
        }
    }
}

/// PPUMASK.
#[derive(Clone, Copy, Debug, PartialEq, Eq, Structural)]
pub struct Mask {
    pub bits: u8,
}

impl Mask {
    pub fn from_bits_truncate(bits: u8) -> (r: Self)
        ensures
            r.bits == bits,
    {
        Mask { bits }
    }

    pub open spec fn spec_contains(&self, mask: u8) -> bool {
        has_flag(self.bits, mask)
    }

    #[verifier::when_used_as_spec(spec_contains)]
    pub fn contains(&self, mask: u8) -> (r: bool)
        ensures
            r == self.spec_contains(mask),
    {
        flag_is_set(self.bits, mask)
    }

    /// Whether rendering is enabled: the background or the sprites show.
    pub open spec fn spec_render_enabled(&self) -> bool {
        has_flag(self.bits, MASK_SPRITE) || has_flag(self.bits, MASK_BACKGROUND)
    }

    #[verifier::when_used_as_spec(spec_render_enabled)]
    pub fn render_enabled(&self) -> (r: bool)
        ensures
            r == self.spec_render_enabled(),
    {
        self.contains(MASK_SPRITE) || self.contains(MASK_BACKGROUND)
    }
}

/// PPUSTATUS.
#[derive(Clone, Copy, Debug, PartialEq, Eq, Structural)]
pub struct Status {
    pub bits: u8,
}

impl Status {
    pub open spec fn spec_contains(&self, mask: u8) -> bool {
        has_flag(self.bits, mask)
    }

    #[verifier::when_used_as_spec(spec_contains)]
    pub fn contains(&self, mask: u8) -> (r: bool)
        ensures
            r == self.spec_contains(mask),
    {
        flag_is_set(self.bits, mask)
    }

    pub fn insert(&mut self, mask: u8)
        ensures
            final(self).bits == put_flag(old(self).bits, mask, true),
    {
        self.bits = assign_flag(self.bits, mask, true);
    }

    pub fn remove(&mut self, mask: u8)
        ensures
            final(self).bits == put_flag(old(self).bits, mask, false),
    {
        self.bits = assign_flag(self.bits, mask, false);
    }

    pub fn set(&mut self, mask: u8, on: bool)
        ensures
            final(self).bits == put_flag(old(self).bits, mask, on),
    {
        self.bits = assign_flag(self.bits, mask, on);
    }
}

} // verus!
