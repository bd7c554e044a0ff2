//! The 15-bit VRAM address register and its scroll fields.

use vstd::prelude::*;
use crate::data_unit::{Byte, Word};

verus! {

// https://wiki.nesdev.com/w/index.php/PPU_scrolling#PPU_internal_registers
//
// yyy NN YYYYY XXXXX
// ||| || ||||| +++++-- coarse X scroll
// ||| || +++++-------- coarse Y scroll
// ||| ++-------------- nametable select
// +++----------------- fine Y scroll
#[derive(Clone, Copy, Debug, PartialEq, Eq, Structural)]
pub struct VramAddr(pub u16);

pub const NAME_TABLE_FIRST: u16 = 0x2000;
pub const ATTR_TABLE_FIRST: u16 = 0x23C0;

pub open spec fn coarse_x_of(v: u16) -> u16 {
    v & 0x001F
}

pub open spec fn coarse_y_of(v: u16) -> u16 {
    (v & 0x03E0) >> 5
}

pub open spec fn fine_y_of(v: u16) -> u16 {
    (v & 0x7000) >> 12
}

pub open spec fn name_table_index_of(v: u16) -> u16 {
    v & 0x0FFF
}

// Tile and attribute fetching
// https://wiki.nesdev.com/w/index.php/PPU_scrolling#Tile_and_attribute_fetching
//
// NN 1111 YYY XXX
// || |||| ||| +++-- high 3 bits of coarse X (x/4)
// || |||| +++------ high 3 bits of coarse Y (y/4)
// || ++++---------- attribute offset (960 bytes)
// ++--------------- nametable select
pub open spec fn attribute_index_of(v: u16) -> u16 {
    (v & 0x0C00) | ((v >> 4) & 0x38) | ((v >> 2) & 0x07)
}

/// The fields of the address are each within their width, and make it up.
pub proof fn lemma_vram_fields(v: u16)
    by (bit_vector)
    ensures
        coarse_x_of(v) < 32,
        coarse_y_of(v) < 32,
        fine_y_of(v) < 8,
        name_table_index_of(v) < 0x1000,
        attribute_index_of(v) < 0x1000,
        v < 0x8000 ==> v == (fine_y_of(v) << 12) | (v & 0x0C00) | (coarse_y_of(v) << 5)
            | coarse_x_of(v),
{
}

impl VramAddr {
    pub fn new(v: u16) -> (r: Self)
        ensures
            r.0 == v,
    {
        VramAddr(v)
    }

    pub fn u16(&self) -> (r: u16)
        ensures
            r == self.0,
    {
        self.0
    }

    pub fn coarse_x_scroll(&self) -> (r: Word)
        ensures
            r.0 == coarse_x_of(self.0),
            r.0 < 32,
    {
        proof {
            lemma_vram_fields(self.0);
        }
        Word(self.0 & 0x001F)
    }

    pub fn coarse_y_scroll(&self) -> (r: Word)
        ensures
            r.0 == coarse_y_of(self.0),
            r.0 < 32,
    {
        proof {
            lemma_vram_fields(self.0);
        }
        Word((self.0 & 0x03E0) >> 5)
    }

    pub fn fine_y_scroll(&self) -> (r: Byte)
        ensures
            r.0 == fine_y_of(self.0),
            r.0 < 8,
    {
        proof {
            lemma_vram_fields(self.0);
        }
        Byte(((self.0 & 0x7000) >> 12) as u8)
    }

    /// The offset of the tile in the name tables.
    pub fn name_table_address_index(&self) -> (r: Word)
        ensures
            r.0 == name_table_index_of(self.0),
            r.0 < 0x1000,
    {
        proof {
            lemma_vram_fields(self.0);
        }
        Word(self.0 & 0x0FFF)
    }

    pub fn name_table_select(&self) -> (r: Word)
        ensures
            r.0 == self.0 & 0x0C00,
    {
        Word(self.0 & 0x0C00)
    }

    pub fn coarse_x_high(&self) -> (r: Word)
        ensures
            r.0 == (self.0 >> 2) & 0x07,
    {
        Word((self.0 >> 2) & 0x07)
    }

    pub fn coarse_y_high(&self) -> (r: Word)
        ensures
            r.0 == (self.0 >> 4) & 0x38,
    {
        Word((self.0 >> 4) & 0x38)
    }

    /// The offset of the tile's attribute byte in the name tables.
    pub fn attribute_address_index(&self) -> (r: Word)
        ensures
            r.0 == attribute_index_of(self.0),
            r.0 < 0x1000,
    {
        proof {
            lemma_vram_fields(self.0);
        }
        Word(self.name_table_select().0 | self.coarse_y_high().0 | self.coarse_x_high().0)
    }

    /// The address of the tile's name table byte.
    pub fn tile_addr(&self) -> (r: u16)
        ensures
            r == NAME_TABLE_FIRST | name_table_index_of(self.0),
    {
        NAME_TABLE_FIRST | self.name_table_address_index().0
    }

    /// The address of the tile's attribute byte.
    pub fn attr_addr(&self) -> (r: u16)
        ensures
            r == ATTR_TABLE_FIRST | attribute_index_of(self.0),
    {
        ATTR_TABLE_FIRST | self.attribute_address_index().0
    }
}

} // verus!
