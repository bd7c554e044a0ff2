//! The iNES container: a 16-byte header, an optional 512-byte trainer, the
//! PRG ROM in 16 KiB units and the CHR ROM in 8 KiB units.

use vstd::prelude::*;
use vstd::slice::{slice_subrange, slice_to_vec};
use crate::rom::CartridgeError;

verus! {

pub const HEADER_LEN: usize = 16;
pub const TRAINER_LEN: usize = 512;
pub const PRG_UNIT: usize = 0x4000;
pub const CHR_UNIT: usize = 0x2000;
pub const PRG_RAM_UNIT: u32 = 0x2000;

/// Flag 6: the name tables are mirrored vertically.
pub const MIRRORING_VERTICAL: u8 = 0x01;
/// Flag 6: the cartridge has battery-backed PRG RAM.
pub const BATTERY_BACKED_PRG_RAM: u8 = 0x02;
/// Flag 6: a trainer stands between the header and the PRG ROM.
pub const TRAINER: u8 = 0x04;
/// Flag 6: the cartridge provides four-screen VRAM.
pub const FOUR_SCREEN_VRAM: u8 = 0x08;
/// Flag 7: the NES 2.0 marker, when these two bits read `10`.
pub const NES2_FORMAT: u8 = 0x0C;

/// Whether `data` starts with `NES\x1A`.
pub open spec fn has_magic(data: Seq<u8>) -> bool {
    &&& data.len() >= 4
    &&& data[0] == 0x4E
    &&& data[1] == 0x45
    &&& data[2] == 0x53
    &&& data[3] == 0x1A
}

pub open spec fn flag6_of(data: Seq<u8>) -> u8 {
    data[6]
}

/// Where the PRG ROM starts: behind the header and the trainer, if any.
pub open spec fn prg_start(data: Seq<u8>) -> int {
    if data[6] & TRAINER != 0 {
        HEADER_LEN + TRAINER_LEN
    } else {
        HEADER_LEN as int
    }
}

pub open spec fn prg_len(data: Seq<u8>) -> int {
    data[4] * PRG_UNIT
}

pub open spec fn chr_len(data: Seq<u8>) -> int {
    data[5] * CHR_UNIT
}

/// The length that the header announces for the whole image.
pub open spec fn image_len(data: Seq<u8>) -> int {
    prg_start(data) + prg_len(data) + chr_len(data)
}

/// The mapper number: the high nibble of flag 7 over the high nibble of flag 6.
pub open spec fn mapper_number(data: Seq<u8>) -> u8 {
    (data[7] & 0xF0) | (data[6] >> 4)
}

pub open spec fn prg_data(data: Seq<u8>) -> Seq<u8> {
    data.subrange(prg_start(data), prg_start(data) + prg_len(data))
}

pub open spec fn chr_data(data: Seq<u8>) -> Seq<u8> {
    data.subrange(prg_start(data) + prg_len(data), image_len(data))
}

/// Why `data` is no iNES image, or `None` if it is one.
pub open spec fn parse_error(data: Seq<u8>) -> Option<CartridgeError> {
    if data.len() < 4 {
        Some(CartridgeError::Truncated)
    } else if !has_magic(data) {
        Some(CartridgeError::BadMagic)
    } else if data.len() < HEADER_LEN {
        Some(CartridgeError::Truncated)
    } else if data.len() < image_len(data) {
        Some(CartridgeError::Truncated)
    } else {
        None
    }
}

/// A parsed iNES image.
pub struct INESFile {
    pub prg_rom_unit_size: u8,
    pub chr_rom_unit_size: u8,
    pub flag6: u8,
    pub flag7: u8,
    pub flag8: u8,
    pub flag9: u8,
    pub flag10: u8,
    pub prg_rom: Vec<u8>,
    pub chr_rom: Vec<u8>,
    pub mapper: u8,
    pub prg_ram_size: u32,
}

impl INESFile {
    /// Whether this is what the image `data` holds.
    pub open spec fn describes(&self, data: Seq<u8>) -> bool {
        &&& self.prg_rom_unit_size == data[4]
        &&& self.chr_rom_unit_size == data[5]
        &&& self.flag6 == data[6]
        &&& self.flag7 == data[7]
        &&& self.flag8 == data[8]
        &&& self.flag9 == data[9]
        &&& self.flag10 == data[10]
        &&& self.prg_rom@ == prg_data(data)
        &&& self.chr_rom@ == chr_data(data)
        &&& self.mapper == mapper_number(data)
        &&& self.prg_ram_size == (if data[8] > 0 {
            data[8] * PRG_RAM_UNIT
        } else {
            PRG_RAM_UNIT as int
        })
    }

    /// Parses an iNES image. Fails exactly where `parse_error` names an error.
    pub fn parse(data: &[u8]) -> (r: Result<Self, CartridgeError>)
        ensures
            match parse_error(data@) {
                Some(e) => r == Err::<Self, CartridgeError>(e),
                None => r is Ok && r->Ok_0.describes(data@),
            },
    {
        if data.len() < 4 {
            return Err(CartridgeError::Truncated);
        }
        if data[0] != 0x4E || data[1] != 0x45 || data[2] != 0x53 || data[3] != 0x1A {
            return Err(CartridgeError::BadMagic);
        }
        if data.len() < HEADER_LEN {
            return Err(CartridgeError::Truncated);
        }
        let prg_rom_unit_size = data[4];
        let chr_rom_unit_size = data[5];
        let flag6 = data[6];
        let flag7 = data[7];
        let flag8 = data[8];
        let start: usize = if flag6 & TRAINER != 0 {
            HEADER_LEN + TRAINER_LEN
        } else {
            HEADER_LEN
        };
        let prg_end: usize = start + (prg_rom_unit_size as usize) * PRG_UNIT;
        let chr_end: usize = prg_end + (chr_rom_unit_size as usize) * CHR_UNIT;
        if data.len() < chr_end {
            return Err(CartridgeError::Truncated);
        }
        let prg_rom = slice_to_vec(slice_subrange(data, start, prg_end));
        let chr_rom = slice_to_vec(slice_subrange(data, prg_end, chr_end));
        let prg_ram_size: u32 = if 0 < flag8 {
            (flag8 as u32) * PRG_RAM_UNIT
        } else {
            PRG_RAM_UNIT
        };
        Ok(
            INESFile {
                prg_rom_unit_size,
                chr_rom_unit_size,
                flag6,
                flag7,
                flag8,
                flag9: data[9],
                flag10: data[10],
                prg_rom,
                chr_rom,
                mapper: (flag7 & 0xF0) | (flag6 >> 4),
                prg_ram_size,
            },
        )
    }
}

} // verus!
