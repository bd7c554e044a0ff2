//! Cartridges: the mapper interface, the iNES container and mapper 0.

pub mod inesfile;
pub mod mapper_0;

use vstd::prelude::*;
use crate::data_unit::{Byte, Word};
use crate::rom::inesfile::{chr_data, flag6_of, mapper_number, parse_error, prg_data, INESFile};
use crate::rom::mapper_0::Mapper0;

verus! {

/// How the four logical name tables fold onto the two physical ones.
#[derive(Clone, Copy, Debug, PartialEq, Eq, Structural)]
pub enum Mirroring {
    Vertical,
    Horizontal,
}

/// What a cartridge does on the CPU and PPU buses. The spec functions say
/// what each operation returns and does to the mapper.
pub trait Mapper: Sized {
    /// The byte that a read of `addr` returns.
    spec fn peek(&self, addr: u16) -> u8;

    /// The mapper after a read of `addr`.
    spec fn after_read(&self, addr: u16) -> Self;

    /// The mapper after `value` was written to `addr`.
    spec fn after_write(&self, addr: u16, value: u8) -> Self;

    /// The mirroring mode.
    spec fn mirroring_mode(&self) -> Mirroring;

    fn read(&mut self, addr: Word) -> (r: Byte)
        ensures
            r.0 == old(self).peek(addr.0),
            *final(self) == old(self).after_read(addr.0),
    ;

    fn write(&mut self, addr: Word, value: Byte)
        ensures
            *final(self) == old(self).after_write(addr.0, value.0),
    ;

    fn mirroring(&self) -> (r: Mirroring)
        ensures
            r == self.mirroring_mode(),
    ;
}

/// The empty slot: reads give 0, writes are lost, mirroring is vertical.
#[derive(Clone, Copy, Debug, PartialEq, Eq, Structural)]
pub struct MapperDefault {}

impl Mapper for MapperDefault {
    open spec fn peek(&self, addr: u16) -> u8 {
        0
    }

    open spec fn after_read(&self, addr: u16) -> Self {
        *self
    }

    open spec fn after_write(&self, addr: u16, value: u8) -> Self {
        *self
    }

    open spec fn mirroring_mode(&self) -> Mirroring {
        Mirroring::Vertical
    }

    fn read(&mut self, addr: Word) -> (r: Byte) {
        Byte(0)
    }

    fn write(&mut self, addr: Word, value: Byte) {
    }

    fn mirroring(&self) -> (r: Mirroring) {
        Mirroring::Vertical
    }
}

/// What can sit in the cartridge slot.
pub enum Cartridge {
    Empty(MapperDefault),
    Nrom(Mapper0),
}

impl Mapper for Cartridge {
    open spec fn peek(&self, addr: u16) -> u8 {
        match *self {
            Cartridge::Empty(m) => m.peek(addr),
            Cartridge::Nrom(m) => m.peek(addr),
        }
    }

    open spec fn after_read(&self, addr: u16) -> Self {
        match *self {
            Cartridge::Empty(m) => Cartridge::Empty(m.after_read(addr)),
            Cartridge::Nrom(m) => Cartridge::Nrom(m.after_read(addr)),
        }
    }

    open spec fn after_write(&self, addr: u16, value: u8) -> Self {
        match *self {
            Cartridge::Empty(m) => Cartridge::Empty(m.after_write(addr, value)),
            Cartridge::Nrom(m) => Cartridge::Nrom(m.after_write(addr, value)),
        }
    }

    open spec fn mirroring_mode(&self) -> Mirroring {
        match *self {
            Cartridge::Empty(m) => m.mirroring_mode(),
            Cartridge::Nrom(m) => m.mirroring_mode(),
        }
    }

    fn read(&mut self, addr: Word) -> (r: Byte) {
        match self {
            Cartridge::Empty(m) => m.read(addr),
            Cartridge::Nrom(m) => m.read(addr),
        }
    }

    fn write(&mut self, addr: Word, value: Byte) {
        match self {
            Cartridge::Empty(m) => m.write(addr, value),
            Cartridge::Nrom(m) => m.write(addr, value),
        }
    }

    fn mirroring(&self) -> (r: Mirroring) {
        match self {
            Cartridge::Empty(m) => m.mirroring(),
            Cartridge::Nrom(m) => m.mirroring(),
        }
    }
}

/// Why a ROM image was refused.
#[derive(Clone, Copy, Debug, PartialEq, Eq, Structural)]
pub enum CartridgeError {
    /// The image does not start with `NES\x1A`.
    BadMagic,
    /// The image ends before the data that its header announces.
    Truncated,
    /// The image asks for a mapper other than 0.
    NotSupportedMapper(u8),
}

/// A ROM image ready for the cartridge slot.
pub struct Rom {
    pub mapper_no: u8,
    pub mapper: Cartridge,
}

impl Rom {
    /// Reads an iNES image. Fails as the parser fails; fails with
    /// `NotSupportedMapper` where the image parses and names a mapper other
    /// than 0; else gives mapper 0 over the image's PRG and CHR data.
    pub fn from_data(data: Vec<u8>) -> (r: Result<Self, CartridgeError>)
        ensures
            match parse_error(data@) {
                Some(e) => r == Err::<Self, CartridgeError>(e),
                None => if mapper_number(data@) != 0 {
                    r == Err::<Self, CartridgeError>(
                        CartridgeError::NotSupportedMapper(mapper_number(data@)),
                    )
                } else {
                    &&& r matches Ok(rom)
                    &&& rom.mapper_no == 0
                    &&& rom.mapper matches Cartridge::Nrom(m)
                    &&& m.holds(prg_data(data@), chr_data(data@), flag6_of(data@))
                },
            },
    {
        match INESFile::parse(data.as_slice()) {
            Err(e) => Err(e),
            Ok(ines) => {
                let mapper_no = ines.mapper;
                if mapper_no != 0 {
                    Err(CartridgeError::NotSupportedMapper(mapper_no))
                } else {
                    Ok(Rom { mapper_no, mapper: Cartridge::Nrom(Mapper0::new(ines)) })
                }
            },
        }
    }
}

} // verus!
