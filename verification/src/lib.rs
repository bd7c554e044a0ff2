//! Core of a cycle-counting NES emulator: the 6502-family CPU, the picture
//! and audio units, the cartridge mapper and the bus that ties them together.
//! Every executable function carries a contract over the machine state.

pub mod apu;
pub mod bus;
pub mod controller;
pub mod cpu;
pub mod data_unit;
pub mod emulator;
pub mod interrupt;
pub mod nes;
pub mod ppu;
pub mod rom;
pub mod scanline;
pub mod trace;
