use nes::data_unit::{Byte, Word};
use nes::emulator::Emulator;
use nes::controller::{Empty, StandardController};
use nes::rom::inesfile::INESFile;
use nes::rom::mapper_0::Mapper0;
use nes::rom::{Cartridge, CartridgeError, Mapper, MapperDefault, Mirroring, Rom};

fn image(prg_units: u8, chr_units: u8, flag6: u8, flag7: u8) -> Vec<u8> {
    let mut data = vec![0x4E, 0x45, 0x53, 0x1A, prg_units, chr_units, flag6, flag7];
    data.extend_from_slice(&[0u8; 8]);
    if flag6 & 0x04 != 0 {
        data.extend_from_slice(&[0xEE; 512]);
    }
    for i in 0..(prg_units as usize * 0x4000) {
        data.push((i % 251) as u8);
    }
    for i in 0..(chr_units as usize * 0x2000) {
        data.push((i % 241) as u8 ^ 0xFF);
    }
    data
}

#[test]
fn parse_reads_header_and_banks() {
    let data = image(1, 1, 0x01, 0x00);
    let ines = INESFile::parse(&data).unwrap();
    assert_eq!(ines.prg_rom_unit_size, 1);
    assert_eq!(ines.chr_rom_unit_size, 1);
    assert_eq!(ines.prg_rom.len(), 0x4000);
    assert_eq!(ines.chr_rom.len(), 0x2000);
    assert_eq!(ines.mapper, 0);
    assert_eq!(ines.prg_ram_size, 0x2000);
    assert_eq!(ines.prg_rom[0], 0);
    assert_eq!(ines.prg_rom[252], 1);
    assert_eq!(ines.chr_rom[0], 0xFF);
}

#[test]
fn parse_skips_the_trainer() {
    let data = image(2, 1, 0x04, 0x00);
    let ines = INESFile::parse(&data).unwrap();
    assert_eq!(ines.prg_rom.len(), 0x8000);
    assert_eq!(ines.prg_rom[0], 0);
    assert_eq!(ines.prg_rom[1], 1);
    assert_eq!(ines.chr_rom[0], 0xFF);
}

#[test]
fn parse_joins_the_mapper_nibbles() {
    let data = image(1, 1, 0x10, 0x40);
    let ines = INESFile::parse(&data).unwrap();
    assert_eq!(ines.mapper, 0x41);
}

#[test]
fn parse_sizes_the_prg_ram() {
    let mut data = image(1, 0, 0, 0);
    data[8] = 3;
    let ines = INESFile::parse(&data).unwrap();
    assert_eq!(ines.flag8, 3);
    assert_eq!(ines.prg_ram_size, 0x6000);
}

#[test]
fn parse_refuses_bad_magic() {
    let mut data = image(1, 1, 0, 0);
    data[3] = 0x1B;
    assert!(matches!(INESFile::parse(&data), Err(CartridgeError::BadMagic)));
}

#[test]
fn parse_refuses_truncated_data() {
    let data = image(1, 1, 0, 0);
    assert!(matches!(INESFile::parse(&data[..3]), Err(CartridgeError::Truncated)));
    assert!(matches!(INESFile::parse(&data[..10]), Err(CartridgeError::Truncated)));
    assert!(matches!(INESFile::parse(&data[..data.len() - 1]), Err(CartridgeError::Truncated)));
    assert!(INESFile::parse(&data).is_ok());
}

#[test]
fn rom_refuses_other_mappers() {
    let data = image(1, 1, 0x10, 0x00);
    assert!(matches!(Rom::from_data(data), Err(CartridgeError::NotSupportedMapper(1))));
    let data = image(1, 1, 0x00, 0x00);
    let rom = Rom::from_data(data).unwrap();
    assert_eq!(rom.mapper_no, 0);
    assert!(matches!(rom.mapper, Cartridge::Nrom(_)));
}

#[test]
fn mapper_0_mirrors_a_single_prg_bank() {
    let ines = INESFile::parse(&image(1, 1, 0x01, 0)).unwrap();
    let mut m = Mapper0::new(ines);
    assert!(m.mirrored);
    assert_eq!(m.prg_addr(0x8000), 0);
    assert_eq!(m.prg_addr(0xC000), 0);
    assert_eq!(m.prg_addr(0xFFFF), 0x3FFF);
    assert_eq!(m.read(Word(0x8001)), Byte(1));
    assert_eq!(m.read(Word(0xC001)), Byte(1));
    assert_eq!(m.read(Word(0x0000)), Byte(0xFF));
    assert_eq!(m.read(Word(0x6000)), Byte(0));
    assert_eq!(m.mirroring(), Mirroring::Vertical);
}

#[test]
fn mapper_0_maps_two_prg_banks_directly() {
    let ines = INESFile::parse(&image(2, 1, 0x00, 0)).unwrap();
    let mut m = Mapper0::new(ines);
    assert!(!m.mirrored);
    assert_eq!(m.prg_addr(0xC000), 0x4000);
    assert_eq!(m.read(Word(0xC000)), Byte((0x4000 % 251) as u8));
    assert_eq!(m.mirroring(), Mirroring::Horizontal);
}

#[test]
fn mapper_0_writes_reach_chr_ram_only() {
    let ines = INESFile::parse(&image(1, 1, 0, 0)).unwrap();
    let mut rom = Mapper0::new(ines);
    let before = rom.read(Word(0x0010));
    rom.write(Word(0x0010), Byte(0x5A));
    assert_eq!(rom.read(Word(0x0010)), before);

    let ines = INESFile::parse(&image(1, 0, 0, 0)).unwrap();
    let mut ram = Mapper0::new(ines);
    assert!(ram.chr_ram);
    assert_eq!(ram.read(Word(0x0010)), Byte(0));
    ram.write(Word(0x0010), Byte(0x5A));
    assert_eq!(ram.read(Word(0x0010)), Byte(0x5A));
    ram.write(Word(0x8000), Byte(0x5A));
    assert_eq!(ram.read(Word(0x8000)), Byte(0));
}

#[test]
fn default_mapper_reads_zero() {
    let mut m = MapperDefault {};
    m.write(Word(0x8000), Byte(7));
    assert_eq!(m.read(Word(0x8000)), Byte(0));
    assert_eq!(m.mirroring(), Mirroring::Vertical);
}

#[test]
fn emulator_loads_a_rom_and_runs_a_frame() {
    let mut data = image(1, 1, 0x01, 0x00);
    // an endless loop at 0xC000: JMP $C000; the reset vector points at it
    let prg = 16;
    data[prg] = 0x4C;
    data[prg + 1] = 0x00;
    data[prg + 2] = 0xC0;
    data[prg + 0x3FFC] = 0x00;
    data[prg + 0x3FFD] = 0xC0;
    let mut emu = Emulator::new(40, 7458, Empty {}, Empty {});
    assert!(emu.load_rom_data(data).is_ok());
    assert_eq!(emu.nes.ppu.scan.frames, 0);
    emu.step_frame();
    assert_eq!(emu.nes.ppu.scan.frames, 1);
    assert_eq!(emu.nes.cpu.pc & 0xFFF0, 0xC000);
    // about 29780 CPU cycles make a frame
    assert!(emu.nes.cpu.cycles > 29700 && emu.nes.cpu.cycles < 29900);
    emu.step_frame();
    assert_eq!(emu.nes.ppu.scan.frames, 2);
    let samples = emu.take_samples();
    assert!(samples.len() > 1400 && samples.len() < 1500);
    assert_eq!(emu.nes.apu.sample_count, 0);
    assert_eq!(emu.current_buffer().len(), 61440);
}

#[test]
fn emulator_keeps_its_state_when_the_image_is_refused() {
    let mut emu = Emulator::new(40, 7458, Empty {}, Empty {});
    let mut data = image(1, 1, 0, 0);
    data[0] = 0;
    assert!(matches!(emu.load_rom_data(data), Err(CartridgeError::BadMagic)));
    assert!(matches!(emu.nes.mapper, Cartridge::Empty(_)));
    assert_eq!(emu.nes.interrupt.bits, 0);
}

#[test]
fn inserting_a_cartridge_resets_the_machine() {
    let mut data = image(1, 1, 0x00, 0x00);
    data[16 + 0x3FFC] = 0x34;
    data[16 + 0x3FFD] = 0xC2;
    let rom = Rom::from_data(data).unwrap();
    let mut emu = Emulator::new(40, 7458, Empty {}, Empty {});
    emu.nes.cpu.s = 0xFF;
    emu.insert_cartridge(rom);
    assert_eq!(emu.nes.cpu.pc, 0xC234);
    assert_eq!(emu.nes.cpu.s, 0xFC);
    assert_eq!(emu.nes.cpu.p.bits & 0x04, 0x04);
    assert_eq!(emu.nes.cpu.cycles, 7);
    assert_eq!(emu.nes.ppu.mirroring, Mirroring::Horizontal);
}

#[test]
fn power_on_then_clear_asks_for_a_reset() {
    let mut emu = Emulator::new(40, 7458, Empty {}, Empty {});
    emu.nes.wram[5] = 9;
    emu.nes.ppu.v = nes::ppu::vram_addr::VramAddr(0x1234);
    emu.power_on();
    assert_eq!(emu.nes.cpu.s, 0xFD);
    assert_eq!(emu.nes.cpu.p.bits, 0x34);
    assert_eq!(emu.nes.ppu.v, nes::ppu::vram_addr::VramAddr(0));
    assert_eq!(emu.nes.wram[5], 9);
    emu.nes.interrupt.insert(nes::interrupt::NMI);
    emu.nes.clear();
    assert_eq!(emu.nes.interrupt.bits, nes::interrupt::RESET);
    assert_eq!(emu.nes.wram[5], 0);
}

#[test]
fn set_rom_takes_the_mirroring_of_the_cartridge() {
    let rom = Rom::from_data(image(1, 1, 0x00, 0x00)).unwrap();
    let mut emu = Emulator::new(0, 0, Empty {}, Empty {});
    assert_eq!(emu.nes.ppu.mirroring, Mirroring::Vertical);
    emu.nes.set_rom(rom);
    assert_eq!(emu.nes.ppu.mirroring, Mirroring::Horizontal);
    assert!(matches!(emu.nes.mapper, Cartridge::Nrom(_)));
}

#[test]
fn controllers_are_updated_through_the_emulator() {
    let mut emu = Emulator::new(0, 0, StandardController::new(), StandardController::new());
    emu.update_controller_1(0x81);
    emu.update_controller_2(0x42);
    assert_eq!(emu.nes.controller_1.state, 0x81);
    assert_eq!(emu.nes.controller_2.state, 0x42);
    let mut pad = StandardController::new();
    pad.state = 7;
    emu.set_controllers(pad, StandardController::new());
    assert_eq!(emu.nes.controller_1.state, 7);
    assert_eq!(emu.nes.controller_2.state, 0);
}
