use nes::controller::Empty;
use nes::data_unit::{Byte, Word};
use nes::emulator::Emulator;
use nes::interrupt::{Interrupt, BRK, IRQ, NMI, NO_INTERRUPT, RESET};
use nes::nes::Nes;
use nes::ppu;
use nes::ppu::spr::{Oam, Sprite};
use nes::ppu::vram_addr::VramAddr;
use nes::ppu::{to_name_table_addr, to_pallete_addr, Ppu};
use nes::rom::{MapperDefault, Mirroring};
use nes::scanline::{Scan, Scanline};

fn machine() -> Nes<MapperDefault, Empty> {
    Nes::new(0, 0, MapperDefault {}, Empty {}, Empty {})
}

fn image_with(prg: &[(usize, u8)], chr: &[(usize, u8)]) -> Vec<u8> {
    let mut data = vec![0x4E, 0x45, 0x53, 0x1A, 1, 1, 0x01, 0x00];
    data.extend_from_slice(&[0u8; 8]);
    data.extend_from_slice(&[0xEA; 0x4000]);
    data.extend_from_slice(&[0x00; 0x2000]);
    for (at, b) in prg.iter() {
        data[16 + *at] = *b;
    }
    for (at, b) in chr.iter() {
        data[16 + 0x4000 + *at] = *b;
    }
    data
}

#[test]
fn two_writes_to_0x2006_set_v() {
    let mut nes = machine();
    nes.write(0x2006, 0xAB);
    nes.write(0x2006, 0xCD);
    assert_eq!(nes.ppu.v, VramAddr(0x2BCD));
    assert!(!nes.ppu.write_toggle);
}

#[test]
fn palette_entries_are_mirrored() {
    let mut nes = machine();
    for (high, low) in [(0x10u8, 0x00u8), (0x14, 0x04), (0x18, 0x08), (0x1C, 0x0C)] {
        nes.write_ppu(0x3F00 | high as u16, 0x20 | low);
        assert_eq!(nes.read_ppu(0x3F00 | low as u16), 0x20 | low);
        assert_eq!(nes.read_ppu(0x3F00 | high as u16), 0x20 | low);
        nes.write_ppu(0x3F00 | low as u16, 0x30 | low);
        assert_eq!(nes.read_ppu(0x3F00 | high as u16), 0x30 | low);
    }
    // the other entries are their own
    nes.write_ppu(0x3F11, 0x01);
    nes.write_ppu(0x3F01, 0x02);
    assert_eq!(nes.read_ppu(0x3F11), 0x01);
    assert_eq!(to_pallete_addr(0x3F10), 0x00);
    assert_eq!(to_pallete_addr(0x3F1F), 0x1F);
    assert_eq!(to_pallete_addr(0x3F20), 0x00);
    assert_eq!(to_pallete_addr(0x3FF4), 0x04);
}

#[test]
fn name_tables_fold_by_mirroring() {
    assert_eq!(to_name_table_addr(0x2000, &Mirroring::Vertical), 0x000);
    assert_eq!(to_name_table_addr(0x2400, &Mirroring::Vertical), 0x400);
    assert_eq!(to_name_table_addr(0x2800, &Mirroring::Vertical), 0x000);
    assert_eq!(to_name_table_addr(0x2C05, &Mirroring::Vertical), 0x405);
    assert_eq!(to_name_table_addr(0x2000, &Mirroring::Horizontal), 0x000);
    assert_eq!(to_name_table_addr(0x2405, &Mirroring::Horizontal), 0x005);
    assert_eq!(to_name_table_addr(0x2800, &Mirroring::Horizontal), 0x400);
    assert_eq!(to_name_table_addr(0x2C05, &Mirroring::Horizontal), 0x405);
}

#[test]
fn name_table_mirror_at_0x3000() {
    let mut nes = machine();
    nes.write_ppu(0x2123, 0x42);
    assert_eq!(nes.read_ppu(0x3123), 0x42);
    nes.write_ppu(0x3456, 0x43);
    assert_eq!(nes.read_ppu(0x2456), 0x43);
    assert_eq!(nes.read_ppu(0x4000), 0);
}

#[test]
fn reading_status_clears_vblank_and_the_toggle() {
    let mut nes = machine();
    nes.ppu.status.bits = 0xE0;
    nes.ppu.internal_data_bus = 0xFF;
    nes.write(0x2006, 0x12);
    assert!(nes.ppu.write_toggle);
    assert_eq!(nes.read(0x2002), 0xFF);
    assert_eq!(nes.ppu.status.bits, 0x60);
    assert!(!nes.ppu.write_toggle);
    assert_eq!(nes.read(0x2002), 0x7F);
    nes.ppu.internal_data_bus = 0x12;
    assert_eq!(nes.read(0x2002), 0x72);
}

#[test]
fn status_read_at_the_start_of_vblank_hides_bit_seven() {
    let mut nes = machine();
    nes.ppu.status.bits = 0x80;
    nes.ppu.scan = Scan { dot: 1, line: 241, frames: 0 };
    assert_eq!(nes.read(0x2002), 0x00);
    assert_eq!(nes.ppu.status.bits, 0x00);
}

#[test]
fn ppu_data_reads_through_the_buffer() {
    let mut nes = machine();
    nes.write_ppu(0x2100, 0x11);
    nes.write_ppu(0x2101, 0x22);
    nes.write_ppu(0x3F01, 0x33);
    nes.write(0x2006, 0x21);
    nes.write(0x2006, 0x00);
    // the first read gives the old buffer
    assert_eq!(nes.read(0x2007), 0x00);
    assert_eq!(nes.read(0x2007), 0x11);
    assert_eq!(nes.read(0x2007), 0x22);
    assert_eq!(nes.ppu.v, VramAddr(0x2103));
    // the palette is read at once
    nes.write(0x2006, 0x3F);
    nes.write(0x2006, 0x01);
    assert_eq!(nes.read(0x2007), 0x33);
    // steps of 32
    nes.write(0x2000, 0x04);
    nes.write(0x2006, 0x20);
    nes.write(0x2006, 0x00);
    nes.write(0x2007, 0x55);
    assert_eq!(nes.ppu.v, VramAddr(0x2020));
    assert_eq!(nes.read_ppu(0x2000), 0x55);
}

#[test]
fn scroll_writes_fill_t_and_fine_x() {
    let mut ppu = Ppu::new();
    ppu.write_scroll(0b0111_1101);
    assert_eq!(ppu.t, VramAddr(0b0000000_00001111));
    assert_eq!(ppu.fine_x, 0b101);
    assert!(ppu.write_toggle);
    ppu.write_scroll(0b0101_1110);
    assert_eq!(ppu.t, VramAddr(0b1100001_01101111));
    assert!(!ppu.write_toggle);
    ppu.write_controller(0b0000_0011);
    assert_eq!(ppu.t, VramAddr(0b1101101_01101111));
}

#[test]
fn oam_writes_step_the_address() {
    let mut nes = machine();
    nes.write(0x2003, 0xFE);
    nes.write(0x2004, 0x11);
    nes.write(0x2004, 0x22);
    nes.write(0x2004, 0x33);
    assert_eq!(nes.ppu.oam.primary[0xFE], 0x11);
    assert_eq!(nes.ppu.oam.primary[0xFF], 0x22);
    assert_eq!(nes.ppu.oam.primary[0x00], 0x33);
    assert_eq!(nes.ppu.oam_address, 0x01);
    nes.write(0x2003, 0xFF);
    nes.ppu.scan = Scan { dot: 100, line: 10, frames: 0 };
    assert_eq!(nes.read(0x2004), 0x22);
    nes.ppu.scan = Scan { dot: 64, line: 10, frames: 0 };
    assert_eq!(nes.read(0x2004), 0xFF);
}

#[test]
fn vram_addr_fields() {
    // yyy NN YYYYY XXXXX
    let v = VramAddr(0b101_10_11001_00111);
    assert_eq!(v.coarse_x_scroll(), Word(0b00111));
    assert_eq!(v.coarse_y_scroll(), Word(0b11001));
    assert_eq!(v.fine_y_scroll(), Byte(0b101));
    assert_eq!(v.name_table_address_index(), Word(0b10_11001_00111));
    assert_eq!(v.attribute_address_index(), Word(0b10_0000_110_001));
    assert_eq!(v.tile_addr(), 0x2000 | 0b10_11001_00111);
    assert_eq!(v.attr_addr(), 0x23C0 | 0b10_0000_110_001);
}

#[test]
fn coarse_x_and_y_increments_wrap() {
    let mut ppu = Ppu::new();
    ppu.v = VramAddr(0x001E);
    ppu.incr_coarse_x();
    assert_eq!(ppu.v, VramAddr(0x001F));
    ppu.incr_coarse_x();
    assert_eq!(ppu.v, VramAddr(0x0400));

    ppu.v = VramAddr(0x6000);
    ppu.incr_y();
    assert_eq!(ppu.v, VramAddr(0x7000));
    ppu.incr_y();
    assert_eq!(ppu.v, VramAddr(0x0020));
    // row 29 wraps and switches the vertical name table
    ppu.v = VramAddr(0x7000 | (29 << 5));
    ppu.incr_y();
    assert_eq!(ppu.v, VramAddr(0x0800));
    // row 31 wraps without switching
    ppu.v = VramAddr(0x7000 | (31 << 5));
    ppu.incr_y();
    assert_eq!(ppu.v, VramAddr(0x0000));

    ppu.v = VramAddr(0x7FFF);
    ppu.t = VramAddr(0x0000);
    ppu.copy_x();
    assert_eq!(ppu.v, VramAddr(0x7BE0));
    ppu.v = VramAddr(0x7FFF);
    ppu.copy_y();
    assert_eq!(ppu.v, VramAddr(0x041F));
}

#[test]
fn scan_counts_341_dots_and_262_lines() {
    let mut scan = Scan::new();
    for _ in 0..340 {
        scan.next();
    }
    assert_eq!(scan, Scan { dot: 340, line: 0, frames: 0 });
    scan.next();
    assert_eq!(scan, Scan { dot: 0, line: 1, frames: 0 });
    let mut scan = Scan { dot: 340, line: 261, frames: 7 };
    scan.next();
    assert_eq!(scan, Scan { dot: 0, line: 0, frames: 8 });
    let mut scan = Scan { dot: 5, line: 9, frames: 7 };
    scan.clear();
    assert_eq!(scan, Scan { dot: 0, line: 0, frames: 7 });
    scan.skip();
    assert_eq!(scan.dot, 1);
}

#[test]
fn scanline_kinds() {
    assert_eq!(Scanline::from(0), Scanline::Visible);
    assert_eq!(Scanline::from(239), Scanline::Visible);
    assert_eq!(Scanline::from(240), Scanline::Post { nmi: false });
    assert_eq!(Scanline::from(241), Scanline::Post { nmi: true });
    assert_eq!(Scanline::from(260), Scanline::Post { nmi: false });
    assert_eq!(Scanline::from(261), Scanline::Pre);
}

fn dots_of_a_frame(nes: &mut Nes<MapperDefault, Empty>) -> u32 {
    let frame = nes.ppu.scan.frames;
    let mut n = 0;
    while nes.ppu.scan.frames == frame {
        ppu::step(nes);
        n += 1;
    }
    n
}

#[test]
fn odd_frames_are_one_dot_shorter_while_rendering() {
    let mut nes = machine();
    // rendering disabled: every frame has 89342 dots
    assert_eq!(dots_of_a_frame(&mut nes), 89342);
    assert_eq!(dots_of_a_frame(&mut nes), 89342);
    // rendering enabled: odd frames have 89341
    nes.write(0x2001, 0x18);
    assert_eq!(nes.ppu.scan.frames, 2);
    assert_eq!(dots_of_a_frame(&mut nes), 89342);
    assert_eq!(dots_of_a_frame(&mut nes), 89341);
    assert_eq!(dots_of_a_frame(&mut nes), 89342);
    assert_eq!(nes.ppu.scan, Scan { dot: 0, line: 0, frames: 5 });
}

#[test]
fn vblank_latches_nmi_and_the_next_step_serves_it() {
    let data = image_with(
        &[
            // reset vector 0xC000, NMI vector 0xC123
            (0x3FFC, 0x00),
            (0x3FFD, 0xC0),
            (0x3FFA, 0x23),
            (0x3FFB, 0xC1),
        ],
        &[],
    );
    let mut emu = Emulator::new(0, 0, Empty {}, Empty {});
    emu.load_rom_data(data).unwrap();
    // the reset
    emu.step();
    assert_eq!(emu.nes.cpu.pc, 0xC000);
    assert_eq!(emu.nes.interrupt.bits, NO_INTERRUPT);
    // rendering disabled, NMI on vertical blank
    emu.nes.write(0x2001, 0x00);
    emu.nes.write(0x2000, 0x80);
    while !(emu.nes.ppu.scan.line == 241 && emu.nes.ppu.scan.dot >= 2) {
        assert_eq!(emu.nes.interrupt.bits, NO_INTERRUPT);
        emu.step();
    }
    assert_eq!(emu.nes.interrupt.bits, NMI);
    assert_eq!(emu.nes.ppu.status.bits & 0x80, 0x80);
    let pc = emu.nes.cpu.pc;
    let p = emu.nes.cpu.p.bits;
    let s = emu.nes.cpu.s;
    let cycles = emu.nes.cpu.cycles;
    emu.step();
    assert_eq!(emu.nes.interrupt.bits, NO_INTERRUPT);
    assert_eq!(emu.nes.cpu.pc, 0xC123);
    assert_eq!(emu.nes.cpu.s, s.wrapping_sub(3));
    assert_eq!(emu.nes.wram[0x0100 + s as usize], (pc >> 8) as u8);
    assert_eq!(emu.nes.wram[0x0100 + s.wrapping_sub(1) as usize], (pc & 0xFF) as u8);
    assert_eq!(emu.nes.wram[0x0100 + s.wrapping_sub(2) as usize], p | 0x20);
    assert_eq!(emu.nes.cpu.p.bits & 0x04, 0x04);
    assert_eq!(emu.nes.cpu.cycles - cycles, 7);
}

#[test]
fn sprite_zero_hit_is_raised_once_per_frame() {
    // tile 1: every pixel 1
    let mut chr = Vec::new();
    for row in 0..8 {
        chr.push((16 + row, 0xFFu8));
    }
    let data = image_with(&[(0x3FFC, 0x00), (0x3FFD, 0xC0)], &chr);
    let mut emu = Emulator::new(0, 0, Empty {}, Empty {});
    emu.load_rom_data(data).unwrap();
    emu.step();
    // the whole first name table shows tile 1
    emu.nes.write(0x2006, 0x20);
    emu.nes.write(0x2006, 0x00);
    for _ in 0..960 {
        emu.nes.write(0x2007, 0x01);
    }
    emu.nes.write(0x2006, 0x00);
    emu.nes.write(0x2006, 0x00);
    // sprite 0 at x = 10, y = 10, tile 1; the others off the screen
    for i in 0..256usize {
        emu.nes.ppu.oam.primary[i] = 0xF0;
    }
    emu.nes.ppu.oam.primary[0] = 10;
    emu.nes.ppu.oam.primary[1] = 1;
    emu.nes.ppu.oam.primary[2] = 0;
    emu.nes.ppu.oam.primary[3] = 10;
    // background and sprites, also in the leftmost 8 pixels
    emu.nes.write(0x2001, 0x1E);
    emu.step_frame();
    assert_eq!(emu.nes.ppu.status.bits & 0x40, 0x00);
    while emu.nes.ppu.scan.line < 11 {
        assert_eq!(emu.nes.ppu.status.bits & 0x40, 0x00);
        emu.step();
    }
    while emu.nes.ppu.scan.line < 12 {
        emu.step();
    }
    assert_eq!(emu.nes.ppu.status.bits & 0x40, 0x40);
    assert_eq!(emu.nes.read(0x2002) & 0x40, 0x40);
    // the flag stays up until the pre-render line
    while emu.nes.ppu.scan.line < 261 {
        assert_eq!(emu.nes.ppu.status.bits & 0x40, 0x40);
        emu.step();
    }
    while emu.nes.ppu.scan.line != 5 {
        emu.step();
    }
    assert_eq!(emu.nes.ppu.status.bits & 0x40, 0x00);
}

#[test]
fn sprite_rows_and_columns() {
    let s = Sprite { y: 10, tile_index: 0, attr: 0x00, x: 20, low: 0b1000_0001, high: 0b1000_0000 };
    assert!(s.valid());
    assert_eq!(s.row(11, 8), 0);
    assert_eq!(s.row(18, 8), 7);
    assert!(s.covers(20));
    assert!(s.covers(27));
    assert!(!s.covers(28));
    assert!(!s.covers(19));
    assert_eq!(s.col(20), 7);
    assert_eq!(s.col(27), 0);
    assert_eq!(s.pixel(20), 3);
    assert_eq!(s.pixel(27), 1);
    assert_eq!(s.pixel(23), 0);
    let f = Sprite { attr: 0xC0, ..s };
    assert_eq!(f.row(11, 8), 7);
    assert_eq!(f.row(11, 16), 15);
    assert_eq!(f.col(20), 0);
    assert_eq!(f.pixel(20), 1);
    let none = Sprite { y: 0xFF, tile_index: 0xFF, attr: 0xFF, x: 0xFF, low: 0, high: 0 };
    assert!(!none.valid());
}

#[test]
fn sprite_evaluation_finds_the_first_eight() {
    let mut ppu = Ppu::new();
    for i in 0..64usize {
        ppu.oam.primary[4 * i] = 0xF0;
        ppu.oam.primary[4 * i + 1] = i as u8;
    }
    // ten sprites on line 20, sprite 0 not among them
    for i in [3usize, 5, 6, 9, 12, 20, 21, 22, 40, 41] {
        ppu.oam.primary[4 * i] = 15;
    }
    ppu.mask.bits = 0x18;
    ppu.scan = Scan { dot: 65, line: 20, frames: 0 };
    ppu.eval_sprites();
    let found: Vec<u8> = (0..8).map(|n| ppu.oam.secondary[4 * n + 1]).collect();
    assert_eq!(found, vec![3, 5, 6, 9, 12, 20, 21, 22]);
    assert!(!ppu.sprite_zero_found);
    assert_eq!(ppu.status.bits & 0x20, 0x20);

    // two sprites, sprite 0 among them
    for i in 0..64usize {
        ppu.oam.primary[4 * i] = 0xF0;
    }
    ppu.oam.primary[0] = 20;
    ppu.oam.primary[4 * 7] = 13;
    ppu.eval_sprites();
    assert_eq!(ppu.oam.secondary[1], 0);
    assert_eq!(ppu.oam.secondary[5], 7);
    assert_eq!(ppu.oam.secondary[8], 0xFF);
    assert!(ppu.sprite_zero_found);
    assert_eq!(ppu.status.bits & 0x20, 0x00);
}

#[test]
fn oam_starts_empty() {
    let mut oam = Oam::new();
    assert!(oam.primary.iter().all(|b| *b == 0));
    assert!(oam.secondary.iter().all(|b| *b == 0xFF));
    oam.secondary[3] = 1;
    oam.clear();
    assert!(oam.secondary.iter().all(|b| *b == 0xFF));
}

#[test]
fn power_on_and_reset_of_the_picture_unit() {
    let mut nes = machine();
    nes.write_ppu(0x2000, 0x12);
    nes.write(0x2000, 0x80);
    nes.write(0x2006, 0x21);
    nes.write(0x2006, 0x08);
    nes.ppu.scan = Scan { dot: 3, line: 4, frames: 5 };
    nes.ppu.reset();
    assert_eq!(nes.ppu.controller.bits, 0);
    assert_eq!(nes.ppu.v, VramAddr(0x2108));
    assert_eq!(nes.ppu.scan, Scan { dot: 0, line: 0, frames: 0 });
    assert_eq!(nes.read_ppu(0x2000), 0x12);
    nes.ppu.power_on();
    assert_eq!(nes.ppu.v, VramAddr(0));
    assert_eq!(nes.ppu.t, VramAddr(0));
    assert_eq!(nes.read_ppu(0x2000), 0x00);
}

#[test]
fn interrupt_latch_gives_the_highest_pending() {
    let mut latch = Interrupt::new();
    assert_eq!(latch.get().bits, NO_INTERRUPT);
    latch.insert(BRK);
    assert_eq!(latch.get().bits, BRK);
    latch.insert(IRQ);
    assert_eq!(latch.get().bits, IRQ);
    latch.insert(NMI);
    assert_eq!(latch.get().bits, NMI);
    latch.insert(RESET);
    assert_eq!(latch.get().bits, RESET);
    assert_eq!(latch.bits, 0x0F);
    latch.remove(RESET);
    assert_eq!(latch.get().bits, NMI);
    assert!(latch.contains(IRQ));
}
