use nes::bus::OAMDMA;
use nes::controller::{Controller, Empty, StandardController};
use nes::data_unit::Byte;
use nes::nes::{to_ppu_addr, Nes};
use nes::rom::MapperDefault;

fn machine() -> Nes<MapperDefault, Empty> {
    Nes::new(0, 0, MapperDefault {}, Empty {}, Empty {})
}

#[test]
fn work_ram_is_mirrored_every_0x0800() {
    let mut nes = machine();
    nes.write(0x0001, 0xAA);
    assert_eq!(nes.read(0x0801), 0xAA);
    assert_eq!(nes.read(0x1001), 0xAA);
    assert_eq!(nes.read(0x1801), 0xAA);
    nes.write(0x1FFF, 0xBB);
    assert_eq!(nes.read(0x07FF), 0xBB);
    assert_eq!(nes.cpu.cycles, 6);
}

#[test]
fn ppu_registers_repeat_every_eight_bytes() {
    assert_eq!(to_ppu_addr(0x2000), 0x2000);
    assert_eq!(to_ppu_addr(0x2007), 0x2007);
    assert_eq!(to_ppu_addr(0x2008), 0x2000);
    assert_eq!(to_ppu_addr(0x3FFE), 0x2006);
}

#[test]
fn unmapped_reads_give_zero() {
    let mut nes = machine();
    assert_eq!(nes.read(0x4018), 0);
    assert_eq!(nes.read(0x401F), 0);
    assert_eq!(nes.read(0x8000), 0);
    nes.write(0x4018, 0x11);
    assert_eq!(nes.read(0x4018), 0);
}

#[test]
fn oam_dma_takes_513_cycles_from_an_even_cycle() {
    let mut nes = machine();
    for i in 0..256usize {
        nes.wram[0x0200 + i] = (i as u8).wrapping_mul(3).wrapping_add(1);
    }
    assert_eq!(nes.cpu.cycles % 2, 0);
    let before = nes.cpu.cycles;
    nes.write(OAMDMA, 0x02);
    assert_eq!(nes.cpu.cycles - before, 513);
    for i in 0..256usize {
        assert_eq!(nes.ppu.oam.primary[i], nes.wram[0x0200 + i]);
    }
}

#[test]
fn oam_dma_takes_514_cycles_from_an_odd_cycle() {
    let mut nes = machine();
    nes.tick();
    let before = nes.cpu.cycles;
    nes.write(OAMDMA, 0x02);
    assert_eq!(nes.cpu.cycles - before, 514);
}

#[test]
fn read_word_and_indirect_read() {
    let mut nes = machine();
    nes.wram[0x02FF] = 0xCD;
    nes.wram[0x0300] = 0xAB;
    nes.wram[0x0200] = 0xEF;
    assert_eq!(nes.read_word(0x02FF), 0xABCD);
    assert_eq!(nes.read_on_indirect(0x02FF), 0xEFCD);
    assert_eq!(nes.read_on_indirect(0x0200), 0x00EF);
}

#[test]
fn standard_controller_shifts_out_its_buttons() {
    let mut pad = StandardController::new();
    pad.update(Byte(0b1010_0101));
    pad.write(Byte(1));
    // while strobing, every read gives button A
    assert_eq!(pad.read(), Byte(0x41));
    assert_eq!(pad.read(), Byte(0x41));
    pad.write(Byte(0));
    let expected = [1u8, 0, 1, 0, 0, 1, 0, 1];
    for e in expected.iter() {
        assert_eq!(pad.read(), Byte(0x40 | e));
    }
    // shifted out
    assert_eq!(pad.read(), Byte(0x40));
}

#[test]
fn write_to_0x4016_strobes_both_controllers() {
    let mut nes: Nes<MapperDefault, StandardController> = Nes::new(
        0,
        0,
        MapperDefault {},
        StandardController::new(),
        StandardController::new(),
    );
    nes.controller_1.update(Byte(0x01));
    nes.controller_2.update(Byte(0x02));
    nes.write(0x4016, 1);
    nes.write(0x4016, 0);
    assert_eq!(nes.read(0x4016), 0x41);
    assert_eq!(nes.read(0x4017), 0x40);
    assert_eq!(nes.read(0x4016), 0x40);
    assert_eq!(nes.read(0x4017), 0x41);
}

#[test]
fn empty_port_reads_zero() {
    let mut port = Empty {};
    port.write(Byte(1));
    port.update(Byte(0xFF));
    assert_eq!(port.read(), Byte(0));
}
