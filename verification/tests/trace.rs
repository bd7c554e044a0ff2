use nes::controller::StandardController;
use nes::cpu::{AddressingMode, Mnemonic};
use nes::data_unit::Byte;
use nes::nes::Nes;
use nes::rom::{Cartridge, Rom};
use nes::trace::{
    decode_address, is_undocumented, mnemonic_name, operand_code, to_assembly_code, Operands,
    Trace,
};

fn machine(program: &[(u16, &[u8])]) -> Nes<Cartridge, StandardController> {
    let mut data = vec![0x4E, 0x45, 0x53, 0x1A, 1, 1, 0x00, 0x00];
    data.extend_from_slice(&[0u8; 8]);
    data.extend_from_slice(&[0xEA; 0x4000]);
    data.extend_from_slice(&[0x00; 0x2000]);
    for (at, bytes) in program.iter() {
        for (i, b) in bytes.iter().enumerate() {
            data[16 + (*at as usize - 0xC000) + i] = *b;
        }
    }
    let rom = Rom::from_data(data).unwrap();
    let mut nes = Nes::new(
        0,
        0,
        rom.mapper,
        StandardController::new(),
        StandardController::new(),
    );
    nes.power_on();
    nes
}

#[test]
fn trace_lines_of_the_first_instructions() {
    let mut nes = machine(&[
        (0xC000, &[0x4C, 0xF5, 0xC5]),
        (0xC5F5, &[0xA2, 0x00, 0x86, 0x00, 0x86, 0x10, 0x86, 0x11, 0x20, 0x2D, 0xC7]),
        (0xC72D, &[0xEA, 0x38, 0xB0, 0x04]),
        (0xC735, &[0xEA]),
    ]);
    nes.nestest_init();
    let expected = [
        "C000  4C F5 C5  JMP $C5F5                       A:00 X:00 Y:00 P:24 SP:FD CYC:7",
        "C5F5  A2 00     LDX #$00                        A:00 X:00 Y:00 P:24 SP:FD CYC:10",
        "C5F7  86 00     STX $00 = 00                    A:00 X:00 Y:00 P:26 SP:FD CYC:12",
        "C5F9  86 10     STX $10 = 00                    A:00 X:00 Y:00 P:26 SP:FD CYC:15",
        "C5FB  86 11     STX $11 = 00                    A:00 X:00 Y:00 P:26 SP:FD CYC:18",
        "C5FD  20 2D C7  JSR $C72D                       A:00 X:00 Y:00 P:26 SP:FD CYC:21",
        "C72D  EA        NOP                             A:00 X:00 Y:00 P:26 SP:FB CYC:27",
        "C72E  38        SEC                             A:00 X:00 Y:00 P:26 SP:FB CYC:29",
        "C72F  B0 04     BCS $C735                       A:00 X:00 Y:00 P:27 SP:FB CYC:31",
        "C735  EA        NOP                             A:00 X:00 Y:00 P:27 SP:FB CYC:34",
    ];
    for line in expected.iter() {
        let trace = nes.nestest_step();
        assert_eq!(trace.to_string(), *line);
    }
    // three dots for every cycle
    assert_eq!(nes.cpu.cycles, 36);
    assert_eq!(nes.ppu.scan.dot as u64 + nes.ppu.scan.line as u64 * 341, 36 * 3);
}

#[test]
fn nestest_runs_until_the_end_cycle() {
    let mut nes = machine(&[]);
    let traces = nes.nestest();
    assert!(nes.cpu.cycles > 26554);
    assert_eq!(traces.len(), 13274);
    assert_eq!(
        traces[0].to_string(),
        "C000  EA        NOP                             A:00 X:00 Y:00 P:24 SP:FD CYC:7"
    );
    assert_eq!(traces[13273].cycle, 26553);
    assert_eq!(traces[13273].pc, 0xC000 + 13273);
}

#[test]
fn trace_takes_the_registers() {
    let mut nes = machine(&[(0xC000, &[0xB1, 0x80])]);
    nes.cpu.pc = 0xC000;
    nes.cpu.a = 0x12;
    nes.cpu.x = 0x34;
    nes.cpu.y = 0x02;
    nes.cpu.s = 0xF0;
    nes.cpu.cycles = 1234567;
    nes.wram[0x0080] = 0xFF;
    nes.wram[0x0081] = 0x02;
    nes.wram[0x0301] = 0x5A;
    let trace = Trace::new(&mut nes);
    assert_eq!(trace.pc, 0xC000);
    assert_eq!(trace.operation, 0xB1);
    assert_eq!(trace.operand_1, 0x80);
    assert_eq!(trace.operand_2, 0xEA);
    assert_eq!(trace.mnemonic, Mnemonic::LDA);
    assert_eq!(trace.addressing_mode, AddressingMode::IndirectIndexed);
    assert_eq!(trace.assembly_code, " LDA ($80),Y = 02FF @ 0301 = 5A  ");
    assert_eq!(
        trace.to_string(),
        "C000  B1 80     LDA ($80),Y = 02FF @ 0301 = 5A  A:12 X:34 Y:02 P:34 SP:F0 CYC:1234567"
    );
    // taking the trace spends no cycle
    assert_eq!(nes.cpu.cycles, 1234567);
    assert_eq!(nes.cpu.pc, 0xC000);
}

fn operands(o1: u8, o2: u8, pointer: u16, address: u16, value: u8) -> Operands {
    Operands { operand_1: o1, operand_2: o2, pointer, address, value }
}

#[test]
fn operand_text_of_each_addressing_mode() {
    let o = operands(0x11, 0x22, 0x03FE, 0x0455, 0x9A);
    let text = |m: Mnemonic, am: AddressingMode| operand_code(m, am, &o);
    assert_eq!(text(Mnemonic::NOP, AddressingMode::Implicit), "");
    assert_eq!(text(Mnemonic::LSR, AddressingMode::Accumulator), "A");
    assert_eq!(text(Mnemonic::ASL, AddressingMode::Accumulator), "A");
    assert_eq!(text(Mnemonic::ROL, AddressingMode::Accumulator), "A");
    assert_eq!(text(Mnemonic::ROR, AddressingMode::Accumulator), "A");
    assert_eq!(text(Mnemonic::LDA, AddressingMode::Immediate), "#$11");
    assert_eq!(text(Mnemonic::LDA, AddressingMode::ZeroPage), "$11 = 9A");
    assert_eq!(text(Mnemonic::LDA, AddressingMode::ZeroPageX), "$11,X @ 55 = 9A");
    assert_eq!(text(Mnemonic::LDX, AddressingMode::ZeroPageY), "$11,Y @ 55 = 9A");
    assert_eq!(text(Mnemonic::LDA, AddressingMode::Absolute), "$2211 = 9A");
    assert_eq!(text(Mnemonic::JMP, AddressingMode::Absolute), "$2211");
    assert_eq!(text(Mnemonic::JSR, AddressingMode::Absolute), "$2211");
    assert_eq!(
        text(Mnemonic::LDA, AddressingMode::AbsoluteX { penalty: true }),
        "$2211,X @ 0455 = 9A"
    );
    assert_eq!(
        text(Mnemonic::STA, AddressingMode::AbsoluteY { penalty: false }),
        "$2211,Y @ 0455 = 9A"
    );
    assert_eq!(text(Mnemonic::BNE, AddressingMode::Relative), "$0455");
    assert_eq!(text(Mnemonic::JMP, AddressingMode::Indirect), "($2211) = 0455");
    assert_eq!(text(Mnemonic::LDA, AddressingMode::IndexedIndirect), "($11,X) @ FE = 0455 = 9A");
    assert_eq!(text(Mnemonic::LDA, AddressingMode::IndirectIndexed), "($11),Y = 03FE @ 0455 = 9A");
}

#[test]
fn undocumented_opcodes_are_marked() {
    let o = operands(0xA9, 0x00, 0, 0x00A9, 0x00);
    assert_eq!(
        to_assembly_code(Byte(0x04), Mnemonic::NOP, AddressingMode::ZeroPage, &o),
        "*NOP $A9 = 00                    "
    );
    assert_eq!(
        to_assembly_code(Byte(0xA5), Mnemonic::LDA, AddressingMode::ZeroPage, &o),
        " LDA $A9 = 00                    "
    );
    assert!(is_undocumented(0xEB));
    assert!(is_undocumented(0x7F));
    assert!(!is_undocumented(0xEA));
    assert!(!is_undocumented(0x00));
    assert_eq!((0u16..256).filter(|op| is_undocumented(*op as u8)).count(), 80);
    assert_eq!(mnemonic_name(Mnemonic::ISB), "ISB");
}

#[test]
fn instruction_lengths() {
    assert_eq!(AddressingMode::Implicit.instruction_length(), 1);
    assert_eq!(AddressingMode::Accumulator.instruction_length(), 1);
    assert_eq!(AddressingMode::Immediate.instruction_length(), 2);
    assert_eq!(AddressingMode::ZeroPageX.instruction_length(), 2);
    assert_eq!(AddressingMode::Relative.instruction_length(), 2);
    assert_eq!(AddressingMode::IndexedIndirect.instruction_length(), 2);
    assert_eq!(AddressingMode::Absolute.instruction_length(), 3);
    assert_eq!(AddressingMode::AbsoluteY { penalty: true }.instruction_length(), 3);
    assert_eq!(AddressingMode::Indirect.instruction_length(), 3);
}

#[test]
fn trace_reads_leave_the_registers_alone() {
    // LDA $2002 shows FF and does not clear the vertical blank
    let mut nes = machine(&[(0xC000, &[0xAD, 0x02, 0x20])]);
    nes.cpu.pc = 0xC000;
    nes.ppu.status.bits = 0x80;
    let o = decode_address(AddressingMode::Absolute, &mut nes);
    assert_eq!(o, operands(0x02, 0x20, 0, 0x2002, 0xFF));
    assert_eq!(nes.ppu.status.bits, 0x80);
    // a branch back
    let mut nes = machine(&[(0xC010, &[0xD0, 0xFC])]);
    nes.cpu.pc = 0xC010;
    let o = decode_address(AddressingMode::Relative, &mut nes);
    assert_eq!(o.address, 0xC00E);
    // an indirect jump through the end of a page
    let mut nes = machine(&[(0xC000, &[0x6C, 0xFF, 0x02])]);
    nes.cpu.pc = 0xC000;
    nes.wram[0x02FF] = 0x34;
    nes.wram[0x0200] = 0x12;
    nes.wram[0x0300] = 0x56;
    let o = decode_address(AddressingMode::Indirect, &mut nes);
    assert_eq!(o.pointer, 0x02FF);
    assert_eq!(o.address, 0x1234);
}
