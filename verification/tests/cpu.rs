use nes::controller::Empty;
use nes::cpu;
use nes::cpu::instruction::{decode, execute, get_operand, pha, pla};
use nes::cpu::{AddressingMode, Instruction, Mnemonic, Status};
use nes::data_unit::Word;
use nes::nes::Nes;
use nes::rom::MapperDefault;

fn machine() -> Nes<MapperDefault, Empty> {
    Nes::new(0, 0, MapperDefault {}, Empty {}, Empty {})
}

fn load(nes: &mut Nes<MapperDefault, Empty>, at: u16, bytes: &[u8]) {
    for (i, b) in bytes.iter().enumerate() {
        nes.wram[at as usize + i] = *b;
    }
}

#[test]
fn test_fetch() {
    let mut nes = machine();

    nes.wram[0x0051] = 0x90;
    nes.wram[0x0052] = 0x3F;
    nes.wram[0x0053] = 0x81;
    nes.wram[0x0054] = 0x90;

    nes.cpu.pc = 0x0052;

    let instruction = cpu::fetch(&mut nes);
    assert_eq!(instruction.0, 0x3F);

    let instruction = cpu::fetch(&mut nes);
    assert_eq!(instruction.0, 0x81);

    assert_eq!(nes.cpu.cycles, 2u64);
}

#[test]
fn cpu_test_stack() {
    let mut nes = machine();

    nes.cpu.s = 0xFF;

    nes.push_stack(0x83);
    nes.push_stack(0x14);

    assert_eq!(nes.pull_stack(), 0x14);
    assert_eq!(nes.pull_stack(), 0x83);
}

#[test]
fn cpu_test_stack_word() {
    let mut nes = machine();

    nes.cpu.s = 0xFF;

    nes.push_stack_word(0x98AF);
    nes.push_stack_word(0x003A);

    assert_eq!(nes.pull_stack_word(), 0x003A);
    assert_eq!(nes.pull_stack_word(), 0x98AF);
}

#[test]
fn stack_wraps_below_zero() {
    let mut nes = machine();
    nes.cpu.s = 0x00;

    nes.cpu.a = 0x11;
    pha(&mut nes);
    assert_eq!(nes.cpu.s, 0xFF);
    assert_eq!(nes.wram[0x0100], 0x11);

    nes.cpu.a = 0x22;
    pha(&mut nes);
    assert_eq!(nes.cpu.s, 0xFE);
    assert_eq!(nes.wram[0x01FF], 0x22);

    pla(&mut nes);
    assert_eq!(nes.cpu.a, 0x22);
    pla(&mut nes);
    assert_eq!(nes.cpu.a, 0x11);
    assert_eq!(nes.cpu.s, 0x00);
}

#[test]
fn stack_gives_back_a_sequence_in_reverse() {
    let mut nes = machine();
    nes.cpu.s = 0x7A;
    let values = [1u8, 2, 3, 4, 5, 6, 7];
    for v in values.iter() {
        nes.push_stack(*v);
    }
    for v in values.iter().rev() {
        assert_eq!(nes.pull_stack(), *v);
    }
    assert_eq!(nes.cpu.s, 0x7A);
}

#[test]
fn decode_reads_the_opcode_table() {
    assert_eq!(
        decode(0xA9),
        Instruction { mnemonic: Mnemonic::LDA, addressing_mode: AddressingMode::Immediate }
    );
    assert_eq!(
        decode(0xBD),
        Instruction {
            mnemonic: Mnemonic::LDA,
            addressing_mode: AddressingMode::AbsoluteX { penalty: true }
        }
    );
    assert_eq!(
        decode(0x9D),
        Instruction {
            mnemonic: Mnemonic::STA,
            addressing_mode: AddressingMode::AbsoluteX { penalty: false }
        }
    );
    assert_eq!(
        decode(0x6C),
        Instruction { mnemonic: Mnemonic::JMP, addressing_mode: AddressingMode::Indirect }
    );
    assert_eq!(
        decode(0xEB),
        Instruction { mnemonic: Mnemonic::SBC, addressing_mode: AddressingMode::Immediate }
    );
    assert_eq!(
        decode(0xA7),
        Instruction { mnemonic: Mnemonic::LAX, addressing_mode: AddressingMode::ZeroPage }
    );
    // unassigned
    assert_eq!(
        decode(0x02),
        Instruction { mnemonic: Mnemonic::NOP, addressing_mode: AddressingMode::Implicit }
    );
}

#[test]
fn lda_immediate_sets_zero_and_negative() {
    let mut nes = machine();
    nes.cpu.p = Status { bits: 0x24 };
    load(&mut nes, 0x0200, &[0xA9, 0x00, 0xA9, 0x80, 0xA9, 0x01]);
    nes.cpu.pc = 0x0200;

    assert_eq!(cpu::step(&mut nes), 2);
    assert_eq!(nes.cpu.a, 0x00);
    assert_eq!(nes.cpu.p.bits, 0x26);

    assert_eq!(cpu::step(&mut nes), 2);
    assert_eq!(nes.cpu.a, 0x80);
    assert_eq!(nes.cpu.p.bits, 0xA4);

    assert_eq!(cpu::step(&mut nes), 2);
    assert_eq!(nes.cpu.a, 0x01);
    assert_eq!(nes.cpu.p.bits, 0x24);
    assert_eq!(nes.cpu.pc, 0x0206);
}

#[test]
fn status_bit_five_survives_instructions() {
    let mut nes = machine();
    nes.cpu.p = Status { bits: 0x24 };
    nes.cpu.s = 0xFD;
    // PHP, LDA #$00, PHA, PLP, CLC, SEC, ADC #$7F, PLA
    load(&mut nes, 0x0200, &[0x08, 0xA9, 0x00, 0x48, 0x28, 0x18, 0x38, 0x69, 0x7F, 0x68]);
    nes.cpu.pc = 0x0200;
    for _ in 0..8 {
        cpu::step(&mut nes);
        assert_eq!(nes.cpu.p.bits & 0x20, 0x20);
    }
}

#[test]
fn adc_sets_carry_and_overflow() {
    let mut nes = machine();
    nes.cpu.p = Status { bits: 0x24 };
    nes.cpu.a = 0x50;
    nes.cpu.add_with_carry(0x50);
    // 0x50 + 0x50 = 0xA0: overflow, negative, no carry
    assert_eq!(nes.cpu.a, 0xA0);
    assert_eq!(nes.cpu.p.bits, 0xE4);

    nes.cpu.p = Status { bits: 0x25 };
    nes.cpu.a = 0xFF;
    nes.cpu.add_with_carry(0x00);
    // 0xFF + 0x00 + 1 = 0x100: zero, carry, no overflow
    assert_eq!(nes.cpu.a, 0x00);
    assert_eq!(nes.cpu.p.bits, 0x27);

    nes.cpu.p = Status { bits: 0x24 };
    nes.cpu.a = 0xD0;
    nes.cpu.add_with_carry(0x90);
    // 0xD0 + 0x90 = 0x160: carry and overflow
    assert_eq!(nes.cpu.a, 0x60);
    assert_eq!(nes.cpu.p.bits, 0x65);
}

#[test]
fn sbc_subtracts_with_borrow() {
    let mut nes = machine();
    nes.cpu.p = Status { bits: 0x25 };
    nes.cpu.a = 0x50;
    load(&mut nes, 0x0200, &[0xE9, 0xF0]);
    nes.cpu.pc = 0x0200;
    cpu::step(&mut nes);
    // 0x50 - 0xF0 = 0x60 with a borrow: carry clear
    assert_eq!(nes.cpu.a, 0x60);
    assert_eq!(nes.cpu.p.bits & 0x01, 0x00);
    assert_eq!(nes.cpu.p.bits & 0x40, 0x00);
}

#[test]
fn compare_sets_carry_zero_negative() {
    let mut nes = machine();
    nes.cpu.p = Status { bits: 0x24 };
    nes.cpu.a = 0x40;
    load(&mut nes, 0x0200, &[0xC9, 0x40, 0xC9, 0x41, 0xC9, 0x3F]);
    nes.cpu.pc = 0x0200;
    cpu::step(&mut nes);
    assert_eq!(nes.cpu.p.bits, 0x27);
    cpu::step(&mut nes);
    assert_eq!(nes.cpu.p.bits, 0xA4);
    cpu::step(&mut nes);
    assert_eq!(nes.cpu.p.bits, 0x25);
}

#[test]
fn branch_costs_one_cycle_more_across_a_page() {
    // BNE +2 within the page: 2 + 1 cycles
    let mut nes = machine();
    nes.cpu.p = Status { bits: 0x24 };
    load(&mut nes, 0x0200, &[0xD0, 0x02]);
    nes.cpu.pc = 0x0200;
    assert_eq!(cpu::step(&mut nes), 3);
    assert_eq!(nes.cpu.pc, 0x0204);

    // BNE -3 from 0x0302 to 0x02FF: 2 + 2 cycles
    let mut nes = machine();
    nes.cpu.p = Status { bits: 0x24 };
    load(&mut nes, 0x0300, &[0xD0, 0xFD]);
    nes.cpu.pc = 0x0300;
    assert_eq!(cpu::step(&mut nes), 4);
    assert_eq!(nes.cpu.pc, 0x02FF);

    // not taken: 2 cycles
    let mut nes = machine();
    nes.cpu.p = Status { bits: 0x26 };
    load(&mut nes, 0x0200, &[0xD0, 0x02]);
    nes.cpu.pc = 0x0200;
    assert_eq!(cpu::step(&mut nes), 2);
    assert_eq!(nes.cpu.pc, 0x0202);
}

#[test]
fn absolute_x_read_pays_only_for_a_page_cross() {
    // LDA $0310,X with X = 1: 4 cycles
    let mut nes = machine();
    load(&mut nes, 0x0200, &[0xBD, 0x10, 0x03]);
    nes.wram[0x0311] = 0x77;
    nes.cpu.x = 1;
    nes.cpu.pc = 0x0200;
    assert_eq!(cpu::step(&mut nes), 4);
    assert_eq!(nes.cpu.a, 0x77);

    // LDA $03FF,X with X = 1: 5 cycles
    let mut nes = machine();
    load(&mut nes, 0x0200, &[0xBD, 0xFF, 0x03]);
    nes.wram[0x0400] = 0x78;
    nes.cpu.x = 1;
    nes.cpu.pc = 0x0200;
    assert_eq!(cpu::step(&mut nes), 5);
    assert_eq!(nes.cpu.a, 0x78);

    // STA $0310,X: always 5 cycles
    let mut nes = machine();
    load(&mut nes, 0x0200, &[0x9D, 0x10, 0x03]);
    nes.cpu.a = 0x55;
    nes.cpu.x = 1;
    nes.cpu.pc = 0x0200;
    assert_eq!(cpu::step(&mut nes), 5);
    assert_eq!(nes.wram[0x0311], 0x55);
}

#[test]
fn jmp_indirect_wraps_within_the_page() {
    let mut nes = machine();
    load(&mut nes, 0x0200, &[0x6C, 0xFF, 0x03]);
    nes.wram[0x03FF] = 0x34;
    nes.wram[0x0300] = 0x12;
    nes.wram[0x0400] = 0x56;
    nes.cpu.pc = 0x0200;
    assert_eq!(cpu::step(&mut nes), 5);
    assert_eq!(nes.cpu.pc, 0x1234);
}

#[test]
fn operand_of_each_addressing_mode() {
    let mut nes = machine();
    load(&mut nes, 0x0200, &[0x80, 0x03]);
    nes.cpu.x = 0x90;
    nes.cpu.y = 0x02;
    nes.wram[0x0010] = 0x00;
    nes.wram[0x0011] = 0x05;
    nes.wram[0x0080] = 0xFF;
    nes.wram[0x0081] = 0x05;

    nes.cpu.pc = 0x0200;
    assert_eq!(get_operand(&mut nes, &AddressingMode::Immediate), Word(0x0200));
    nes.cpu.pc = 0x0200;
    assert_eq!(get_operand(&mut nes, &AddressingMode::ZeroPage), Word(0x0080));
    nes.cpu.pc = 0x0200;
    assert_eq!(get_operand(&mut nes, &AddressingMode::ZeroPageX), Word(0x0010));
    nes.cpu.pc = 0x0200;
    assert_eq!(get_operand(&mut nes, &AddressingMode::Absolute), Word(0x0380));
    nes.cpu.pc = 0x0200;
    assert_eq!(get_operand(&mut nes, &AddressingMode::AbsoluteX { penalty: true }), Word(0x0410));
    nes.cpu.pc = 0x0200;
    assert_eq!(get_operand(&mut nes, &AddressingMode::IndexedIndirect), Word(0x0500));
    nes.cpu.pc = 0x0200;
    let before = nes.cpu.cycles;
    assert_eq!(get_operand(&mut nes, &AddressingMode::IndirectIndexed), Word(0x0601));
    // page cross: 3 reads and one cycle more
    assert_eq!(nes.cpu.cycles - before, 4);
    assert_eq!(nes.cpu.pc, 0x0201);
}

#[test]
fn illegal_opcodes_combine_their_parts() {
    // SLO $10: ASL memory, then ORA
    let mut nes = machine();
    nes.cpu.p = Status { bits: 0x24 };
    load(&mut nes, 0x0200, &[0x07, 0x10]);
    nes.wram[0x0010] = 0x81;
    nes.cpu.a = 0x10;
    nes.cpu.pc = 0x0200;
    assert_eq!(cpu::step(&mut nes), 5);
    assert_eq!(nes.wram[0x0010], 0x02);
    assert_eq!(nes.cpu.a, 0x12);
    assert_eq!(nes.cpu.p.bits, 0x25);

    // DCP $10: DEC memory, then CMP
    let mut nes = machine();
    nes.cpu.p = Status { bits: 0x24 };
    load(&mut nes, 0x0200, &[0xC7, 0x10]);
    nes.wram[0x0010] = 0x41;
    nes.cpu.a = 0x40;
    nes.cpu.pc = 0x0200;
    assert_eq!(cpu::step(&mut nes), 5);
    assert_eq!(nes.wram[0x0010], 0x40);
    assert_eq!(nes.cpu.p.bits, 0x27);

    // LAX $10
    let mut nes = machine();
    nes.cpu.p = Status { bits: 0x24 };
    load(&mut nes, 0x0200, &[0xA7, 0x10]);
    nes.wram[0x0010] = 0x99;
    nes.cpu.pc = 0x0200;
    assert_eq!(cpu::step(&mut nes), 3);
    assert_eq!(nes.cpu.a, 0x99);
    assert_eq!(nes.cpu.x, 0x99);
}

#[test]
fn jsr_and_rts_return_behind_the_call() {
    let mut nes = machine();
    nes.cpu.s = 0xFD;
    load(&mut nes, 0x0200, &[0x20, 0x00, 0x03]);
    load(&mut nes, 0x0300, &[0x60]);
    nes.cpu.pc = 0x0200;
    assert_eq!(cpu::step(&mut nes), 6);
    assert_eq!(nes.cpu.pc, 0x0300);
    assert_eq!(nes.wram[0x01FD], 0x02);
    assert_eq!(nes.wram[0x01FC], 0x02);
    assert_eq!(cpu::step(&mut nes), 6);
    assert_eq!(nes.cpu.pc, 0x0203);
    assert_eq!(nes.cpu.s, 0xFD);
}

#[test]
fn php_pushes_b_and_plp_drops_it() {
    let mut nes = machine();
    nes.cpu.s = 0xFD;
    nes.cpu.p = Status { bits: 0x24 };
    load(&mut nes, 0x0200, &[0x08, 0x28]);
    nes.cpu.pc = 0x0200;
    assert_eq!(cpu::step(&mut nes), 3);
    assert_eq!(nes.wram[0x01FD], 0x34);
    nes.wram[0x01FD] = 0xDF;
    assert_eq!(cpu::step(&mut nes), 4);
    assert_eq!(nes.cpu.p.bits, 0xEF);
}

#[test]
fn execute_runs_sta_through_indirect_indexed_with_one_cycle_more() {
    let mut nes = machine();
    load(&mut nes, 0x0200, &[0x10]);
    nes.wram[0x0010] = 0x00;
    nes.wram[0x0011] = 0x03;
    nes.cpu.y = 4;
    nes.cpu.a = 0xAB;
    nes.cpu.pc = 0x0200;
    execute(
        &mut nes,
        Instruction { mnemonic: Mnemonic::STA, addressing_mode: AddressingMode::IndirectIndexed },
    );
    assert_eq!(nes.wram[0x0304], 0xAB);
    assert_eq!(nes.cpu.cycles, 5);
}

#[test]
fn power_on_sets_the_registers() {
    let mut nes = machine();
    nes.power_on();
    assert_eq!(nes.cpu.p.bits, 0x34);
    assert_eq!(nes.cpu.a, 0);
    assert_eq!(nes.cpu.x, 0);
    assert_eq!(nes.cpu.y, 0);
    assert_eq!(nes.cpu.s, 0xFD);
    assert_eq!(nes.cpu.cycles, 22);
}
