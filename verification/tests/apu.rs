use nes::apu;
use nes::apu::{length_table_entry, noise_period_entry, Apu, CarryMode, Noise, Pulse, Triangle, DMC};
use nes::controller::Empty;
use nes::data_unit::Byte;
use nes::nes::Nes;
use nes::rom::MapperDefault;

fn machine(sampling_rate: u32, frame_period: u32) -> Nes<MapperDefault, Empty> {
    Nes::new(sampling_rate, frame_period, MapperDefault {}, Empty {}, Empty {})
}

#[test]
fn length_counter_runs_out_after_ten_clocks() {
    let mut nes = machine(0, 2);
    nes.write(0x4015, 0x01);
    nes.write(0x4003, 0x00);
    assert_eq!(nes.apu.pulse1.length_counter, 10);
    assert_eq!(nes.read(0x4015) & 0x01, 0x01);
    // the length counters are clocked on steps 1 and 3 of the four steps
    let mut clocks = 0;
    while clocks < 10 {
        let step = nes.apu.frame_sequence_step;
        assert_eq!(nes.read(0x4015) & 0x01, 0x01);
        apu::step(&mut nes);
        apu::step(&mut nes);
        if step == 1 || step == 3 {
            clocks += 1;
        }
    }
    assert_eq!(nes.apu.pulse1.length_counter, 0);
    assert_eq!(nes.read(0x4015) & 0x01, 0x00);
}

#[test]
fn halted_length_counter_stays() {
    let mut nes = machine(0, 1);
    nes.write(0x4015, 0x01);
    nes.write(0x4000, 0x20);
    nes.write(0x4003, 0x08);
    assert_eq!(nes.apu.pulse1.length_counter, 254);
    for _ in 0..64 {
        apu::step(&mut nes);
    }
    assert_eq!(nes.apu.pulse1.length_counter, 254);
}

#[test]
fn writing_the_fourth_pulse_register_restarts_the_channel() {
    let mut apu = Apu::new(0, 0);
    apu.pulse1.timer_sequencer = 5;
    apu.pulse2.timer_sequencer = 6;
    apu.write(0x4003, Byte(0x12));
    assert_eq!(apu.pulse1.timer_sequencer, 0);
    assert!(apu.pulse1.envelope_start);
    assert_eq!(apu.pulse2.timer_sequencer, 6);
    assert!(!apu.pulse2.envelope_start);
    apu.write(0x4007, Byte(0x34));
    assert_eq!(apu.pulse2.timer_sequencer, 0);
    assert!(apu.pulse2.envelope_start);
    assert_eq!(apu.pulse2.high, 0x34);
    // a disabled channel does not load its length counter
    assert_eq!(apu.pulse2.length_counter, 0);
}

#[test]
fn pulse_registers() {
    let mut p = Pulse::channel_1();
    assert_eq!(p.carry_mode, CarryMode::OnesComplement);
    assert_eq!(Pulse::channel_2().carry_mode, CarryMode::TwosComplement);
    p.set_enabled(true);
    p.write(0x4000, Byte(0b1011_0101));
    p.write(0x4001, Byte(0b1101_1011));
    p.write(0x4002, Byte(0x34));
    p.write(0x4003, Byte(0b0001_1010));
    assert_eq!(p.envelope_period(), 0b0101);
    assert!(p.length_counter_halt());
    assert!(p.sweep_enabled());
    assert!(p.sweep_negated());
    assert_eq!(p.sweep_period(), 0b101);
    assert_eq!(p.sweep_shift(), 0b011);
    assert!(p.sweep_reload);
    assert_eq!(p.timer_reload(), 0x0234);
    assert_eq!(p.timer_period, 0x0234);
    assert_eq!(p.length_counter_load(), 3);
    assert_eq!(p.length_counter, 2);
    assert!(!p.sweep_unit_muted());
    p.timer_period = 7;
    assert!(p.sweep_unit_muted());
    p.timer_period = 0x0800;
    assert!(p.sweep_unit_muted());
    p.set_enabled(false);
    assert_eq!(p.length_counter, 0);
}

#[test]
fn pulse_timer_and_output() {
    let mut p = Pulse::channel_1();
    p.set_enabled(true);
    // duty 2, constant volume 9
    p.write(0x4000, Byte(0b1001_1001));
    p.write(0x4002, Byte(0x10));
    p.write(0x4003, Byte(0x00));
    assert_eq!(p.length_counter, 10);
    let mut levels = Vec::new();
    for _ in 0..8 {
        levels.push(p.output());
        // one sequencer step every period + 1 clocks
        for _ in 0..0x11 {
            p.clock_timer();
        }
    }
    assert_eq!(levels, vec![0, 9, 9, 9, 9, 0, 0, 0]);
    assert_eq!(p.timer_sequencer, 0);
}

#[test]
fn pulse_envelope_decays_and_loops() {
    let mut p = Pulse::channel_1();
    p.write(0x4000, Byte(0x02));
    p.envelope_start = true;
    p.clock_envelope();
    assert_eq!(p.envelope_decay_level_counter, 15);
    assert_eq!(p.envelope_counter, 2);
    assert!(!p.envelope_start);
    p.clock_envelope();
    p.clock_envelope();
    assert_eq!(p.envelope_counter, 0);
    p.clock_envelope();
    assert_eq!(p.envelope_decay_level_counter, 14);
    assert_eq!(p.envelope_counter, 2);
    p.envelope_decay_level_counter = 0;
    p.envelope_counter = 0;
    p.clock_envelope();
    assert_eq!(p.envelope_decay_level_counter, 15);
}

#[test]
fn pulse_sweep_negates_by_channel() {
    let mut first = Pulse::channel_1();
    let mut second = Pulse::channel_2();
    for p in [&mut first, &mut second] {
        // enabled, period 0, negate, shift 2
        p.write(0x4001, Byte(0b1000_1010));
        p.timer_period = 0x0200;
        p.sweep_reload = false;
        p.clock_sweep_unit();
    }
    // 0x200 >> 2 = 0x80
    assert_eq!(first.timer_period, 0x0200 - 0x80 - 1);
    assert_eq!(second.timer_period, 0x0200 - 0x80);
    let mut up = Pulse::channel_1();
    up.write(0x4001, Byte(0b1000_0001));
    up.timer_period = 0x0200;
    up.sweep_reload = false;
    up.clock_sweep_unit();
    assert_eq!(up.timer_period, 0x0300);
    // a muted channel keeps its period
    up.timer_period = 0x0004;
    up.sweep_counter = 0;
    up.clock_sweep_unit();
    assert_eq!(up.timer_period, 0x0004);
}

#[test]
fn triangle_walks_its_wave() {
    let mut t = Triangle::new();
    t.set_enabled(true);
    t.write(0x4008, Byte(0x5F));
    t.write(0x400A, Byte(0x00));
    t.write(0x400B, Byte(0x08));
    assert_eq!(t.length_counter, 254);
    assert!(t.linear_counter_reload_flag);
    assert!(!t.control_flag());
    assert!(!t.length_counter_halt());
    t.clock_linear_counter();
    assert_eq!(t.linear_counter, 0x5F);
    let mut levels = Vec::new();
    for _ in 0..32 {
        levels.push(t.output());
        t.clock_timer();
    }
    let mut expected: Vec<u8> = (0..16).rev().collect();
    expected.extend(0..16);
    assert_eq!(levels, expected);
    assert_eq!(t.sequencer, 0);
    t.set_enabled(false);
    assert_eq!(t.output(), 0);
}

#[test]
fn noise_shifts_its_register() {
    let mut n = Noise::new();
    assert_eq!(n.shift_register, 1);
    n.set_enabled(true);
    n.write(0x400C, Byte(0x1A));
    n.write(0x400E, Byte(0x03));
    n.write(0x400F, Byte(0b0001_1000));
    assert_eq!(n.timer_period, 32);
    assert_eq!(n.timer_entry(), 3);
    assert_eq!(n.length_counter, 2);
    assert_eq!(n.envelope_period(), 0x0A);
    assert_eq!(n.output(), 0x0A);
    // bit 0 xor bit 1 enters at bit 14
    n.clock_timer();
    assert_eq!(n.shift_register, 0x4000);
    assert_eq!(n.timer_counter, 32);
    assert_eq!(n.output(), 0);
    n.timer_counter = 0;
    n.shift_register = 0b0000_0010;
    n.clock_timer();
    assert_eq!(n.shift_register, 0x4001);
    // mode 1 taps bit 6
    n.write(0x400E, Byte(0x83));
    n.timer_counter = 0;
    n.shift_register = 0b0100_0000;
    n.clock_timer();
    assert_eq!(n.shift_register, 0x4020);
}

#[test]
fn tables() {
    assert_eq!(length_table_entry(0), 10);
    assert_eq!(length_table_entry(1), 254);
    assert_eq!(length_table_entry(31), 30);
    assert_eq!(noise_period_entry(0), 4);
    assert_eq!(noise_period_entry(15), 4068);
}

#[test]
fn dmc_registers_and_restart() {
    let mut d = DMC::new();
    d.write(0x4010, Byte(0x4F));
    d.write(0x4011, Byte(0xC5));
    d.write(0x4012, Byte(0x02));
    d.write(0x4013, Byte(0x03));
    assert_eq!(d.direct_load(), Byte(0x45));
    assert_eq!(d.output_level, 0x45);
    d.set_enabled(true);
    assert_eq!(d.address_counter, 0xC080);
    assert_eq!(d.bytes_remaining_counter, 49);
    assert_eq!(d.output(), 0);
    d.set_enabled(false);
    assert_eq!(d.bytes_remaining_counter, 0);
}

#[test]
fn dmc_fetch_stalls_the_cpu_and_raises_its_irq() {
    let mut nes = machine(0, 0);
    nes.write(0x4010, 0x80);
    nes.write(0x4012, 0xFF);
    nes.write(0x4013, 0x00);
    nes.write(0x4015, 0x10);
    assert_eq!(nes.apu.dmc.address_counter, 0xFFC0);
    assert_eq!(nes.apu.dmc.bytes_remaining_counter, 1);
    let before = nes.cpu.cycles;
    // the DMC is clocked on even cycles
    assert_eq!(apu::step(&mut nes), 0);
    assert_eq!(apu::step(&mut nes), 4);
    assert_eq!(nes.cpu.cycles - before, 4);
    assert_eq!(nes.apu.dmc.bytes_remaining_counter, 0);
    assert_eq!(nes.apu.dmc.address_counter, 0xFFC1);
    assert!(nes.apu.dmc.interrupted);
    assert_eq!(nes.read(0x4015) & 0x80, 0x80);
    assert_eq!(apu::step(&mut nes), 0);
    assert_eq!(apu::step(&mut nes), 0);
}

#[test]
fn dmc_address_wraps_to_0x8000() {
    let mut d = DMC::new();
    d.address_counter = 0xFFFF;
    d.bytes_remaining_counter = 2;
    d.fill(0xAA);
    assert_eq!(d.address_counter, 0x8000);
    assert_eq!(d.bytes_remaining_counter, 1);
    assert_eq!(d.sample_buffer, 0xAA);
    assert!(!d.sample_buffer_empty);
    // the loop flag starts the sample over
    d.flags = 0x40;
    d.address = 1;
    d.length = 1;
    d.fill(0xBB);
    assert_eq!(d.address_counter, 0xC040);
    assert_eq!(d.bytes_remaining_counter, 17);
    assert!(!d.interrupted);
}

#[test]
fn dmc_output_follows_the_sample_bits() {
    let mut d = DMC::new();
    d.output_level = 64;
    d.sample_buffer = 0b0000_0101;
    d.sample_buffer_empty = false;
    d.clock();
    assert!(!d.silence);
    assert_eq!(d.output_level, 66);
    assert_eq!(d.timer_counter, 8);
    assert_eq!(d.bits_remaining_counter, 7);
    d.timer_counter = 0;
    d.clock();
    assert_eq!(d.output_level, 64);
    d.timer_counter = 0;
    d.clock();
    assert_eq!(d.output_level, 66);
    assert_eq!(d.output(), 66);
    d.output_level = 126;
    assert_eq!(DMC::new().output(), 0);
}

#[test]
fn frame_sequencer_raises_the_frame_irq_on_step_three() {
    let mut nes = machine(0, 1);
    for _ in 0..3 {
        apu::step(&mut nes);
        assert!(!nes.apu.frame_interrupted);
    }
    apu::step(&mut nes);
    assert!(nes.apu.frame_interrupted);
    assert_eq!(nes.apu.frame_sequence_step, 0);
    assert_eq!(nes.read(0x4015) & 0x40, 0x40);
    // reading clears the latch
    assert_eq!(nes.read(0x4015) & 0x40, 0x00);

    // inhibited
    let mut nes = machine(0, 1);
    nes.write(0x4017, 0x40);
    for _ in 0..8 {
        apu::step(&mut nes);
    }
    assert!(!nes.apu.frame_interrupted);

    // five steps, no IRQ
    let mut nes = machine(0, 1);
    nes.write(0x4017, 0x80);
    for expected in [1u8, 2, 3, 4, 0, 1] {
        apu::step(&mut nes);
        assert_eq!(nes.apu.frame_sequence_step, expected);
    }
    assert!(!nes.apu.frame_interrupted);
}

#[test]
fn samples_are_taken_at_the_sampling_rate() {
    let mut nes = machine(3, 0);
    for _ in 0..10 {
        apu::step(&mut nes);
    }
    assert_eq!(nes.apu.sample_count, 3);
    nes.apu.clear_samples();
    assert_eq!(nes.apu.sample_count, 0);

    let mut nes = machine(1, 0);
    nes.write(0x4015, 0x08);
    nes.write(0x400C, 0x17);
    nes.write(0x400F, 0x00);
    for _ in 0..3 {
        apu::step(&mut nes);
    }
    // the sample is taken before the timers are clocked
    assert_eq!(nes.apu.samples[0].noise, 7);
    assert_eq!(nes.apu.samples[1].noise, 7);
    assert_eq!(nes.apu.samples[2].noise, 0);
    assert_eq!(nes.apu.samples[0].pulse1, 0);
}
