//! The audio unit: two pulse channels, triangle, noise and DMC, and the
//! frame sequencer that clocks them.

use vstd::prelude::*;
use vstd::array::{spec_array_fill_for_copy_type, spec_array_update};
use crate::controller::Controller;
use crate::cpu::Cpu;
use crate::data_unit::Byte;
use crate::nes::Nes;
use crate::rom::Mapper;

verus! {

/// The length counter value that each of the 32 load indices selects.
pub open spec fn length_table(index: u8) -> u8 {
    match index {
        0 => 10,
        1 => 254,
        2 => 20,
        3 => 2,
        4 => 40,
        5 => 4,
        6 => 80,
        7 => 6,
        8 => 160,
        9 => 8,
        10 => 60,
        11 => 10,
        12 => 14,
        13 => 12,
        14 => 26,
        15 => 14,
        16 => 12,
        17 => 16,
        18 => 24,
        19 => 18,
        20 => 48,
        21 => 20,
        22 => 96,
        23 => 22,
        24 => 192,
        25 => 24,
        26 => 72,
        27 => 26,
        28 => 16,
        29 => 28,
        30 => 32,
        _ => 30,
    }
}

pub fn length_table_entry(index: u8) -> (r: u8)
    requires
        index < 32,
    ensures
        r == length_table(index),
{
    match index {
        0 => 10,
        1 => 254,
        2 => 20,
        3 => 2,
        4 => 40,
        5 => 4,
        6 => 80,
        7 => 6,
        8 => 160,
        9 => 8,
        10 => 60,
        11 => 10,
        12 => 14,
        13 => 12,
        14 => 26,
        15 => 14,
        16 => 12,
        17 => 16,
        18 => 24,
        19 => 18,
        20 => 48,
        21 => 20,
        22 => 96,
        23 => 22,
        24 => 192,
        25 => 24,
        26 => 72,
        27 => 26,
        28 => 16,
        29 => 28,
        30 => 32,
        _ => 30,
    }
}

/// The noise timer period that each of the 16 period indices selects.
pub open spec fn noise_period_table(index: u8) -> u16 {
    match index {
        0 => 4,
        1 => 8,
        2 => 16,
        3 => 32,
        4 => 64,
        5 => 96,
        6 => 128,
        7 => 160,
        8 => 202,
        9 => 254,
        10 => 380,
        11 => 508,
        12 => 762,
        13 => 1016,
        14 => 2034,
        _ => 4068,
    }
}

pub fn noise_period_entry(index: u8) -> (r: u16)
    requires
        index < 16,
    ensures
        r == noise_period_table(index),
{
    match index {
        0 => 4,
        1 => 8,
        2 => 16,
        3 => 32,
        4 => 64,
        5 => 96,
        6 => 128,
        7 => 160,
        8 => 202,
        9 => 254,
        10 => 380,
        11 => 508,
        12 => 762,
        13 => 1016,
        14 => 2034,
        _ => 4068,
    }
}

/// Whether the pulse wave of duty cycle `duty` is high at sequencer `step`.
pub open spec fn duty_table(duty: u8, step: u8) -> bool {
    match duty {
        0 => step == 1,
        1 => step == 1 || step == 2,
        2 => 1 <= step <= 4,
        _ => !(step == 1 || step == 2),
    }
}

pub fn duty_is_high(duty: u8, step: u8) -> (r: bool)
    ensures
        r == duty_table(duty, step),
{
    match duty {
        0 => step == 1,
        1 => step == 1 || step == 2,
        2 => 1 <= step && step <= 4,
        _ => !(step == 1 || step == 2),
    }
}

/// How a pulse channel's sweep unit negates the change of period.
#[derive(Clone, Copy, Debug, PartialEq, Eq, Structural)]
pub enum CarryMode {
    OnesComplement,
    TwosComplement,
}

/// A pulse channel: its four registers and the counters derived from them.
#[derive(Clone, Copy, Debug, PartialEq, Eq, Structural)]
pub struct Pulse {
    /// Register 0: duty, length counter halt, constant volume, envelope period.
    pub volume: u8,
    /// Register 1: the sweep unit.
    pub sweep: u8,
    /// Register 2: timer low.
    pub low: u8,
    /// Register 3: length counter load, timer high.
    pub high: u8,
    pub length_counter: u8,
    pub enabled: bool,
    pub timer_counter: u16,
    /// The position in the 8-step duty sequence.
    pub timer_sequencer: u8,
    pub timer_period: u16,
    pub envelope_counter: u8,
    pub envelope_decay_level_counter: u8,
    pub envelope_start: bool,
    pub sweep_counter: u8,
    pub sweep_reload: bool,
    pub carry_mode: CarryMode,
}

impl Pulse {
    pub open spec fn silent(carry_mode: CarryMode) -> Self {
        Pulse {
            volume: 0,
            sweep: 0,
            low: 0,
            high: 0,
            length_counter: 0,
            enabled: false,
            timer_counter: 0,
            timer_sequencer: 0,
            timer_period: 0,
            envelope_counter: 0,
            envelope_decay_level_counter: 0,
            envelope_start: false,
            sweep_counter: 0,
            sweep_reload: false,
            carry_mode,
        }
    }

    /// The first pulse channel, whose sweep negates in one's complement.
    pub fn channel_1() -> (r: Self)
        ensures
            r == Self::silent(CarryMode::OnesComplement),
    {
        Pulse {
            volume: 0,
            sweep: 0,
            low: 0,
            high: 0,
            length_counter: 0,
            enabled: false,
            timer_counter: 0,
            timer_sequencer: 0,
            timer_period: 0,
            envelope_counter: 0,
            envelope_decay_level_counter: 0,
            envelope_start: false,
            sweep_counter: 0,
            sweep_reload: false,
            carry_mode: CarryMode::OnesComplement,
        }
    }

    /// The second pulse channel, whose sweep negates in two's complement.
    pub fn channel_2() -> (r: Self)
        ensures
            r == Self::silent(CarryMode::TwosComplement),
    {
        Pulse { carry_mode: CarryMode::TwosComplement, ..Self::channel_1() }
    }

    /// The 11-bit timer reload value: the low three bits of register 3 over
    /// register 2.
    pub open spec fn spec_timer_reload(&self) -> u16 {
        (self.low as u16) | (((self.high & 0b111) as u16) << 8)
    }

    #[verifier::when_used_as_spec(spec_timer_reload)]
    pub fn timer_reload(&self) -> (r: u16)
        ensures
            r == self.spec_timer_reload(),
    {
        (self.low as u16) | (((self.high & 0b111) as u16) << 8)
    }

    /// The length table index: the high five bits of register 3.
    pub open spec fn spec_length_counter_load(&self) -> u8 {
        self.high / 8
    }

    #[verifier::when_used_as_spec(spec_length_counter_load)]
    pub fn length_counter_load(&self) -> (r: u8)
        ensures
            r == self.spec_length_counter_load(),
            r < 32,
    {
        self.high / 8
    }

    pub open spec fn spec_envelope_period(&self) -> u8 {
        self.volume & 0b1111
    }

    #[verifier::when_used_as_spec(spec_envelope_period)]
    pub fn envelope_period(&self) -> (r: u8)
        ensures
            r == self.spec_envelope_period(),
    {
        self.volume & 0b1111
    }

    pub open spec fn spec_length_counter_halt(&self) -> bool {
        (self.volume >> 5) & 1 == 1
    }

    #[verifier::when_used_as_spec(spec_length_counter_halt)]
    pub fn length_counter_halt(&self) -> (r: bool)
        ensures
            r == self.spec_length_counter_halt(),
    {
        (self.volume >> 5) & 1 == 1
    }

    pub open spec fn spec_sweep_negated(&self) -> bool {
        (self.sweep >> 3) & 1 == 1
    }

    #[verifier::when_used_as_spec(spec_sweep_negated)]
    pub fn sweep_negated(&self) -> (r: bool)
        ensures
            r == self.spec_sweep_negated(),
    {
        (self.sweep >> 3) & 1 == 1
    }

    pub open spec fn spec_sweep_enabled(&self) -> bool {
        (self.sweep >> 7) & 1 == 1
    }

    #[verifier::when_used_as_spec(spec_sweep_enabled)]
    pub fn sweep_enabled(&self) -> (r: bool)
        ensures
            r == self.spec_sweep_enabled(),
    {
        (self.sweep >> 7) & 1 == 1
    }

    pub open spec fn spec_sweep_shift(&self) -> u8 {
        self.sweep % 8
    }

    #[verifier::when_used_as_spec(spec_sweep_shift)]
    pub fn sweep_shift(&self) -> (r: u8)
        ensures
            r == self.spec_sweep_shift(),
            r < 8,
    {
        self.sweep % 8
    }

    /// The sweep divider period: bits 4 to 6 of register 1.
    pub open spec fn spec_sweep_period(&self) -> u8 {
        (self.sweep / 16) % 8
    }

    #[verifier::when_used_as_spec(spec_sweep_period)]
    pub fn sweep_period(&self) -> (r: u8)
        ensures
            r == self.spec_sweep_period(),
    {
        (self.sweep / 16) % 8
    }

    /// Whether the sweep unit mutes the channel: a period under 8 or over 0x7FF.
    pub open spec fn spec_sweep_unit_muted(&self) -> bool {
        self.timer_period < 8 || 0x7FF < self.timer_period
    }

    #[verifier::when_used_as_spec(spec_sweep_unit_muted)]
    pub fn sweep_unit_muted(&self) -> (r: bool)
        ensures
            r == self.spec_sweep_unit_muted(),
    {
        self.timer_period < 8 || 0x7FF < self.timer_period
    }

    /// The channel after `value` was written to register `addr % 4`. A write
    /// to register 3 loads the length counter (if the channel is enabled),
    /// resets the sequencer and restarts the envelope.
    pub open spec fn after_write(self, addr: u16, value: u8) -> Self {
        if addr % 4 == 0 {
            Pulse { volume: value, ..self }
        } else if addr % 4 == 1 {
            Pulse { sweep: value, sweep_reload: true, ..self }
        } else if addr % 4 == 2 {
            let w = Pulse { low: value, ..self };
            Pulse { timer_period: w.spec_timer_reload(), ..w }
        } else {
            let w = Pulse { high: value, ..self };
            Pulse {
                length_counter: if self.enabled {
                    length_table(w.spec_length_counter_load())
                } else {
                    self.length_counter
                },
                timer_period: w.spec_timer_reload(),
                timer_sequencer: 0,
                envelope_start: true,
                ..w
            }
        }
    }

    pub fn write(&mut self, addr: u16, value: Byte)
        ensures
            *final(self) == old(self).after_write(addr, value.0),
    {
        match addr % 4 {
            0 => self.volume = value.0,
            1 => {
                self.sweep = value.0;
                self.sweep_reload = true;
            },
            2 => {
                self.low = value.0;
                self.timer_period = self.timer_reload();
            },
            _ => {
                self.high = value.0;
                if self.enabled {
                    self.length_counter = length_table_entry(self.length_counter_load());
                }
                self.timer_period = self.timer_reload();
                self.timer_sequencer = 0;
                self.envelope_start = true;
            },
        }
    }

    /// Disabling a channel empties its length counter.
    pub fn set_enabled(&mut self, v: bool)
        ensures
            *final(self) == (Pulse {
                enabled: v,
                length_counter: if v {
                    old(self).length_counter
                } else {
                    0
                },
                ..*old(self)
            }),
    {
        self.enabled = v;
        if !v {
            self.length_counter = 0;
        }
    }

    /// One timer clock: count down, or reload and advance the sequencer.
    pub open spec fn after_clock_timer(self) -> Self {
        if 0 < self.timer_counter {
            Pulse { timer_counter: (self.timer_counter - 1) as u16, ..self }
        } else {
            Pulse {
                timer_counter: self.spec_timer_reload(),
                timer_sequencer: if self.timer_sequencer >= 7 {
                    0
                } else {
                    (self.timer_sequencer + 1) as u8
                },
                ..self
            }
        }
    }

    pub fn clock_timer(&mut self)
        ensures
            *final(self) == old(self).after_clock_timer(),
    {
        if 0 < self.timer_counter {
            self.timer_counter = self.timer_counter - 1;
        } else {
            self.timer_counter = self.timer_reload();
            if self.timer_sequencer >= 7 {
                self.timer_sequencer = 0;
            } else {
                self.timer_sequencer = self.timer_sequencer + 1;
            }
        }
    }

    /// One envelope clock: restart at 15, or count the divider down and, when
    /// it runs out, step the decay level down from 15 to 0 and round again.
    pub open spec fn after_clock_envelope(self) -> Self {
        if self.envelope_start {
            Pulse {
                envelope_decay_level_counter: 15,
                envelope_counter: self.spec_envelope_period(),
                envelope_start: false,
                ..self
            }
        } else if 0 < self.envelope_counter {
            Pulse { envelope_counter: (self.envelope_counter - 1) as u8, ..self }
        } else {
            Pulse {
                envelope_counter: self.spec_envelope_period(),
                envelope_decay_level_counter: if 0 < self.envelope_decay_level_counter {
                    (self.envelope_decay_level_counter - 1) as u8
                } else {
                    15
                },
                ..self
            }
        }
    }

    pub fn clock_envelope(&mut self)
        ensures
            *final(self) == old(self).after_clock_envelope(),
    {
        if self.envelope_start {
            self.envelope_decay_level_counter = 15;
            self.envelope_counter = self.envelope_period();
            self.envelope_start = false;
        } else if 0 < self.envelope_counter {
            self.envelope_counter = self.envelope_counter - 1;
        } else {
            self.envelope_counter = self.envelope_period();
            if 0 < self.envelope_decay_level_counter {
                self.envelope_decay_level_counter = self.envelope_decay_level_counter - 1;
            } else {
                self.envelope_decay_level_counter = 15;
            }
        }
    }

    /// The length counter after one length clock: one down towards zero
    /// unless halted.
    pub open spec fn after_length_clock(&self) -> u8 {
        if 0 < self.length_counter && !self.spec_length_counter_halt() {
            (self.length_counter - 1) as u8
        } else {
            self.length_counter
        }
    }

    /// One length clock: the counter steps down towards zero unless halted.
    pub fn clock_length_counter(&mut self)
        ensures
            *final(self) == (Pulse {
                length_counter: old(self).after_length_clock(),
                ..*old(self)
            }),
    {
        if 0 < self.length_counter && !self.length_counter_halt() {
            self.length_counter = self.length_counter - 1;
        }
    }

    /// What the sweep unit adds to the period (modulo 0x10000): the period
    /// shifted right, negated in the channel's carry mode if the sweep negates.
    pub open spec fn sweep_change(&self) -> u16 {
        let a = self.timer_period >> self.spec_sweep_shift();
        if self.spec_sweep_negated() {
            match self.carry_mode {
                CarryMode::OnesComplement => !a,
                CarryMode::TwosComplement => (!a).wrapping_add(1),
            }
        } else {
            a
        }
    }

    /// One sweep clock: update the period when the divider is at zero and the
    /// sweep is enabled, shifts, and does not mute; then reload or count down
    /// the divider.
    pub open spec fn after_clock_sweep_unit(self) -> Self {
        let period = if self.sweep_counter == 0 && self.spec_sweep_enabled()
            && self.spec_sweep_shift() != 0 && !self.spec_sweep_unit_muted() {
            self.timer_period.wrapping_add(self.sweep_change())
        } else {
            self.timer_period
        };
        if self.sweep_counter == 0 || self.sweep_reload {
            Pulse {
                timer_period: period,
                sweep_counter: self.spec_sweep_period(),
                sweep_reload: false,
                ..self
            }
        } else {
            Pulse { timer_period: period, sweep_counter: (self.sweep_counter - 1) as u8, ..self }
        }
    }

    pub fn clock_sweep_unit(&mut self)
        ensures
            *final(self) == old(self).after_clock_sweep_unit(),
    {
        if self.sweep_counter == 0 && self.sweep_enabled() && self.sweep_shift() != 0
            && !self.sweep_unit_muted() {
            let a = self.timer_period >> self.sweep_shift();
            let a = if self.sweep_negated() {
                match self.carry_mode {
                    CarryMode::OnesComplement => !a,
                    CarryMode::TwosComplement => (!a).wrapping_add(1),
                }
            } else {
                a
            };
            self.timer_period = self.timer_period.wrapping_add(a);
        }
        if self.sweep_counter == 0 || self.sweep_reload {
            self.sweep_counter = self.sweep_period();
            self.sweep_reload = false;
        } else {
            self.sweep_counter = self.sweep_counter - 1;
        }
    }

    /// The channel's level, 0 to 15: silent while the length counter is
    /// empty, the sweep mutes or the duty wave is low; else the constant
    /// volume or the envelope's decay level.
    pub open spec fn spec_output(&self) -> u8 {
        if self.length_counter == 0 || self.spec_sweep_unit_muted() || !duty_table(
            self.volume >> 6,
            self.timer_sequencer,
        ) {
            0
        } else if (self.volume >> 4) & 1 == 1 {
            self.spec_envelope_period() & 0b1111
        } else {
            self.envelope_decay_level_counter & 0b1111
        }
    }

    #[verifier::when_used_as_spec(spec_output)]
    pub fn output(&self) -> (r: u8)
        ensures
            r == self.spec_output(),
    {
        if self.length_counter == 0 || self.sweep_unit_muted() || !duty_is_high(
            self.volume >> 6,
            self.timer_sequencer,
        ) {
            return 0;
        }
        let volume = if (self.volume >> 4) & 1 == 1 {
            self.envelope_period()
        } else {
            self.envelope_decay_level_counter
        };
        volume & 0b1111
    }
}

/// The triangle channel.
#[derive(Clone, Copy, Debug, PartialEq, Eq, Structural)]
pub struct Triangle {
    /// Register 0: control flag and linear counter reload value.
    pub linear_counter_setup: u8,
    /// Register 2: timer low.
    pub low: u8,
    /// Register 3: length counter load, timer high.
    pub high: u8,
    pub linear_counter_reload_flag: bool,
    pub timer_counter: u16,
    /// The position in the 32-step sequence.
    pub sequencer: u8,
    pub linear_counter: u8,
    pub length_counter: u8,
    pub enabled: bool,
}

impl Triangle {
    pub open spec fn silent() -> Self {
        Triangle {
            linear_counter_setup: 0,
            low: 0,
            high: 0,
            linear_counter_reload_flag: false,
            timer_counter: 0,
            sequencer: 0,
            linear_counter: 0,
            length_counter: 0,
            enabled: false,
        }
    }

    pub fn new() -> (r: Self)
        ensures
            r == Self::silent(),
    {
        Triangle {
            linear_counter_setup: 0,
            low: 0,
            high: 0,
            linear_counter_reload_flag: false,
            timer_counter: 0,
            sequencer: 0,
            linear_counter: 0,
            length_counter: 0,
            enabled: false,
        }
    }

    pub open spec fn spec_length_counter_load(&self) -> u8 {
        self.high / 8
    }

    #[verifier::when_used_as_spec(spec_length_counter_load)]
    pub fn length_counter_load(&self) -> (r: u8)
        ensures
            r == self.spec_length_counter_load(),
            r < 32,
    {
        self.high / 8
    }

    pub open spec fn spec_timer_reload(&self) -> u16 {
        (self.low as u16) | (((self.high & 0b111) as u16) << 8)
    }

    #[verifier::when_used_as_spec(spec_timer_reload)]
    pub fn timer_reload(&self) -> (r: u16)
        ensures
            r == self.spec_timer_reload(),
    {
        (self.low as u16) | (((self.high & 0b111) as u16) << 8)
    }

    pub open spec fn spec_control_flag(&self) -> bool {
        (self.linear_counter_setup >> 7) & 1 == 1
    }

    #[verifier::when_used_as_spec(spec_control_flag)]
    pub fn control_flag(&self) -> (r: bool)
        ensures
            r == self.spec_control_flag(),
    {
        (self.linear_counter_setup >> 7) & 1 == 1
    }

    pub open spec fn spec_length_counter_halt(&self) -> bool {
        (self.linear_counter_setup >> 5) & 1 == 1
    }

    #[verifier::when_used_as_spec(spec_length_counter_halt)]
    pub fn length_counter_halt(&self) -> (r: bool)
        ensures
            r == self.spec_length_counter_halt(),
    {
        (self.linear_counter_setup >> 5) & 1 == 1
    }

    /// The channel after `value` was written to `addr` (0x4008, 0x400A or
    /// 0x400B; any other address changes nothing).
    pub open spec fn after_write(self, addr: u16, value: u8) -> Self {
        if addr == 0x4008 {
            Triangle { linear_counter_setup: value, ..self }
        } else if addr == 0x400A {
            Triangle { low: value, ..self }
        } else if addr == 0x400B {
            Triangle {
                high: value,
                linear_counter_reload_flag: true,
                length_counter: if self.enabled {
                    length_table(value / 8)
                } else {
                    self.length_counter
                },
                ..self
            }
        } else {
            self
        }
    }

    pub fn write(&mut self, addr: u16, value: Byte)
        ensures
            *final(self) == old(self).after_write(addr, value.0),
    {
        match addr {
            0x4008 => self.linear_counter_setup = value.0,
            0x400A => self.low = value.0,
            0x400B => {
                self.high = value.0;
                self.linear_counter_reload_flag = true;
                if self.enabled {
                    self.length_counter = length_table_entry(self.length_counter_load());
                }
            },
            _ => {},
        }
    }

    /// Disabling a channel empties its length counter.
    pub fn set_enabled(&mut self, v: bool)
        ensures
            *final(self) == (Triangle {
                enabled: v,
                length_counter: if v {
                    old(self).length_counter
                } else {
                    0
                },
                ..*old(self)
            }),
    {
        self.enabled = v;
        if !v {
            self.length_counter = 0;
        }
    }

    /// One timer clock: count down, or reload and, while both counters are
    /// running, advance the sequencer.
    pub open spec fn after_clock_timer(self) -> Self {
        if 0 < self.timer_counter {
            Triangle { timer_counter: (self.timer_counter - 1) as u16, ..self }
        } else {
            Triangle {
                timer_counter: self.spec_timer_reload(),
                sequencer: if 0 < self.linear_counter && 0 < self.length_counter {
                    if self.sequencer >= 31 {
                        0
                    } else {
                        (self.sequencer + 1) as u8
                    }
                } else {
                    self.sequencer
                },
                ..self
            }
        }
    }

    pub fn clock_timer(&mut self)
        ensures
            *final(self) == old(self).after_clock_timer(),
    {
        if 0 < self.timer_counter {
            self.timer_counter = self.timer_counter - 1;
        } else {
            self.timer_counter = self.timer_reload();
            if 0 < self.linear_counter && 0 < self.length_counter {
                if self.sequencer >= 31 {
                    self.sequencer = 0;
                } else {
                    self.sequencer = self.sequencer + 1;
                }
            }
        }
    }

    /// One linear counter clock: reload from register 0 while the reload flag
    /// is up, else step down (wrapping); the control flag then clears the
    /// reload flag.
    pub open spec fn after_clock_linear_counter(self) -> Self {
        Triangle {
            linear_counter: if self.linear_counter_reload_flag {
                self.linear_counter_setup % 0x80
            } else {
                self.linear_counter.wrapping_sub(1)
            },
            linear_counter_reload_flag: self.linear_counter_reload_flag
                && !self.spec_control_flag(),
            ..self
        }
    }

    pub fn clock_linear_counter(&mut self)
        ensures
            *final(self) == old(self).after_clock_linear_counter(),
    {
        if self.linear_counter_reload_flag {
            self.linear_counter = self.linear_counter_setup % 0x80;
        } else {
            self.linear_counter = self.linear_counter.wrapping_sub(1);
        }
        if self.control_flag() {
            self.linear_counter_reload_flag = false;
        }
    }

    /// One length clock: the counter steps down towards zero unless halted.
    pub fn clock_length_counter(&mut self)
        ensures
            *final(self) == (Triangle {
                length_counter: if 0 < old(self).length_counter && !old(
                    self,
                ).spec_length_counter_halt() {
                    (old(self).length_counter - 1) as u8
                } else {
                    old(self).length_counter
                },
                ..*old(self)
            }),
    {
        if 0 < self.length_counter && !self.length_counter_halt() {
            self.length_counter = self.length_counter - 1;
        }
    }

    /// The level at step `s` of the 32-step sequence: 15 down to 0, then 0 up
    /// to 15.
    pub open spec fn wave(s: u8) -> u8 {
        if s < 16 {
            (15 - s) as u8
        } else if s < 32 {
            (s - 16) as u8
        } else {
            0
        }
    }

    /// The channel's level, 0 to 15.
    pub open spec fn spec_output(&self) -> u8 {
        if !self.spec_control_flag() && self.enabled && 0 < self.linear_counter && 0
            < self.length_counter {
            Self::wave(self.sequencer)
        } else {
            0
        }
    }

    #[verifier::when_used_as_spec(spec_output)]
    pub fn output(&self) -> (r: u8)
        ensures
            r == self.spec_output(),
    {
        if !self.control_flag() && self.enabled && 0 < self.linear_counter && 0
            < self.length_counter {
            let s = self.sequencer;
            if s < 16 {
                15 - s
            } else if s < 32 {
                s - 16
            } else {
                0
            }
        } else {
            0
        }
    }
}

/// The noise channel.
#[derive(Clone, Copy, Debug, PartialEq, Eq, Structural)]
pub struct Noise {
    /// Register 0: length counter halt, constant volume, envelope period.
    pub envelope: u8,
    /// Register 2: mode flag and period index.
    pub period: u8,
    pub envelope_counter: u8,
    pub envelope_decay_level_counter: u8,
    pub envelope_start: bool,
    /// The 15-bit linear feedback shift register.
    pub shift_register: u16,
    pub length_counter: u8,
    pub timer_counter: u16,
    pub timer_period: u16,
    pub enabled: bool,
}

impl Noise {
    pub open spec fn silent() -> Self {
        Noise {
            envelope: 0,
            period: 0,
            envelope_counter: 0,
            envelope_decay_level_counter: 0,
            envelope_start: false,
            shift_register: 1,
            length_counter: 0,
            timer_counter: 0,
            timer_period: 0,
            enabled: false,
        }
    }

    pub fn new() -> (r: Self)
        ensures
            r == Self::silent(),
    {
        Noise {
            envelope: 0,
            period: 0,
            envelope_counter: 0,
            envelope_decay_level_counter: 0,
            envelope_start: false,
            shift_register: 1,
            length_counter: 0,
            timer_counter: 0,
            timer_period: 0,
            enabled: false,
        }
    }

    pub open spec fn spec_timer_entry(&self) -> u8 {
        self.period % 16
    }

    #[verifier::when_used_as_spec(spec_timer_entry)]
    pub fn timer_entry(&self) -> (r: u8)
        ensures
            r == self.spec_timer_entry(),
            r < 16,
    {
        self.period % 16
    }

    pub open spec fn spec_envelope_period(&self) -> u8 {
        self.envelope & 0b1111
    }

    #[verifier::when_used_as_spec(spec_envelope_period)]
    pub fn envelope_period(&self) -> (r: u8)
        ensures
            r == self.spec_envelope_period(),
    {
        self.envelope & 0b1111
    }

    pub open spec fn spec_length_counter_halt(&self) -> bool {
        (self.envelope >> 5) & 1 == 1
    }

    #[verifier::when_used_as_spec(spec_length_counter_halt)]
    pub fn length_counter_halt(&self) -> (r: bool)
        ensures
            r == self.spec_length_counter_halt(),
    {
        (self.envelope >> 5) & 1 == 1
    }

    /// The channel after `value` was written to `addr` (0x400C, 0x400E or
    /// 0x400F; any other address changes nothing).
    pub open spec fn after_write(self, addr: u16, value: u8) -> Self {
        if addr == 0x400C {
            Noise { envelope: value, ..self }
        } else if addr == 0x400E {
            Noise { period: value, timer_period: noise_period_table(value % 16), ..self }
        } else if addr == 0x400F && self.enabled {
            Noise { length_counter: length_table(value / 8), ..self }
        } else {
            self
        }
    }

    pub fn write(&mut self, addr: u16, value: Byte)
        ensures
            *final(self) == old(self).after_write(addr, value.0),
    {
        match addr {
            0x400C => self.envelope = value.0,
            0x400E => {
                self.period = value.0;
                self.timer_period = noise_period_entry(self.timer_entry());
            },
            0x400F => {
                if self.enabled {
                    self.length_counter = length_table_entry(value.0 / 8);
                }
            },
            _ => {},
        }
    }

    /// Disabling a channel empties its length counter.
    pub fn set_enabled(&mut self, v: bool)
        ensures
            *final(self) == (Noise {
                enabled: v,
                length_counter: if v {
                    old(self).length_counter
                } else {
                    0
                },
                ..*old(self)
            }),
    {
        self.enabled = v;
        if !v {
            self.length_counter = 0;
        }
    }

    /// The shift register after one shift: bit 0 exclusive-or the tap (bit 6
    /// in mode 1, else bit 1) enters at bit 14.
    pub open spec fn shifted(register: u16, mode: bool) -> u16 {
        let tap = if mode {
            (register >> 6) & 1
        } else {
            (register >> 1) & 1
        };
        let feedback = (register & 1) ^ tap;
        ((register >> 1) & 0x3FFF) | (feedback << 14)
    }

    /// One timer clock: count down, or reload and shift the register.
    pub open spec fn after_clock_timer(self) -> Self {
        if 0 < self.timer_counter {
            Noise { timer_counter: (self.timer_counter - 1) as u16, ..self }
        } else {
            Noise {
                timer_counter: self.timer_period,
                shift_register: Self::shifted(self.shift_register, (self.period >> 7) & 1 == 1),
                ..self
            }
        }
    }

    pub fn clock_timer(&mut self)
        ensures
            *final(self) == old(self).after_clock_timer(),
    {
        if 0 < self.timer_counter {
            self.timer_counter = self.timer_counter - 1;
        } else {
            self.timer_counter = self.timer_period;
            let mode_flag = (self.period >> 7) & 1 == 1;
            let register = self.shift_register;
            let tap = if mode_flag {
                (register >> 6) & 1
            } else {
                (register >> 1) & 1
            };
            let feedback = (register & 1) ^ tap;
            self.shift_register = ((register >> 1) & 0x3FFF) | (feedback << 14);
        }
    }

    /// One envelope clock, as for a pulse channel.
    pub open spec fn after_clock_envelope(self) -> Self {
        if self.envelope_start {
            Noise {
                envelope_decay_level_counter: 15,
                envelope_counter: self.spec_envelope_period(),
                envelope_start: false,
                ..self
            }
        } else if 0 < self.envelope_counter {
            Noise { envelope_counter: (self.envelope_counter - 1) as u8, ..self }
        } else {
            Noise {
                envelope_counter: self.spec_envelope_period(),
                envelope_decay_level_counter: if 0 < self.envelope_decay_level_counter {
                    (self.envelope_decay_level_counter - 1) as u8
                } else {
                    15
                },
                ..self
            }
        }
    }

    pub fn clock_envelope(&mut self)
        ensures
            *final(self) == old(self).after_clock_envelope(),
    {
        if self.envelope_start {
            self.envelope_decay_level_counter = 15;
            self.envelope_counter = self.envelope_period();
            self.envelope_start = false;
        } else if 0 < self.envelope_counter {
            self.envelope_counter = self.envelope_counter - 1;
        } else {
            self.envelope_counter = self.envelope_period();
            if 0 < self.envelope_decay_level_counter {
                self.envelope_decay_level_counter = self.envelope_decay_level_counter - 1;
            } else {
                self.envelope_decay_level_counter = 15;
            }
        }
    }

    /// One length clock: the counter steps down towards zero unless halted.
    pub fn clock_length_counter(&mut self)
        ensures
            *final(self) == (Noise {
                length_counter: if 0 < old(self).length_counter && !old(
                    self,
                ).spec_length_counter_halt() {
                    (old(self).length_counter - 1) as u8
                } else {
                    old(self).length_counter
                },
                ..*old(self)
            }),
    {
        if 0 < self.length_counter && !self.length_counter_halt() {
            self.length_counter = self.length_counter - 1;
        }
    }

    /// The channel's level, 0 to 15: silent while bit 0 of the shift register
    /// is clear or the length counter is empty.
    pub open spec fn spec_output(&self) -> u8 {
        if self.shift_register & 1 == 0 || self.length_counter == 0 {
            0
        } else if (self.envelope >> 4) & 1 == 1 {
            self.spec_envelope_period() & 0x0F
        } else {
            self.envelope_decay_level_counter & 0x0F
        }
    }

    #[verifier::when_used_as_spec(spec_output)]
    pub fn output(&self) -> (r: u8)
        ensures
            r == self.spec_output(),
    {
        if self.shift_register & 1 == 0 || self.length_counter == 0 {
            return 0;
        }
        let volume = if (self.envelope >> 4) & 1 == 1 {
            self.envelope_period()
        } else {
            self.envelope_decay_level_counter
        };
        volume & 0x0F
    }
}

/// The delta modulation channel: its four registers, the memory reader and
/// the output unit.
#[derive(Clone, Copy, Debug, PartialEq, Eq, Structural)]
pub struct DMC {
    /// Register 0: IRQ enable (bit 7), loop (bit 6), rate.
    pub flags: u8,
    /// Register 1: direct load.
    pub direct: u8,
    /// Register 2: sample address.
    pub address: u8,
    /// Register 3: sample length.
    pub length: u8,
    pub timer_counter: u8,
    pub bits_remaining_counter: u8,
    pub enabled: bool,
    pub sample_buffer: u8,
    /// Where the memory reader reads next; 0x8000 follows 0xFFFF.
    pub address_counter: u16,
    pub bytes_remaining_counter: u16,
    pub output_level: u8,
    pub silence: bool,
    pub sample_buffer_empty: bool,
    pub shift_register: u8,
    /// The IRQ latch.
    pub interrupted: bool,
}

impl DMC {
    pub open spec fn silent() -> Self {
        DMC {
            flags: 0,
            direct: 0,
            address: 0,
            length: 0,
            timer_counter: 0,
            bits_remaining_counter: 0,
            enabled: false,
            sample_buffer: 0,
            address_counter: 0x8000,
            bytes_remaining_counter: 0,
            output_level: 0,
            silence: true,
            sample_buffer_empty: true,
            shift_register: 0,
            interrupted: false,
        }
    }

    pub fn new() -> (r: Self)
        ensures
            r == Self::silent(),
    {
        DMC {
            flags: 0,
            direct: 0,
            address: 0,
            length: 0,
            timer_counter: 0,
            bits_remaining_counter: 0,
            enabled: false,
            sample_buffer: 0,
            address_counter: 0x8000,
            bytes_remaining_counter: 0,
            output_level: 0,
            silence: true,
            sample_buffer_empty: true,
            shift_register: 0,
            interrupted: false,
        }
    }

    /// The 7-bit level that register 1 loads.
    pub open spec fn spec_direct_load(&self) -> u8 {
        self.direct % 0x80
    }

    pub fn direct_load(&self) -> (r: Byte)
        ensures
            r.0 == self.spec_direct_load(),
    {
        Byte(self.direct % 0x80)
    }

    /// Where a sample starts: `0xC000 + address * 64`.
    pub open spec fn sample_start(&self) -> u16 {
        (0xC000 + self.address * 64) as u16
    }

    /// How many bytes a sample has: `length * 16 + 1`.
    pub open spec fn sample_length(&self) -> u16 {
        (self.length * 16 + 1) as u16
    }

    /// The channel with its memory reader at the start of the sample.
    pub open spec fn restarted(self) -> Self {
        DMC {
            address_counter: self.sample_start(),
            bytes_remaining_counter: self.sample_length(),
            ..self
        }
    }

    pub fn restart(&mut self)
        ensures
            *final(self) == old(self).restarted(),
    {
        self.address_counter = 0xC000 + (self.address as u16) * 64;
        self.bytes_remaining_counter = (self.length as u16) * 16 + 1;
    }

    /// The channel after `value` was written to `addr` (0x4010 to 0x4013; any
    /// other address changes nothing).
    pub open spec fn after_write(self, addr: u16, value: u8) -> Self {
        if addr == 0x4010 {
            DMC { flags: value, ..self }
        } else if addr == 0x4011 {
            DMC { direct: value, output_level: value % 0x80, ..self }
        } else if addr == 0x4012 {
            DMC { address: value, ..self }
        } else if addr == 0x4013 {
            DMC { length: value, ..self }
        } else {
            self
        }
    }

    pub fn write(&mut self, addr: u16, value: Byte)
        ensures
            *final(self) == old(self).after_write(addr, value.0),
    {
        match addr {
            0x4010 => self.flags = value.0,
            0x4011 => {
                self.direct = value.0;
                self.output_level = self.direct_load().0;
            },
            0x4012 => self.address = value.0,
            0x4013 => self.length = value.0,
            _ => {},
        }
    }

    /// Disabling the channel drops what is left of the sample; enabling it
    /// with nothing left starts the sample over.
    pub open spec fn after_set_enabled(self, v: bool) -> Self {
        if !v {
            DMC { enabled: false, bytes_remaining_counter: 0, ..self }
        } else if self.bytes_remaining_counter == 0 {
            DMC { enabled: true, ..self.restarted() }
        } else {
            DMC { enabled: true, ..self }
        }
    }

    pub fn set_enabled(&mut self, v: bool)
        ensures
            *final(self) == old(self).after_set_enabled(v),
    {
        self.enabled = v;
        if !v {
            self.bytes_remaining_counter = 0;
        } else if self.bytes_remaining_counter == 0 {
            self.restart();
        }
    }

    /// The channel's level, 0 to 127.
    pub open spec fn spec_output(&self) -> u8 {
        if self.silence {
            0
        } else {
            self.output_level % 0x80
        }
    }

    #[verifier::when_used_as_spec(spec_output)]
    pub fn output(&self) -> (r: u8)
        ensures
            r == self.spec_output(),
    {
        if self.silence {
            0
        } else {
            self.output_level % 0x80
        }
    }
}

/// The levels of the five channels at one sampling instant, before mixing.
#[derive(Clone, Copy, Debug, PartialEq, Eq, Structural)]
pub struct Levels {
    pub pulse1: u8,
    pub pulse2: u8,
    pub triangle: u8,
    pub noise: u8,
    pub dmc: u8,
}

/// How many samples the unit keeps until the host takes them.
pub const SAMPLE_CAPACITY: usize = 2048;

pub struct Apu {
    /// A sample is taken every `sampling_rate` cycles; never, if 0.
    pub sampling_rate: u32,
    /// The frame sequencer steps every `frame_period` cycles; never, if 0.
    pub frame_period: u32,
    pub pulse1: Pulse,
    pub pulse2: Pulse,
    pub triangle: Triangle,
    pub noise: Noise,
    pub dmc: DMC,
    pub cycles: u32,
    /// The last value written to 0x4017: mode (bit 7), IRQ inhibit (bit 6).
    pub frame_counter_control: u8,
    pub frame_sequence_step: u8,
    pub frame_interrupted: bool,
    /// The samples taken since the host last took them: the first
    /// `sample_count` entries.
    pub samples: [Levels; 2048],
    pub sample_count: usize,
}

impl Apu {
    pub open spec fn no_levels() -> Levels {
        Levels { pulse1: 0, pulse2: 0, triangle: 0, noise: 0, dmc: 0 }
    }

    /// The unit at power-up: every channel silent, no sample kept.
    pub open spec fn power_up(sampling_rate: u32, frame_period: u32) -> Self {
        Apu {
            sampling_rate,
            frame_period,
            pulse1: Pulse::silent(CarryMode::OnesComplement),
            pulse2: Pulse::silent(CarryMode::TwosComplement),
            triangle: Triangle::silent(),
            noise: Noise::silent(),
            dmc: DMC::silent(),
            cycles: 0,
            frame_counter_control: 0,
            frame_sequence_step: 0,
            frame_interrupted: false,
            samples: spec_array_fill_for_copy_type::<Levels, 2048>(Self::no_levels()),
            sample_count: 0,
        }
    }

    pub fn new(sampling_rate: u32, frame_period: u32) -> (r: Self)
        ensures
            r == Self::power_up(sampling_rate, frame_period),
    {
        Apu {
            sampling_rate,
            frame_period,
            pulse1: Pulse::channel_1(),
            pulse2: Pulse::channel_2(),
            triangle: Triangle::new(),
            noise: Noise::new(),
            dmc: DMC::new(),
            cycles: 0,
            frame_counter_control: 0,
            frame_sequence_step: 0,
            frame_interrupted: false,
            samples: [Levels { pulse1: 0, pulse2: 0, triangle: 0, noise: 0, dmc: 0 }; 2048],
            sample_count: 0,
        }
    }

    pub open spec fn spec_frame_interrupt_inhibit(&self) -> bool {
        (self.frame_counter_control >> 6) & 1 == 1
    }

    #[verifier::when_used_as_spec(spec_frame_interrupt_inhibit)]
    pub fn frame_interrupt_inhibit(&self) -> (r: bool)
        ensures
            r == self.spec_frame_interrupt_inhibit(),
    {
        (self.frame_counter_control >> 6) & 1 == 1
    }

    /// Whether the frame sequencer runs in its five-step mode.
    pub open spec fn spec_five_step(&self) -> bool {
        (self.frame_counter_control >> 7) & 1 == 1
    }

    #[verifier::when_used_as_spec(spec_five_step)]
    pub fn five_step(&self) -> (r: bool)
        ensures
            r == self.spec_five_step(),
    {
        (self.frame_counter_control >> 7) & 1 == 1
    }

    /// The status byte: 0x80 DMC IRQ, 0x40 frame IRQ (unless inhibited), 0x20
    /// DMC bytes remaining, 0x08 noise, 0x04 triangle, 0x02 pulse 2 and 0x01
    /// pulse 1 length counter running. The seven are distinct bits, so the
    /// byte is their sum.
    pub open spec fn status_byte(&self) -> u8 {
        ((if self.dmc.interrupted { 0x80int } else { 0 })
            + (if self.frame_interrupted && !self.spec_frame_interrupt_inhibit() { 0x40int } else { 0 })
            + (if 0 < self.dmc.bytes_remaining_counter { 0x20int } else { 0 })
            + (if 0 < self.noise.length_counter { 0x08int } else { 0 })
            + (if 0 < self.triangle.length_counter { 0x04int } else { 0 })
            + (if 0 < self.pulse2.length_counter { 0x02int } else { 0 })
            + (if 0 < self.pulse1.length_counter { 0x01int } else { 0 })) as u8
    }

    /// Reads 0x4015: gives the status byte and clears the frame IRQ latch.
    pub fn read_status(&mut self) -> (r: Byte)
        ensures
            r.0 == old(self).status_byte(),
            !final(self).frame_interrupted,
            final(self).same_but_frame_interrupted(*old(self)),
    {
        let mut v: u8 = 0;
        if self.dmc.interrupted {
            v = v + 0x80;
        }
        if self.frame_interrupted && !self.frame_interrupt_inhibit() {
            v = v + 0x40;
        }
        if 0 < self.dmc.bytes_remaining_counter {
            v = v + 0x20;
        }
        if 0 < self.noise.length_counter {
            v = v + 0x08;
        }
        if 0 < self.triangle.length_counter {
            v = v + 0x04;
        }
        if 0 < self.pulse2.length_counter {
            v = v + 0x02;
        }
        if 0 < self.pulse1.length_counter {
            v = v + 0x01;
        }
        self.frame_interrupted = false;
        Byte(v)
    }

    /// Whether `self` and `other` agree on everything but the frame IRQ latch.
    pub open spec fn same_but_frame_interrupted(&self, other: Self) -> bool {
        *self == (Apu { frame_interrupted: self.frame_interrupted, ..other })
    }

    /// The unit after `value` was written to `addr`: a channel register
    /// (0x4000 to 0x4013), the channel enables (0x4015) or the frame counter
    /// control (0x4017); any other address changes nothing.
    pub open spec fn after_write(self, addr: u16, value: u8) -> Self {
        if 0x4000 <= addr <= 0x4003 {
            Apu { pulse1: self.pulse1.after_write(addr, value), ..self }
        } else if 0x4004 <= addr <= 0x4007 {
            Apu { pulse2: self.pulse2.after_write(addr, value), ..self }
        } else if 0x4008 <= addr <= 0x400B {
            Apu { triangle: self.triangle.after_write(addr, value), ..self }
        } else if 0x400C <= addr <= 0x400F {
            Apu { noise: self.noise.after_write(addr, value), ..self }
        } else if 0x4010 <= addr <= 0x4013 {
            Apu { dmc: self.dmc.after_write(addr, value), ..self }
        } else if addr == 0x4015 {
            Apu {
                pulse1: Pulse {
                    enabled: value & 0x01 != 0,
                    length_counter: if value & 0x01 != 0 {
                        self.pulse1.length_counter
                    } else {
                        0
                    },
                    ..self.pulse1
                },
                pulse2: Pulse {
                    enabled: value & 0x02 != 0,
                    length_counter: if value & 0x02 != 0 {
                        self.pulse2.length_counter
                    } else {
                        0
                    },
                    ..self.pulse2
                },
                triangle: Triangle {
                    enabled: value & 0x04 != 0,
                    length_counter: if value & 0x04 != 0 {
                        self.triangle.length_counter
                    } else {
                        0
                    },
                    ..self.triangle
                },
                noise: Noise {
                    enabled: value & 0x08 != 0,
                    length_counter: if value & 0x08 != 0 {
                        self.noise.length_counter
                    } else {
                        0
                    },
                    ..self.noise
                },
                dmc: self.dmc.after_set_enabled(value & 0x10 != 0),
                ..self
            }
        } else if addr == 0x4017 {
            Apu { frame_counter_control: value, ..self }
        } else {
            self
        }
    }

    pub fn write(&mut self, addr: u16, value: Byte)
        ensures
            *final(self) == old(self).after_write(addr, value.0),
    {
        match addr {
            0x4000..=0x4003 => self.pulse1.write(addr, value),
            0x4004..=0x4007 => self.pulse2.write(addr, value),
            0x4008..=0x400B => self.triangle.write(addr, value),
            0x400C..=0x400F => self.noise.write(addr, value),
            0x4010..=0x4013 => self.dmc.write(addr, value),
            0x4015 => {
                self.pulse1.set_enabled(value.0 & 0x01 != 0);
                self.pulse2.set_enabled(value.0 & 0x02 != 0);
                self.triangle.set_enabled(value.0 & 0x04 != 0);
                self.noise.set_enabled(value.0 & 0x08 != 0);
                self.dmc.set_enabled(value.0 & 0x10 != 0);
            },
            0x4017 => self.frame_counter_control = value.0,
            _ => {},
        }
    }

    /// The levels of the five channels now.
    pub open spec fn spec_levels(&self) -> Levels {
        Levels {
            pulse1: self.pulse1.spec_output(),
            pulse2: self.pulse2.spec_output(),
            triangle: self.triangle.spec_output(),
            noise: self.noise.spec_output(),
            dmc: self.dmc.spec_output(),
        }
    }

    #[verifier::when_used_as_spec(spec_levels)]
    pub fn levels(&self) -> (r: Levels)
        ensures
            r == self.spec_levels(),
    {
        Levels {
            pulse1: self.pulse1.output(),
            pulse2: self.pulse2.output(),
            triangle: self.triangle.output(),
            noise: self.noise.output(),
            dmc: self.dmc.output(),
        }
    }

    /// The unit with one more sample kept: the channels' levels now. A full
    /// store keeps what it has.
    pub open spec fn after_take_sample(self) -> Self {
        if self.sample_count < SAMPLE_CAPACITY {
            Apu {
                samples: spec_array_update(
                    self.samples,
                    self.sample_count as int,
                    self.spec_levels(),
                ),
                sample_count: (self.sample_count + 1) as usize,
                ..self
            }
        } else {
            self
        }
    }

    pub fn take_sample(&mut self)
        ensures
            *final(self) == old(self).after_take_sample(),
    {
        if self.sample_count < SAMPLE_CAPACITY {
            let l = self.levels();
            self.samples[self.sample_count] = l;
            self.sample_count = self.sample_count + 1;
        }
    }

    /// Forgets the samples kept, once the host has taken them.
    pub fn clear_samples(&mut self)
        ensures
            *final(self) == (Apu { sample_count: 0, ..*old(self) }),
    {
        self.sample_count = 0;
    }
}

/// The cycles that the CPU stands still while the DMC fetches a byte.
pub const DMC_STALL: u64 = 4;
/// What the DMC timer is reloaded with.
pub const DMC_TIMER_RELOAD: u8 = 8;

impl DMC {
    /// The output level after one bit of the sample: 2 up for a 1, 2 down for
    /// a 0, as far as the level stays within 0 to 127.
    pub open spec fn stepped_level(level: u8, bit: bool) -> u8 {
        if bit {
            if level <= 125 {
                (level + 2) as u8
            } else {
                level
            }
        } else {
            if level >= 2 {
                (level - 2) as u8
            } else {
                level
            }
        }
    }

    /// The channel after the memory reader has put `byte` into the sample
    /// buffer: the address one further (0x8000 after 0xFFFF) and one byte
    /// less to go; at the end of the sample it starts over if the loop flag is
    /// set, else raises the IRQ latch if IRQs are enabled.
    pub open spec fn after_fill(self, byte: u8) -> Self {
        let left = (self.bytes_remaining_counter - 1) as u16;
        let filled = DMC {
            sample_buffer: byte,
            sample_buffer_empty: false,
            address_counter: if self.address_counter == 0xFFFF {
                0x8000
            } else {
                (self.address_counter + 1) as u16
            },
            bytes_remaining_counter: left,
            ..self
        };
        if left != 0 {
            filled
        } else if (self.flags >> 6) & 1 == 1 {
            filled.restarted()
        } else if (self.flags >> 7) & 1 == 1 {
            DMC { interrupted: true, ..filled }
        } else {
            filled
        }
    }

    pub fn fill(&mut self, byte: u8)
        requires
            old(self).bytes_remaining_counter != 0,
        ensures
            *final(self) == old(self).after_fill(byte),
    {
        self.sample_buffer = byte;
        self.sample_buffer_empty = false;
        self.address_counter = if self.address_counter == 0xFFFF {
            0x8000
        } else {
            self.address_counter + 1
        };
        self.bytes_remaining_counter = self.bytes_remaining_counter - 1;
        if self.bytes_remaining_counter == 0 {
            if (self.flags >> 6) & 1 == 1 {
                self.restart();
            } else if (self.flags >> 7) & 1 == 1 {
                self.interrupted = true;
            }
        }
    }

    /// The channel after one timer clock: the timer counts down; when it
    /// runs out it is reloaded and the output unit works one bit. An output
    /// cycle has 8 bits; a new cycle takes the sample buffer into the shift
    /// register, or is silent if the buffer is empty.
    pub open spec fn after_clock(self) -> Self {
        if 0 < self.timer_counter {
            DMC { timer_counter: (self.timer_counter - 1) as u8, ..self }
        } else {
            let started = if self.bits_remaining_counter != 0 {
                self
            } else if self.sample_buffer_empty {
                DMC { bits_remaining_counter: 8, silence: true, ..self }
            } else {
                DMC {
                    bits_remaining_counter: 8,
                    silence: false,
                    shift_register: self.sample_buffer,
                    sample_buffer_empty: true,
                    sample_buffer: 0,
                    ..self
                }
            };
            DMC {
                timer_counter: DMC_TIMER_RELOAD,
                output_level: if started.silence {
                    started.output_level
                } else {
                    Self::stepped_level(started.output_level, started.shift_register & 1 == 1)
                },
                shift_register: started.shift_register >> 1,
                bits_remaining_counter: (started.bits_remaining_counter - 1) as u8,
                ..started
            }
        }
    }

    pub fn clock(&mut self)
        ensures
            *final(self) == old(self).after_clock(),
    {
        if 0 < self.timer_counter {
            self.timer_counter = self.timer_counter - 1;
            return ;
        }
        self.timer_counter = DMC_TIMER_RELOAD;
        if self.bits_remaining_counter == 0 {
            self.bits_remaining_counter = 8;
            if self.sample_buffer_empty {
                self.silence = true;
            } else {
                self.silence = false;
                self.shift_register = self.sample_buffer;
                self.sample_buffer_empty = true;
                self.sample_buffer = 0;
            }
        }
        if !self.silence {
            if self.shift_register & 1 == 1 {
                if self.output_level <= 125 {
                    self.output_level = self.output_level + 2;
                }
            } else {
                if self.output_level >= 2 {
                    self.output_level = self.output_level - 2;
                }
            }
        }
        self.shift_register = self.shift_register >> 1;
        self.bits_remaining_counter = self.bits_remaining_counter - 1;
    }
}

impl Apu {
    /// The unit after the envelopes and the triangle's linear counter were
    /// clocked.
    pub open spec fn after_quarter_frame(self) -> Self {
        Apu {
            pulse1: self.pulse1.after_clock_envelope(),
            pulse2: self.pulse2.after_clock_envelope(),
            triangle: self.triangle.after_clock_linear_counter(),
            noise: self.noise.after_clock_envelope(),
            ..self
        }
    }

    pub fn quarter_frame(&mut self)
        ensures
            *final(self) == old(self).after_quarter_frame(),
    {
        self.pulse1.clock_envelope();
        self.pulse2.clock_envelope();
        self.triangle.clock_linear_counter();
        self.noise.clock_envelope();
    }

    /// The unit after the length counters and the sweep units were clocked.
    pub open spec fn after_half_frame(self) -> Self {
        Apu {
            pulse1: Pulse {
                length_counter: self.pulse1.after_length_clock(),
                ..self.pulse1
            }.after_clock_sweep_unit(),
            pulse2: Pulse {
                length_counter: self.pulse2.after_length_clock(),
                ..self.pulse2
            }.after_clock_sweep_unit(),
            triangle: Triangle {
                length_counter: if 0 < self.triangle.length_counter
                    && !self.triangle.spec_length_counter_halt() {
                    (self.triangle.length_counter - 1) as u8
                } else {
                    self.triangle.length_counter
                },
                ..self.triangle
            },
            noise: Noise {
                length_counter: if 0 < self.noise.length_counter
                    && !self.noise.spec_length_counter_halt() {
                    (self.noise.length_counter - 1) as u8
                } else {
                    self.noise.length_counter
                },
                ..self.noise
            },
            ..self
        }
    }

    pub fn half_frame(&mut self)
        ensures
            *final(self) == old(self).after_half_frame(),
    {
        self.pulse1.clock_length_counter();
        self.pulse1.clock_sweep_unit();
        self.pulse2.clock_length_counter();
        self.pulse2.clock_sweep_unit();
        self.triangle.clock_length_counter();
        self.noise.clock_length_counter();
    }

    /// The unit after one step of the frame sequencer.
    /// - Four-step mode: every step clocks envelopes and linear counter;
    ///   steps 1 and 3 also clock length counters and sweep; step 3 raises the
    ///   frame IRQ unless inhibited.
    /// - Five-step mode: steps 0 and 2 clock envelopes and linear counter;
    ///   steps 1 and 3 clock length counters and sweep; step 4 is idle; no
    ///   frame IRQ.
    pub open spec fn after_frame_step(self) -> Self {
        let step = self.frame_sequence_step;
        if !self.spec_five_step() {
            let q = self.after_quarter_frame();
            let h = if step == 1 || step == 3 {
                q.after_half_frame()
            } else {
                q
            };
            Apu {
                frame_interrupted: h.frame_interrupted || (step == 3
                    && !self.spec_frame_interrupt_inhibit()),
                frame_sequence_step: if step >= 3 {
                    0
                } else {
                    (step + 1) as u8
                },
                ..h
            }
        } else {
            let q = if step == 0 || step == 2 {
                self.after_quarter_frame()
            } else {
                self
            };
            let h = if step == 1 || step == 3 {
                q.after_half_frame()
            } else {
                q
            };
            Apu {
                frame_sequence_step: if step >= 4 {
                    0
                } else {
                    (step + 1) as u8
                },
                ..h
            }
        }
    }

    pub fn frame_step(&mut self)
        ensures
            *final(self) == old(self).after_frame_step(),
    {
        let step = self.frame_sequence_step;
        if !self.five_step() {
            // four step
            self.quarter_frame();
            if step == 1 || step == 3 {
                self.half_frame();
            }
            if step == 3 && !self.frame_interrupt_inhibit() {
                self.frame_interrupted = true;
            }
            self.frame_sequence_step = if step >= 3 {
                0
            } else {
                step + 1
            };
        } else {
            // five step
            if step == 0 || step == 2 {
                self.quarter_frame();
            }
            if step == 1 || step == 3 {
                self.half_frame();
            }
            self.frame_sequence_step = if step >= 4 {
                0
            } else {
                step + 1
            };
        }
    }
}

/// A write to the fourth register of a pulse channel, 0x4003 or 0x4007,
/// resets the channel's sequencer and restarts its envelope.
pub proof fn law_pulse_restart(apu: Apu, value: u8)
    ensures
        apu.after_write(0x4003, value).pulse1.timer_sequencer == 0,
        apu.after_write(0x4003, value).pulse1.envelope_start,
        apu.after_write(0x4007, value).pulse2.timer_sequencer == 0,
        apu.after_write(0x4007, value).pulse2.envelope_start,
{
}

impl<M: Mapper, C: Controller> Nes<M, C> {
    /// Whether the DMC fetches a byte now: its sample buffer is empty and
    /// bytes remain.
    pub open spec fn dmc_fetches(&self) -> bool {
        self.apu.dmc.sample_buffer_empty && self.apu.dmc.bytes_remaining_counter != 0
    }

    /// The machine after the DMC was clocked: if it fetches, the byte at its
    /// address counter is read from the bus and the CPU stands still for 4
    /// cycles; then its timer is clocked.
    #[verifier::opaque]
    pub open spec fn after_dmc_clock(self) -> Self {
        let fetched = if self.dmc_fetches() {
            let read = self.after_read_bus(self.apu.dmc.address_counter);
            Nes {
                apu: Apu {
                    dmc: read.apu.dmc.after_fill(self.bus_value(self.apu.dmc.address_counter)),
                    ..read.apu
                },
                ..read
            }.ticked_by(DMC_STALL)
        } else {
            self
        };
        Nes { apu: Apu { dmc: fetched.apu.dmc.after_clock(), ..fetched.apu }, ..fetched }
    }
}

/// Clocks the DMC, and says whether it made the CPU stand still.
pub fn dmc_clock_timer<M: Mapper, C: Controller>(nes: &mut Nes<M, C>) -> (cpu_stall: bool)
    ensures
        cpu_stall == old(nes).dmc_fetches(),
        *final(nes) == old(nes).after_dmc_clock(),
        final(nes).ppu.scan == old(nes).ppu.scan,
        final(nes).cpu == (Cpu {
            cycles: old(nes).cpu.cycles.wrapping_add(
                if cpu_stall {
                    DMC_STALL
                } else {
                    0
                },
            ),
            ..old(nes).cpu
        }),
        final(nes).apu.cycles == old(nes).apu.cycles,
        final(nes).apu.sampling_rate == old(nes).apu.sampling_rate,
        final(nes).apu.frame_period == old(nes).apu.frame_period,
{
    reveal(Nes::after_dmc_clock);
    reveal(Nes::after_read_bus);
    let mut cpu_stall = false;
    // memory reader
    if nes.apu.dmc.sample_buffer_empty && nes.apu.dmc.bytes_remaining_counter != 0 {
        let byte = nes.read_bus(nes.apu.dmc.address_counter);
        nes.apu.dmc.fill(byte);
        nes.cpu.cycles = nes.cpu.cycles.wrapping_add(DMC_STALL);
        cpu_stall = true;
    }
    nes.apu.dmc.clock();
    cpu_stall
}

impl<M: Mapper, C: Controller> Nes<M, C> {
    /// The machine after the audio unit has worked one cycle: a sample is
    /// taken every `sampling_rate` cycles; pulse, noise and DMC timers are
    /// clocked every other cycle, the triangle timer every cycle; the frame
    /// sequencer steps every `frame_period` cycles.
    #[verifier::opaque]
    pub open spec fn after_apu_step(self) -> Self {
        let cycles = self.apu.cycles.wrapping_add(1);
        let counted = Nes { apu: Apu { cycles, ..self.apu }, ..self };
        let sampled = if self.apu.sampling_rate != 0 && cycles % self.apu.sampling_rate == 0 {
            Nes { apu: counted.apu.after_take_sample(), ..counted }
        } else {
            counted
        };
        let timed = if cycles % 2 == 0 {
            Nes {
                apu: Apu {
                    pulse1: sampled.apu.pulse1.after_clock_timer(),
                    pulse2: sampled.apu.pulse2.after_clock_timer(),
                    noise: sampled.apu.noise.after_clock_timer(),
                    ..sampled.apu
                },
                ..sampled
            }.after_dmc_clock()
        } else {
            sampled
        };
        let rung = Nes {
            apu: Apu { triangle: timed.apu.triangle.after_clock_timer(), ..timed.apu },
            ..timed
        };
        if self.apu.frame_period != 0 && cycles % self.apu.frame_period == 0 {
            Nes { apu: rung.apu.after_frame_step(), ..rung }
        } else {
            rung
        }
    }
}

/// Works the audio unit one cycle, and gives the cycles that the CPU stood
/// still for it: 4 if the DMC fetched a byte, else 0.
pub fn step<M: Mapper, C: Controller>(nes: &mut Nes<M, C>) -> (r: u64)
    ensures
        *final(nes) == old(nes).after_apu_step(),
        r == 0 || r == DMC_STALL,
        final(nes).cpu == (Cpu { cycles: old(nes).cpu.cycles.wrapping_add(r), ..old(nes).cpu }),
        final(nes).ppu.scan == old(nes).ppu.scan,
{
    reveal(Nes::after_apu_step);
    nes.apu.cycles = nes.apu.cycles.wrapping_add(1);
    // Down sampling
    if nes.apu.sampling_rate != 0 && nes.apu.cycles % nes.apu.sampling_rate == 0 {
        nes.apu.take_sample();
    }
    let cpu_stall = if nes.apu.cycles % 2 == 0 {
        nes.apu.pulse1.clock_timer();
        nes.apu.pulse2.clock_timer();
        nes.apu.noise.clock_timer();
        dmc_clock_timer(nes)
    } else {
        false
    };
    nes.apu.triangle.clock_timer();
    if nes.apu.frame_period != 0 && nes.apu.cycles % nes.apu.frame_period == 0 {
        nes.apu.frame_step();
    }
    if cpu_stall {
        DMC_STALL
    } else {
        0
    }
}

} // verus!
