//! The emulator as the host drives it.

use vstd::prelude::*;
use crate::apu::Levels;
use crate::controller::Controller;
use crate::data_unit::Byte;
use crate::nes::Nes;
use crate::rom::inesfile::{chr_data, flag6_of, mapper_number, parse_error, prg_data};
use crate::ppu::Ppu;
use crate::rom::{Cartridge, CartridgeError, Mapper, MapperDefault, Rom};

verus! {

pub struct Emulator<C: Controller> {
    pub nes: Nes<Cartridge, C>,
}

impl<C: Controller> Emulator<C> {
    /// An emulator with an empty cartridge slot. A sample is taken every
    /// `sampling_rate` CPU cycles, and the frame sequencer steps every
    /// `frame_period` CPU cycles.
    pub fn new(sampling_rate: u32, frame_period: u32, c1: C, c2: C) -> (r: Self)
        ensures
            r.nes == Nes::power_up(
                sampling_rate,
                frame_period,
                Cartridge::Empty(MapperDefault {  }),
                c1,
                c2,
            ),
            r.nes.wf(),
    {
        Emulator {
            nes: Nes::new(
                sampling_rate,
                frame_period,
                Cartridge::Empty(MapperDefault {  }),
                c1,
                c2,
            ),
        }
    }

    pub fn set_controllers(&mut self, c1: C, c2: C)
        ensures
            final(self).nes == (Nes { controller_1: c1, controller_2: c2, ..old(self).nes }),
    {
        self.nes.controller_1 = c1;
        self.nes.controller_2 = c2;
    }

    /// Sets the buttons of the first controller.
    pub fn update_controller_1(&mut self, state: u8)
        ensures
            final(self).nes == (Nes {
                controller_1: old(self).nes.controller_1.after_update(state),
                ..old(self).nes
            }),
    {
        self.nes.controller_1.update(Byte(state));
    }

    /// Sets the buttons of the second controller.
    pub fn update_controller_2(&mut self, state: u8)
        ensures
            final(self).nes == (Nes {
                controller_2: old(self).nes.controller_2.after_update(state),
                ..old(self).nes
            }),
    {
        self.nes.controller_2.update(Byte(state));
    }

    /// Powers the machine on: the CPU and the audio unit, then the picture
    /// unit.
    pub fn power_on(&mut self)
        ensures
            final(self).nes == (Nes {
                ppu: old(self).nes.ppu.after_power_on(),
                ..old(self).nes.after_power_on()
            }),
            final(self).nes.wf(),
    {
        self.nes.power_on();
        self.nes.ppu.power_on();
    }

    /// Puts the cartridge `rom` into the slot and resets the machine: the CPU
    /// goes through its reset sequence, the picture unit is reset and takes
    /// the cartridge's mirroring mode.
    pub fn insert_cartridge(&mut self, rom: Rom)
        ensures
            final(self).nes == ({
                let reset = (Nes { mapper: rom.mapper, ..old(self).nes }).after_reset();
                Nes {
                    ppu: Ppu {
                        mirroring: reset.mapper.mirroring_mode(),
                        ..reset.ppu.after_reset()
                    },
                    ..reset
                }
            }),
            final(self).nes.wf(),
    {
        self.nes.mapper = rom.mapper;
        self.nes.reset();
        self.nes.ppu.reset();
        self.nes.ppu.mirroring = self.nes.mapper.mirroring();
    }

    /// Inserts the cartridge `rom`, powers the machine on and clears it for a
    /// start.
    pub fn insert_rom(&mut self, rom: Rom)
        ensures
            final(self).nes == (Nes {
                mapper: rom.mapper,
                ppu: Ppu { mirroring: rom.mapper.mirroring_mode(), ..old(self).nes.ppu },
                ..old(self).nes
            }).after_power_on().cleared(),
            final(self).nes.wf(),
            final(self).nes.mapper == rom.mapper,
    {
        self.nes.set_rom(rom);
        self.nes.power_on();
        self.nes.clear();
    }

    /// Reads the iNES image `data` and inserts it. Fails, and leaves the
    /// machine as it is, where `Rom::from_data` fails.
    pub fn load_rom_data(&mut self, data: Vec<u8>) -> (r: Result<(), CartridgeError>)
        ensures
            match parse_error(data@) {
                Some(e) => r == Err::<(), CartridgeError>(e) && *final(self) == *old(self),
                None => if mapper_number(data@) != 0 {
                    &&& r == Err::<(), CartridgeError>(
                        CartridgeError::NotSupportedMapper(mapper_number(data@)),
                    )
                    &&& *final(self) == *old(self)
                } else {
                    &&& r == Ok::<(), CartridgeError>(())
                    &&& final(self).nes.wf()
                    &&& final(self).nes.mapper matches Cartridge::Nrom(m)
                    &&& m.holds(prg_data(data@), chr_data(data@), flag6_of(data@))
                    &&& final(self).nes == (Nes {
                        mapper: final(self).nes.mapper,
                        ppu: Ppu {
                            mirroring: final(self).nes.mapper.mirroring_mode(),
                            ..old(self).nes.ppu
                        },
                        ..old(self).nes
                    }).after_power_on().cleared()
                },
            },
    {
        match Rom::from_data(data) {
            Err(e) => Err(e),
            Ok(rom) => {
                self.insert_rom(rom);
                Ok(())
            },
        }
    }

    /// Advances the machine until the picture unit has begun the next frame.
    pub fn step_frame(&mut self)
        requires
            old(self).nes.wf(),
        ensures
            final(self).nes.wf(),
            final(self).nes.ppu.scan.frames == old(self).nes.ppu.scan.frames.wrapping_add(1),
            exists|n: nat|
                {
                    &&& n >= 1
                    &&& final(self).nes == old(self).nes.after_steps(n)
                    &&& forall|k: nat|
                        k < n ==> (#[trigger] old(self).nes.after_steps(k)).ppu.scan.frames == old(
                            self,
                        ).nes.ppu.scan.frames
                },
    {
        self.nes.step_frame();
    }

    /// Advances the machine by one instruction or interrupt.
    pub fn step(&mut self)
        requires
            old(self).nes.wf(),
        ensures
            final(self).nes == old(self).nes.after_step(),
            final(self).nes.wf(),
    {
        self.nes.step();
    }

    /// The frame to show: 240 rows of 256 palette entries.
    pub fn current_buffer(&self) -> (r: &[u8; 61440])
        ensures
            *r == (if self.nes.ppu.buffer_index == 0 {
                self.nes.ppu.buffer_0
            } else {
                self.nes.ppu.buffer_1
            }),
    {
        self.nes.current_buffer()
    }

    /// Gives the channel levels sampled since the last call, oldest first, and
    /// forgets them.
    pub fn take_samples(&mut self) -> (r: Vec<Levels>)
        ensures
            r@ == old(self).nes.apu.samples@.subrange(
                0,
                if old(self).nes.apu.sample_count < 2048 {
                    old(self).nes.apu.sample_count as int
                } else {
                    2048
                },
            ),
            final(self).nes == (Nes {
                apu: crate::apu::Apu { sample_count: 0, ..old(self).nes.apu },
                ..old(self).nes
            }),
    {
        let mut out: Vec<Levels> = Vec::new();
        let n = if self.nes.apu.sample_count < 2048 {
            self.nes.apu.sample_count
        } else {
            2048
        };
        let mut i: usize = 0;
        while i < n
            invariant
                i <= n,
                n <= 2048,
                *self == *old(self),
                out@ == self.nes.apu.samples@.subrange(0, i as int),
            decreases n - i,
        {
            out.push(self.nes.apu.samples[i]);
            i += 1;
        }
        self.nes.apu.clear_samples();
        out
    }
}

} // verus!
