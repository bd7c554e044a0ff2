//! The machine: CPU, picture unit, audio unit, work RAM, cartridge and
//! controllers as one value.

use vstd::prelude::*;
use vstd::array::{spec_array_fill_for_copy_type, spec_array_update};
use crate::apu::Apu;
use crate::controller::Controller;
use crate::cpu::{Cpu, STATUS_R};
use crate::interrupt::handle_interrupt;
use crate::scanline::{lemma_after_dots, FRAME_DOTS};
use crate::data_unit::{Byte, Word};
use crate::data_unit::{has_flag, put_flag};
use crate::interrupt::{Interrupt, IRQ, NMI, RESET};
use crate::ppu::Ppu;
use crate::rom::{Cartridge, Mapper, Rom};
use crate::trace::Trace;

verus! {

pub struct Nes<M: Mapper, C: Controller> {
    pub cpu: Cpu,
    /// The 2 KiB of work RAM.
    pub wram: [u8; 0x0800],
    pub interrupt: Interrupt,
    pub ppu: Ppu,
    pub apu: Apu,
    pub mapper: M,
    pub controller_1: C,
    pub controller_2: C,
}

impl<M: Mapper, C: Controller> Nes<M, C> {
    /// The machine at power-up around the given cartridge and controllers:
    /// registers and memory zeroed, no interrupt pending, the picture unit
    /// with the cartridge's mirroring mode.
    pub open spec fn power_up(
        sampling_rate: u32,
        frame_period: u32,
        mapper: M,
        controller_1: C,
        controller_2: C,
    ) -> Self {
        Nes {
            cpu: Cpu::zeroed(),
            wram: spec_array_fill_for_copy_type::<u8, 0x0800>(0u8),
            interrupt: Interrupt { bits: 0 },
            ppu: Ppu { mirroring: mapper.mirroring_mode(), ..Ppu::power_up() },
            apu: Apu::power_up(sampling_rate, frame_period),
            mapper,
            controller_1,
            controller_2,
        }
    }

    pub fn new(
        sampling_rate: u32,
        frame_period: u32,
        mapper: M,
        controller_1: C,
        controller_2: C,
    ) -> (r: Self)
        ensures
            r == Self::power_up(sampling_rate, frame_period, mapper, controller_1, controller_2),
            r.wf(),
    {
        let mut ppu = Ppu::new();
        ppu.mirroring = mapper.mirroring();
        Nes {
            cpu: Cpu::new(),
            wram: [0u8; 0x0800],
            interrupt: Interrupt::new(),
            ppu,
            apu: Apu::new(sampling_rate, frame_period),
            mapper,
            controller_1,
            controller_2,
        }
    }

    /// What every operation of the machine keeps: the scan counter within the
    /// frame.
    pub open spec fn wf(&self) -> bool {
        self.ppu.scan.wf()
    }

    /// The CPU cycles that passed from `self` to `after`, modulo 2^64.
    pub open spec fn spent(&self, after: Self) -> u64 {
        after.cpu.cycles.wrapping_sub(self.cpu.cycles)
    }

    /// The machine one CPU cycle later.
    pub open spec fn ticked(self) -> Self {
        Nes { cpu: Cpu { cycles: self.cpu.cycles.wrapping_add(1), ..self.cpu }, ..self }
    }

    /// The machine `n` CPU cycles later.
    pub open spec fn ticked_by(self, n: u64) -> Self {
        Nes { cpu: Cpu { cycles: self.cpu.cycles.wrapping_add(n), ..self.cpu }, ..self }
    }

    /// Spends one CPU cycle.
    pub fn tick(&mut self)
        ensures
            *final(self) == old(self).ticked(),
    {
        self.cpu.cycles = self.cpu.cycles.wrapping_add(1);
    }
}

/// The register that the CPU address `addr` (0x2000 to 0x3FFF) selects: the
/// eight registers repeat every 8 bytes.
pub open spec fn ppu_register_of(addr: u16) -> u16 {
    (0x2000 + addr % 8) as u16
}

pub fn to_ppu_addr(addr: u16) -> (r: u16)
    ensures
        r == ppu_register_of(addr),
{
    0x2000 + addr % 8
}

// The CPU-visible bus.
impl<M: Mapper, C: Controller> Nes<M, C> {
    /// The byte that a read of `addr` gives.
    ///
    /// | Range         | Gives                                   |
    /// |---------------|-----------------------------------------|
    /// | 0x0000-0x1FFF | work RAM, mirrored every 0x0800         |
    /// | 0x2000-0x3FFF | the PPU register `0x2000 + addr % 8`    |
    /// | 0x4000-0x4013 | the APU status                          |
    /// | 0x4015        | the APU status                          |
    /// | 0x4016        | controller 1                            |
    /// | 0x4017        | controller 2                            |
    /// | 0x4020-0xFFFF | the cartridge                           |
    /// | elsewhere     | 0                                       |
    #[verifier::opaque]
    pub open spec fn bus_value(&self, addr: u16) -> u8 {
        if addr < 0x2000 {
            self.wram[addr as int % 0x0800]
        } else if addr < 0x4000 {
            self.ppu_register_value(ppu_register_of(addr))
        } else if addr <= 0x4013 || addr == 0x4015 {
            self.apu.status_byte()
        } else if addr == 0x4016 {
            self.controller_1.output()
        } else if addr == 0x4017 {
            self.controller_2.output()
        } else if addr >= 0x4020 {
            self.mapper.peek(addr)
        } else {
            0
        }
    }

    /// The machine after a read of `addr`, the clock aside.
    #[verifier::opaque]
    pub open spec fn after_read_bus(self, addr: u16) -> Self {
        if addr < 0x2000 {
            self
        } else if addr < 0x4000 {
            self.after_read_ppu_register(ppu_register_of(addr))
        } else if addr <= 0x4013 || addr == 0x4015 {
            Nes { apu: Apu { frame_interrupted: false, ..self.apu }, ..self }
        } else if addr == 0x4016 {
            Nes { controller_1: self.controller_1.after_read(), ..self }
        } else if addr == 0x4017 {
            Nes { controller_2: self.controller_2.after_read(), ..self }
        } else if addr >= 0x4020 {
            Nes { mapper: self.mapper.after_read(addr), ..self }
        } else {
            self
        }
    }

    pub fn read_bus(&mut self, addr: u16) -> (r: u8)
        ensures
            r == old(self).bus_value(addr),
            *final(self) == old(self).after_read_bus(addr),
            final(self).cpu == old(self).cpu,
            final(self).ppu.scan == old(self).ppu.scan,
            final(self).interrupt == old(self).interrupt,
    {
        reveal(Nes::bus_value);
        reveal(Nes::after_read_bus);
        match addr {
            0x0000..=0x1FFF => self.wram[(addr % 0x0800) as usize],
            0x2000..=0x3FFF => self.read_ppu_register(to_ppu_addr(addr)).0,
            0x4000..=0x4013 | 0x4015 => self.apu.read_status().0,
            0x4016 => self.controller_1.read().0,
            0x4017 => self.controller_2.read().0,
            0x4020..=0xFFFF => self.mapper.read(Word(addr)).0,
            _ => 0,
        }
    }

    /// The machine after `value` was written to `addr`, the clock and OAM DMA
    /// aside.
    ///
    /// | Range         | Reaches                                 |
    /// |---------------|-----------------------------------------|
    /// | 0x0000-0x1FFF | work RAM, mirrored every 0x0800         |
    /// | 0x2000-0x3FFF | the PPU register `0x2000 + addr % 8`    |
    /// | 0x4000-0x4013 | the APU channel registers               |
    /// | 0x4015        | the APU channel enables                 |
    /// | 0x4016        | the strobe of both controllers          |
    /// | 0x4017        | the APU frame counter                   |
    /// | 0x4020-0xFFFF | the cartridge                           |
    /// | elsewhere     | nothing                                 |
    #[verifier::opaque]
    pub open spec fn after_write_bus(self, addr: u16, value: u8) -> Self {
        if addr < 0x2000 {
            Nes { wram: spec_array_update(self.wram, addr as int % 0x0800, value), ..self }
        } else if addr < 0x4000 {
            self.after_write_ppu_register(ppu_register_of(addr), value)
        } else if addr <= 0x4013 || addr == 0x4015 || addr == 0x4017 {
            Nes { apu: self.apu.after_write(addr, value), ..self }
        } else if addr == 0x4016 {
            Nes {
                controller_1: self.controller_1.after_write(value),
                controller_2: self.controller_2.after_write(value),
                ..self
            }
        } else if addr >= 0x4020 {
            Nes { mapper: self.mapper.after_write(addr, value), ..self }
        } else {
            self
        }
    }

    pub fn write_bus(&mut self, addr: u16, value: u8)
        ensures
            *final(self) == old(self).after_write_bus(addr, value),
            final(self).cpu == old(self).cpu,
            final(self).ppu.scan == old(self).ppu.scan,
            final(self).interrupt == old(self).interrupt,
            0x4000 <= addr < 0x4020 ==> final(self).mapper == old(self).mapper && final(self).ppu
                == old(self).ppu && final(self).wram == old(self).wram,
    {
        reveal(Nes::after_write_bus);
        match addr {
            0x0000..=0x1FFF => self.wram[(addr % 0x0800) as usize] = value,
            0x2000..=0x3FFF => self.write_ppu_register(to_ppu_addr(addr), Byte(value)),
            0x4000..=0x4013 | 0x4015 | 0x4017 => self.apu.write(addr, Byte(value)),
            0x4016 => {
                self.controller_1.write(Byte(value));
                self.controller_2.write(Byte(value));
            },
            0x4020..=0xFFFF => self.mapper.write(Word(addr), Byte(value)),
            _ => {},
        }
    }
}

// The scheduler.
impl<M: Mapper, C: Controller> Nes<M, C> {
    /// The machine after the audio unit has worked `n` cycles.
    pub open spec fn after_apu_steps(self, n: nat) -> Self
        decreases n,
    {
        if n == 0 {
            self
        } else {
            self.after_apu_steps((n - 1) as nat).after_apu_step()
        }
    }

    /// The machine after the picture unit has worked `n` dots.
    pub open spec fn after_ppu_steps(self, n: nat) -> Self
        decreases n,
    {
        if n == 0 {
            self
        } else {
            self.after_ppu_steps((n - 1) as nat).after_ppu_step()
        }
    }

    /// The machine after the CPU's part of a step: the interrupt that is due
    /// handled, or else one instruction run.
    pub open spec fn after_cpu_part(self) -> Self {
        if self.spec_interrupt_due() {
            self.after_handle_interrupt()
        } else {
            self.after_cpu_step()
        }
    }

    /// The machine after one step. The CPU handles the interrupt that is
    /// due, or else runs one instruction; the audio unit works one cycle for
    /// each cycle that this took; the picture unit works three dots for each
    /// cycle that passed, those that the CPU stood still for the DMC among
    /// them.
    #[verifier::opaque]
    pub open spec fn after_step(self) -> Self {
        let ran = self.after_cpu_part();
        let sounded = ran.after_apu_steps(self.spent(ran) as nat);
        sounded.after_ppu_steps((3 * self.spent(sounded)) as nat)
    }

    pub fn step(&mut self)
        requires
            old(self).wf(),
        ensures
            *final(self) == old(self).after_step(),
            final(self).wf(),
            old(self).ppu.scan.moved_on_to(final(self).ppu.scan),
            1 <= old(self).spent(*final(self)) <= 2610,
            has_flag(old(self).cpu.p.bits, STATUS_R) ==> has_flag(final(self).cpu.p.bits, STATUS_R),
            final(self).ppu.scan == old(self).ppu.scan.after_dots(
                final(self).ppu.mask.spec_render_enabled(),
                (3 * old(self).spent(*final(self))) as nat,
            ),
    {
        reveal(Nes::after_step);
        let cycles = if self.interrupt_due() {
            handle_interrupt(self)
        } else {
            crate::cpu::step(self)
        };
        let ghost ran = *self;
        let mut total: u64 = cycles;
        let mut i: u64 = 0;
        while i < cycles
            invariant
                i <= cycles,
                1 <= cycles <= 522,
                *self == ran.after_apu_steps(i as nat),
                cycles <= total <= cycles + 4 * i,
                total == old(self).spent(*self),
                cycles == old(self).spent(ran),
                self.ppu.scan == old(self).ppu.scan,
                self.cpu.p == ran.cpu.p,
            decreases cycles - i,
        {
            let cpu_steel = crate::apu::step(self);
            total = total + cpu_steel;
            i += 1;
        }
        self.run_ppu(total * 3);
    }

    /// Works the picture unit `dots` dots.
    pub fn run_ppu(&mut self, dots: u64)
        requires
            old(self).wf(),
        ensures
            *final(self) == old(self).after_ppu_steps(dots as nat),
            final(self).ppu.scan == old(self).ppu.scan.after_dots(
                old(self).ppu.mask.spec_render_enabled(),
                dots as nat,
            ),
            final(self).wf(),
            final(self).cpu == old(self).cpu,
            final(self).ppu.mask == old(self).ppu.mask,
            1 <= dots <= FRAME_DOTS - 2 ==> old(self).ppu.scan.moved_on_to(final(self).ppu.scan),
    {
        let ghost render = self.ppu.mask.spec_render_enabled();
        let mut j: u64 = 0;
        while j < dots
            invariant
                j <= dots,
                old(self).ppu.scan.wf(),
                *self == old(self).after_ppu_steps(j as nat),
                self.ppu.scan == old(self).ppu.scan.after_dots(render, j as nat),
                self.ppu.scan.wf(),
                self.ppu.mask == old(self).ppu.mask,
                render == old(self).ppu.mask.spec_render_enabled(),
                self.cpu == old(self).cpu,
            decreases dots - j,
        {
            crate::ppu::step(self);
            j += 1;
        }
        proof {
            if 1 <= dots <= FRAME_DOTS - 2 {
                lemma_after_dots(old(self).ppu.scan, render, dots as nat);
            }
        }
    }

    /// The machine after `n` steps.
    pub open spec fn after_steps(self, n: nat) -> Self
        decreases n,
    {
        if n == 0 {
            self
        } else {
            self.after_steps((n - 1) as nat).after_step()
        }
    }

    /// Steps until the picture unit has begun the next frame. Gives the
    /// machine after the least number of steps after which the frame counter
    /// has moved; it is then one further.
    pub fn step_frame(&mut self)
        requires
            old(self).wf(),
        ensures
            final(self).wf(),
            final(self).ppu.scan.frames == old(self).ppu.scan.frames.wrapping_add(1),
            exists|n: nat|
                {
                    &&& n >= 1
                    &&& *final(self) == old(self).after_steps(n)
                    &&& forall|k: nat|
                        k < n ==> (#[trigger] old(self).after_steps(k)).ppu.scan.frames == old(
                            self,
                        ).ppu.scan.frames
                },
    {
        let before = self.ppu.scan.frames;
        let ghost n: nat = 0;
        while before == self.ppu.scan.frames
            invariant
                self.wf(),
                before == old(self).ppu.scan.frames,
                *self == old(self).after_steps(n),
                self.ppu.scan.frames == before || (n >= 1 && self.ppu.scan.frames
                    == before.wrapping_add(1)),
                forall|k: nat|
                    k < n ==> (#[trigger] old(self).after_steps(k)).ppu.scan.frames == before,
            decreases
                    (if self.ppu.scan.frames == before {
                        FRAME_DOTS - self.ppu.scan.position()
                    } else {
                        0
                    }),
        {
            self.step();
            proof {
                n = n + 1;
            }
        }
    }
}

// Cartridge, reset and frame buffer.
impl<M: Mapper, C: Controller> Nes<M, C> {
    /// Puts `mapper` into the cartridge slot; the picture unit takes its
    /// mirroring mode.
    pub fn set_mapper(&mut self, mapper: M)
        ensures
            *final(self) == (Nes {
                mapper,
                ppu: Ppu { mirroring: mapper.mirroring_mode(), ..old(self).ppu },
                ..*old(self)
            }),
    {
        self.ppu.mirroring = mapper.mirroring();
        self.mapper = mapper;
    }

    /// The machine cleared for a start: NMI and IRQ off the latch and RESET
    /// on it, the work RAM zeroed, the picture unit as at power-up but for
    /// its mirroring mode.
    pub open spec fn cleared(self) -> Self {
        Nes {
            interrupt: Interrupt {
                bits: put_flag(
                    put_flag(put_flag(self.interrupt.bits, NMI, false), IRQ, false),
                    RESET,
                    true,
                ),
            },
            wram: spec_array_fill_for_copy_type::<u8, 0x0800>(0u8),
            ppu: Ppu { mirroring: self.ppu.mirroring, ..Ppu::power_up() },
            ..self
        }
    }

    pub fn clear(&mut self)
        ensures
            *final(self) == old(self).cleared(),
            final(self).wf(),
    {
        self.interrupt.remove(NMI);
        self.interrupt.remove(IRQ);
        self.interrupt.insert(RESET);
        self.wram = [0u8; 0x0800];
        let mirroring = self.ppu.mirroring;
        self.ppu = Ppu::new();
        self.ppu.mirroring = mirroring;
    }

    /// The frame that the host shows: 240 rows of 256 palette entries.
    pub fn current_buffer(&self) -> (r: &[u8; 61440])
        ensures
            *r == (if self.ppu.buffer_index == 0 {
                self.ppu.buffer_0
            } else {
                self.ppu.buffer_1
            }),
    {
        if self.ppu.buffer_index == 0 {
            &self.ppu.buffer_0
        } else {
            &self.ppu.buffer_1
        }
    }
}

impl<C: Controller> Nes<Cartridge, C> {
    /// Puts the cartridge of `rom` into the slot; the picture unit takes its
    /// mirroring mode.
    pub fn set_rom(&mut self, rom: Rom)
        ensures
            *final(self) == (Nes {
                mapper: rom.mapper,
                ppu: Ppu { mirroring: rom.mapper.mirroring_mode(), ..old(self).ppu },
                ..*old(self)
            }),
    {
        self.set_mapper(rom.mapper);
    }
}

// The nestest harness.
impl<M: Mapper, C: Controller> Nes<M, C> {
    /// The cycle count behind which the harness stops.
    pub open spec fn nestest_end() -> u64 {
        26554
    }

    /// The machine as the test ROM's automated mode starts: `PC` 0xC000, `P`
    /// 0x24, 7 cycles spent and the picture unit 21 dots on.
    pub open spec fn nestest_start(self) -> Self {
        Nes {
            cpu: Cpu { pc: 0xC000, p: crate::cpu::Status { bits: 0x24 }, cycles: 7, ..self.cpu },
            ..self
        }.after_ppu_steps(21)
    }

    pub fn nestest_init(&mut self)
        requires
            old(self).wf(),
        ensures
            *final(self) == old(self).nestest_start(),
            final(self).wf(),
            final(self).cpu.cycles == 7,
    {
        // initial state
        self.cpu.pc = 0xC000;
        // https://wiki.nesdev.com/w/index.php/CPU_power_up_state#cite_ref-1
        self.cpu.p = crate::cpu::Status::from_bits_truncate(0x24);
        self.cpu.cycles = 7;
        self.run_ppu(21);
    }

    /// The machine after one round of the harness: the interrupt that is due
    /// handled, the trace taken, one instruction run, and the picture unit
    /// worked three dots for each cycle of the instruction.
    #[verifier::opaque]
    pub open spec fn after_nestest_step(self) -> Self {
        let traced = self.after_handle_interrupt().after_trace();
        let ran = traced.after_cpu_step();
        ran.after_ppu_steps((3 * traced.spent(ran)) as nat)
    }

    /// Does one round of the harness and gives the trace taken in it.
    pub fn nestest_step(&mut self) -> (r: Trace)
        requires
            old(self).wf(),
        ensures
            r.taken_of(old(self).after_handle_interrupt()),
            *final(self) == old(self).after_nestest_step(),
            final(self).wf(),
            1 <= old(self).spent(*final(self)) <= 529,
            old(self).spent(old(self).after_handle_interrupt()) <= 7,
    {
        reveal(Nes::after_nestest_step);
        handle_interrupt(self);
        let trace = Trace::new(self);
        let cycles = crate::cpu::step(self);
        self.run_ppu(cycles * 3);
        trace
    }

    /// The machine after `n` rounds of the harness.
    pub open spec fn after_nestest_steps(self, n: nat) -> Self
        decreases n,
    {
        if n == 0 {
            self
        } else {
            self.after_nestest_steps((n - 1) as nat).after_nestest_step()
        }
    }

    /// Runs the harness from its start until more than 26554 cycles are
    /// spent, and gives the trace of every instruction run, in order. The
    /// machine is left after the least number of rounds that spend so many
    /// cycles; there is one trace for each round.
    pub fn nestest(&mut self) -> (r: Vec<Trace>)
        requires
            old(self).wf(),
        ensures
            final(self).wf(),
            final(self).cpu.cycles > Self::nestest_end(),
            r.len() >= 1,
            *final(self) == old(self).nestest_start().after_nestest_steps(r.len() as nat),
            forall|i: int|
                0 <= i < r.len() ==> (#[trigger] r[i]).taken_of(
                    old(self).nestest_start().after_nestest_steps(
                        i as nat,
                    ).after_handle_interrupt(),
                ),
            forall|i: int|
                0 <= i < r.len() ==> (#[trigger] old(self).nestest_start().after_nestest_steps(
                    i as nat,
                )).cpu.cycles <= Self::nestest_end(),
    {
        self.nestest_init();
        let ghost start = *self;
        let mut traces: Vec<Trace> = Vec::new();
        loop
            invariant_except_break
                self.cpu.cycles <= 26554,
            invariant
                self.wf(),
                start == old(self).nestest_start(),
                *self == start.after_nestest_steps(traces.len() as nat),
                forall|i: int|
                    0 <= i < traces.len() ==> (#[trigger] traces[i]).taken_of(
                        start.after_nestest_steps(i as nat).after_handle_interrupt(),
                    ),
                forall|i: int|
                    0 <= i < traces.len() ==> (#[trigger] start.after_nestest_steps(
                        i as nat,
                    )).cpu.cycles <= 26554,
            ensures
                self.cpu.cycles > 26554,
                traces.len() >= 1,
            decreases 26555 - self.cpu.cycles,
        {
            let trace = self.nestest_step();
            traces.push(trace);
            if 26554 < self.cpu.cycles {
                break ;
            }
        }
        traces
    }
}

} // verus!
