//! The 2A03's sound unit: five channels, and a frame counter that times them.
use vstd::prelude::*;

use crate::apu::dmc::{lemma_dmc_stays_quiet, Dmc, DmcTick, DmcTraceSnapshot};
use crate::apu::frame_counter::{FrameCounter, FrameEvent};
use crate::apu::noise::Noise;
use crate::apu::pulse::Pulse;
use crate::apu::triangle::Triangle;
use crate::apu::length::LengthCounter;
use crate::clock::Region;

pub mod dmc;
pub mod envelope;
pub mod frame_counter;
pub mod laws;
pub mod length;
pub mod noise;
pub mod pulse;
pub mod sweep;
pub mod triangle;

verus! {

/// Signals the rest of the console sees.
#[derive(Debug, Clone, Copy, PartialEq, Eq, Structural)]
pub struct ApuOutputs {
    pub irq_line: bool,
}

/// A sample byte the delta modulation channel wants fetched. The bus stalls the CPU, reads it
/// and hands it back through [`Apu::dmc_dma_complete`].
#[derive(Debug, Clone, Copy, PartialEq, Eq, Structural)]
pub struct DmcDmaRequest {
    pub addr: u16,
}

/// Where the channels stand on the two axes of the non-linear mixer.
#[derive(Debug, Clone, Copy, PartialEq, Eq, Structural)]
pub struct MixLevels {
    /// Sum of the pulse channels, at most 30.
    pub pulse: u8,
    /// Three times the triangle, twice the noise and the delta modulation level, at most 202.
    pub tnd: u8,
}

#[derive(Debug, Clone, Copy, PartialEq, Eq, Structural)]
pub struct Apu {
    pub region: Region,
    /// CPU cycles since power-on.
    pub cycle: u64,
    pub frame_counter: FrameCounter,
    pub pulse1: Pulse,
    pub pulse2: Pulse,
    pub triangle: Triangle,
    pub noise: Noise,
    pub dmc: Dmc,
    pub frame_irq: bool,
    pub dmc_irq: bool,
}

/// `bit` where `on`, else zero.
pub open spec fn flag(on: bool, bit: u8) -> u8 {
    if on {
        bit
    } else {
        0
    }
}

impl Apu {
    #[verifier::opaque]
    pub open spec fn ok(self) -> bool {
        &&& self.frame_counter.ok()
        &&& self.pulse1.ok()
        &&& self.pulse2.ok()
        &&& self.triangle.ok()
        &&& self.noise.ok()
        &&& self.dmc.ok()
    }

    pub open spec fn power_on(region: Region) -> Apu {
        Apu {
            region,
            cycle: 0,
            frame_counter: FrameCounter::power_on(region),
            pulse1: Pulse::power_on(true),
            pulse2: Pulse::power_on(false),
            triangle: Triangle::power_on(),
            noise: Noise::power_on(region),
            dmc: Dmc::power_on(region),
            frame_irq: false,
            dmc_irq: false,
        }
    }

    pub open spec fn odd_cycle(self) -> bool {
        self.cycle & 1 == 1
    }

    pub open spec fn warm_reset(self) -> Apu {
        Apu {
            pulse1: Pulse { length: LengthCounter { enabled: false, ..self.pulse1.length }, ..self.pulse1 },
            pulse2: Pulse { length: LengthCounter { enabled: false, ..self.pulse2.length }, ..self.pulse2 },
            triangle: Triangle {
                length: LengthCounter { enabled: false, ..self.triangle.length },
                ..self.triangle
            },
            noise: Noise { length: LengthCounter { enabled: false, ..self.noise.length }, ..self.noise },
            dmc: self.dmc.switched(false, false),
            frame_irq: false,
            dmc_irq: false,
            frame_counter: FrameCounter {
                restart_delay: if self.cycle % 2 == 1 { 4 } else { 3 },
                ..self.frame_counter
            },
            ..self
        }
    }

    /// Every envelope and the linear counter clocked.
    pub open spec fn quarter_clocked(self) -> Apu {
        Apu {
            pulse1: Pulse { envelope: self.pulse1.envelope.clocked(), ..self.pulse1 },
            pulse2: Pulse { envelope: self.pulse2.envelope.clocked(), ..self.pulse2 },
            triangle: self.triangle.clocked_quarter(),
            noise: Noise { envelope: self.noise.envelope.clocked(), ..self.noise },
            ..self
        }
    }

    /// Every sweep and length counter clocked.
    pub open spec fn half_clocked(self) -> Apu {
        Apu {
            pulse1: self.pulse1.clocked_half(),
            pulse2: self.pulse2.clocked_half(),
            triangle: Triangle { length: self.triangle.length.clocked(), ..self.triangle },
            noise: Noise { length: self.noise.length.clocked(), ..self.noise },
            ..self
        }
    }

    /// Every staged length-counter write made.
    pub open spec fn committed(self) -> Apu {
        Apu {
            pulse1: Pulse { length: self.pulse1.length.committed(), ..self.pulse1 },
            pulse2: Pulse { length: self.pulse2.length.committed(), ..self.pulse2 },
            triangle: Triangle { length: self.triangle.length.committed(), ..self.triangle },
            noise: Noise { length: self.noise.length.committed(), ..self.noise },
            ..self
        }
    }

    /// The frame counter's part of a cycle.
    pub open spec fn frame_ticked(self) -> Apu {
        let event = self.frame_counter.event();
        let timed = Apu {
            frame_counter: self.frame_counter.ticked(),
            frame_irq: self.frame_irq || event.set_frame_irq,
            ..self
        };
        let quartered = if event.quarter {
            timed.quarter_clocked()
        } else {
            timed
        };
        if event.half {
            quartered.half_clocked()
        } else {
            quartered
        }
    }

    /// The channel timers' part of a cycle: triangle and delta modulation every CPU cycle, the
    /// others every second one.
    pub open spec fn timers_ticked(self) -> Apu {
        Apu {
            triangle: self.triangle.ticked(),
            dmc: self.dmc.ticked(),
            pulse1: if self.odd_cycle() { self.pulse1.ticked() } else { self.pulse1 },
            pulse2: if self.odd_cycle() { self.pulse2.ticked() } else { self.pulse2 },
            noise: if self.odd_cycle() { self.noise.ticked() } else { self.noise },
            ..self
        }
    }

    /// One CPU cycle: staged length writes are made after the frame counter's clocks and
    /// before the timers.
    #[verifier::opaque]
    pub open spec fn ticked(self) -> Apu {
        Apu {
            cycle: crate::clock::wrap64(self.cycle + 1),
            ..self.frame_ticked().committed().timers_ticked()
        }
    }

    /// The byte at `$4015`.
    #[verifier::opaque]
    pub open spec fn status(self) -> u8 {
        flag(self.pulse1.length.counter > 0, 0x01) | flag(self.pulse2.length.counter > 0, 0x02)
            | flag(self.triangle.length.counter > 0, 0x04) | flag(self.noise.length.counter > 0, 0x08)
            | flag(self.dmc.bytes_remaining > 0, 0x10) | flag(self.frame_irq, 0x40) | flag(self.dmc_irq, 0x80)
    }

    /// `$4015` written: channel enables, and the delta modulation interrupt acknowledged.
    pub open spec fn wrote_enables(self, data: u8) -> Apu {
        Apu {
            pulse1: Pulse { length: self.pulse1.length.switched(data & 0x01 != 0), ..self.pulse1 },
            pulse2: Pulse { length: self.pulse2.length.switched(data & 0x02 != 0), ..self.pulse2 },
            triangle: Triangle { length: self.triangle.length.switched(data & 0x04 != 0), ..self.triangle },
            noise: Noise { length: self.noise.length.switched(data & 0x08 != 0), ..self.noise },
            dmc: self.dmc.switched(data & 0x10 != 0, self.odd_cycle()),
            dmc_irq: false,
            ..self
        }
    }

    /// The unit after a register write; addresses without a register change nothing.
    #[verifier::opaque]
    pub open spec fn wrote(self, addr: u16, data: u8) -> Apu {
        if 0x4000 <= addr <= 0x4003 {
            Apu { pulse1: self.pulse1.wrote(addr - 0x4000, data), ..self }
        } else if 0x4004 <= addr <= 0x4007 {
            Apu { pulse2: self.pulse2.wrote(addr - 0x4004, data), ..self }
        } else if 0x4008 <= addr <= 0x400B {
            Apu { triangle: self.triangle.wrote(addr - 0x4008, data), ..self }
        } else if 0x400C <= addr <= 0x400F {
            Apu { noise: self.noise.wrote(addr - 0x400C, data), ..self }
        } else if 0x4010 <= addr <= 0x4013 {
            Apu {
                dmc: self.dmc.wrote(addr - 0x4010, data),
                dmc_irq: self.dmc_irq && !(addr == 0x4010 && data & 0x80 == 0),
                ..self
            }
        } else if addr == 0x4015 {
            self.wrote_enables(data)
        } else if addr == 0x4017 {
            Apu {
                frame_counter: self.frame_counter.wrote(data, self.odd_cycle()),
                frame_irq: self.frame_irq && data & 0x40 == 0,
                ..self
            }
        } else {
            self
        }
    }

    pub open spec fn request(self) -> Option<DmcDmaRequest> {
        if self.dmc.request {
            Some(DmcDmaRequest { addr: self.dmc.current_addr })
        } else {
            None
        }
    }

    pub open spec fn request_taken(self) -> Apu {
        Apu { dmc: Dmc { request: false, ..self.dmc }, ..self }
    }

    pub open spec fn fetched(self, byte: u8) -> Apu {
        Apu {
            dmc: self.dmc.filled(byte),
            dmc_irq: self.dmc_irq || self.dmc.finishes_with_irq(),
            ..self
        }
    }

    #[verifier::opaque]
    pub open spec fn levels(self) -> MixLevels {
        MixLevels {
            pulse: (self.pulse1.level() + self.pulse2.level()) as u8,
            tnd: (3 * self.triangle.level() + 2 * self.noise.level() + self.dmc.output_level) as u8,
        }
    }

    pub fn new(region: Region) -> (apu: Self)
        ensures
            apu == Apu::power_on(region),
            apu.ok(),
    {
        proof {
            reveal(Apu::ok);
        }
        Apu {
            region,
            cycle: 0,
            frame_counter: FrameCounter::new(region),
            pulse1: Pulse::new_pulse1(),
            pulse2: Pulse::new_pulse2(),
            triangle: Triangle::new(),
            noise: Noise::new(region),
            dmc: Dmc::new(region),
            frame_irq: false,
            dmc_irq: false,
        }
    }

    /// Warm reset. Channels are disabled with their length counts kept, the sample and both
    /// interrupts are dropped, and the frame counter restarts in its mode.
    pub fn reset(&mut self)
        requires
            old(self).ok(),
        ensures
            *final(self) == old(self).warm_reset(),
            final(self).ok(),
    {
        proof {
            reveal(Apu::ok);
        }
        self.pulse1.on_warm_reset();
        self.pulse2.on_warm_reset();
        self.triangle.on_warm_reset();
        self.noise.on_warm_reset();
        self.dmc.on_warm_reset();
        self.frame_irq = false;
        self.dmc_irq = false;
        let cycle: u64 = self.cycle;
        self.frame_counter.reset_on_cpu_reset(cycle);
    }

    pub fn region(&self) -> (region: Region)
        ensures
            region == self.region,
    {
        self.region
    }

    pub fn irq_line(&self) -> (asserted: bool)
        ensures
            asserted == (self.frame_irq || self.dmc_irq),
    {
        self.frame_irq || self.dmc_irq
    }

    /// Advances one CPU cycle.
    pub fn tick_cpu_cycle(&mut self)
        requires
            old(self).ok(),
        ensures
            *final(self) == old(self).ticked(),
            final(self).ok(),
    {
        proof {
            reveal(Apu::ok);
            reveal(Apu::ticked);
        }
        self.tick_frame();
        self.commit_lengths();
        self.tick_timers();
        self.cycle = self.cycle.wrapping_add(1);
    }

    fn tick_frame(&mut self)
        requires
            old(self).ok(),
        ensures
            *final(self) == old(self).frame_ticked(),
            final(self).ok(),
            final(self).cycle == old(self).cycle,
    {
        proof {
            reveal(Apu::ok);
        }
        let event: FrameEvent = self.frame_counter.tick();
        if event.set_frame_irq {
            self.frame_irq = true;
        }
        if event.quarter {
            self.clock_quarter();
        }
        if event.half {
            self.clock_half();
        }
    }

    fn commit_lengths(&mut self)
        requires
            old(self).ok(),
        ensures
            *final(self) == old(self).committed(),
            final(self).ok(),
            final(self).cycle == old(self).cycle,
    {
        proof {
            reveal(Apu::ok);
        }
        self.pulse1.commit_length_pending();
        self.pulse2.commit_length_pending();
        self.triangle.commit_length_pending();
        self.noise.commit_length_pending();
    }

    fn tick_timers(&mut self)
        requires
            old(self).ok(),
        ensures
            *final(self) == old(self).timers_ticked(),
            final(self).ok(),
            final(self).cycle == old(self).cycle,
    {
        proof {
            reveal(Apu::ok);
        }
        self.triangle.tick_cpu();
        let dmc_out: DmcTick = self.dmc.tick_cpu();
        if dmc_out.raised_irq {
            self.dmc_irq = true;
        }
        if self.cycle & 1 == 1 {
            self.pulse1.tick_apu();
            self.pulse2.tick_apu();
            self.noise.tick_apu();
        }
    }

    fn clock_quarter(&mut self)
        requires
            old(self).ok(),
        ensures
            *final(self) == old(self).quarter_clocked(),
            final(self).ok(),
    {
        proof {
            reveal(Apu::ok);
        }
        self.pulse1.clock_quarter_frame();
        self.pulse2.clock_quarter_frame();
        self.triangle.clock_quarter_frame();
        self.noise.clock_quarter_frame();
    }

    fn clock_half(&mut self)
        requires
            old(self).ok(),
        ensures
            *final(self) == old(self).half_clocked(),
            final(self).ok(),
    {
        proof {
            reveal(Apu::ok);
        }
        self.pulse1.clock_half_frame();
        self.pulse2.clock_half_frame();
        self.triangle.clock_half_frame();
        self.noise.clock_half_frame();
    }

    /// `$4015` read: channel status and both interrupts; clears the frame interrupt.
    pub fn read_status(&mut self) -> (status: u8)
        ensures
            status == old(self).status(),
            *final(self) == (Apu { frame_irq: false, ..*old(self) }),
            old(self).ok() ==> final(self).ok(),
    {
        proof {
            reveal(Apu::ok);
            reveal(Apu::status);
        }
        let mut status: u8 = 0;
        if self.pulse1.length_nonzero() {
            status = status | 0x01;
        }
        if self.pulse2.length_nonzero() {
            status = status | 0x02;
        }
        if self.triangle.length_nonzero() {
            status = status | 0x04;
        }
        if self.noise.length_nonzero() {
            status = status | 0x08;
        }
        if self.dmc.bytes_remaining() > 0 {
            status = status | 0x10;
        }
        if self.frame_irq {
            status = status | 0x40;
        }
        if self.dmc_irq {
            status = status | 0x80;
        }
        proof {
            assert(forall|x: u8| #![trigger x | 0u8] x | 0 == x) by (bit_vector);
            assert(forall|x: u8| #![trigger 0u8 | x] 0u8 | x == x) by (bit_vector);
        }
        self.frame_irq = false;
        status
    }

    fn write_enables(&mut self, data: u8)
        requires
            old(self).ok(),
        ensures
            *final(self) == old(self).wrote_enables(data),
            final(self).ok(),
    {
        proof {
            reveal(Apu::ok);
        }
        let odd_cycle: bool = (self.cycle & 1) == 1;
        self.pulse1.set_enabled((data & 0x01) != 0);
        self.pulse2.set_enabled((data & 0x02) != 0);
        self.triangle.set_enabled((data & 0x04) != 0);
        self.noise.set_enabled((data & 0x08) != 0);
        self.dmc.set_enabled((data & 0x10) != 0, odd_cycle);
        self.dmc_irq = false;
    }

    /// `$4000-$4017` register write.
    pub fn write_reg(&mut self, addr: u16, data: u8)
        requires
            old(self).ok(),
        ensures
            *final(self) == old(self).wrote(addr, data),
            final(self).ok(),
    {
        proof {
            reveal(Apu::ok);
            reveal(Apu::wrote);
        }
        match addr {
            0x4000..=0x4003 => self.pulse1.write_reg(addr - 0x4000, data),
            0x4004..=0x4007 => self.pulse2.write_reg(addr - 0x4004, data),
            0x4008..=0x400B => self.triangle.write_reg(addr - 0x4008, data),
            0x400C..=0x400F => self.noise.write_reg(addr - 0x400C, data),
            0x4010..=0x4013 => {
                self.dmc.write_reg(addr - 0x4010, data);
                if addr == 0x4010 && !self.dmc.irq_enabled() {
                    self.dmc_irq = false;
                }
            }
            0x4015 => self.write_enables(data),
            0x4017 => {
                let odd_cycle: bool = (self.cycle & 1) == 1;
                self.frame_counter.write_4017(data, odd_cycle);
                if (data & 0x40) != 0 {
                    self.frame_irq = false;
                }
            }
            _ => {}
        }
    }

    /// The pending sample fetch, handed out once.
    pub fn take_dmc_dma_request(&mut self) -> (request: Option<DmcDmaRequest>)
        ensures
            request == old(self).request(),
            *final(self) == old(self).request_taken(),
            old(self).ok() ==> final(self).ok(),
    {
        proof {
            reveal(Apu::ok);
        }
        self.dmc.take_dma_request()
    }

    pub fn dmc_dma_complete(&mut self, byte: u8)
        requires
            old(self).ok(),
        ensures
            *final(self) == old(self).fetched(byte),
            final(self).ok(),
    {
        proof {
            reveal(Apu::ok);
        }
        if self.dmc.dma_complete(byte) {
            self.dmc_irq = true;
        }
    }

    /// The delta modulation channel's internals, for tracing.
    pub fn dmc_trace(&self) -> (trace: DmcTraceSnapshot)
        ensures
            trace.bytes_remaining == self.dmc.bytes_remaining,
            trace.timer == self.dmc.timer,
            trace.bits_remaining == self.dmc.bits_remaining,
            trace.buffer_full == (self.dmc.buffer is Some),
            trace.request == self.dmc.request,
            trace.output_level == self.dmc.output_level,
    {
        self.dmc.trace_snapshot()
    }

    /// The mixer inputs of this cycle.
    pub fn mix_levels(&self) -> (levels: MixLevels)
        requires
            self.ok(),
        ensures
            levels == self.levels(),
            levels.pulse <= 30,
            levels.tnd <= 202,
    {
        proof {
            reveal(Apu::ok);
            reveal(Apu::levels);
        }
        let p1: u8 = self.pulse1.output();
        let p2: u8 = self.pulse2.output();
        let tr: u8 = self.triangle.output();
        let ns: u8 = self.noise.output();
        let dmc: u8 = self.dmc.output();
        MixLevels { pulse: p1 + p2, tnd: 3 * tr + 2 * ns + dmc }
    }
}

/// The delta modulation channel runs on its own, and stays quiet where it was.
pub proof fn lemma_tick_runs_dmc(apu: Apu)
    ensures
        apu.ticked().dmc == apu.dmc.ticked(),
        apu.dmc.quiet() ==> apu.ticked().dmc.quiet() && apu.ticked().request() is None,
{
    reveal(Apu::ticked);
    if apu.dmc.quiet() {
        lemma_dmc_stays_quiet(apu.dmc);
    }
}

/// A warm reset clears both interrupts and ends the sample, and keeps the length counts and the
/// delta modulation level.
pub proof fn lemma_warm_reset(apu: Apu)
    ensures
        !apu.warm_reset().frame_irq,
        !apu.warm_reset().dmc_irq,
        apu.warm_reset().dmc.quiet(),
        apu.warm_reset().dmc.output_level == apu.dmc.output_level,
        apu.warm_reset().pulse1.length.counter == apu.pulse1.length.counter,
        apu.warm_reset().pulse2.length.counter == apu.pulse2.length.counter,
        apu.warm_reset().triangle.length.counter == apu.triangle.length.counter,
        apu.warm_reset().noise.length.counter == apu.noise.length.counter,
        apu.warm_reset().frame_counter.five_step == apu.frame_counter.five_step,
        apu.warm_reset().frame_counter.irq_inhibit == apu.frame_counter.irq_inhibit,
{
}

/// Reading `$4015` reports the frame interrupt once; the delta modulation interrupt stays.
pub proof fn lemma_status_read_acknowledges(apu: Apu)
    ensures
        apu.frame_irq ==> apu.status() & 0x40 == 0x40,
        apu.dmc_irq ==> apu.status() & 0x80 == 0x80,
        (Apu { frame_irq: false, ..apu }).status() & 0x40 == 0,
        (Apu { frame_irq: false, ..apu }).dmc_irq == apu.dmc_irq,
{
    crate::apu::laws::lemma_status_bits(apu);
    crate::apu::laws::lemma_status_bits(Apu { frame_irq: false, ..apu });
}

/// A write to `$4015` acknowledges the delta modulation interrupt and never the frame
/// interrupt.
pub proof fn lemma_enable_write_acknowledges(apu: Apu, data: u8)
    ensures
        !apu.wrote(0x4015, data).dmc_irq,
        apu.wrote(0x4015, data).frame_irq == apu.frame_irq,
{
    reveal(Apu::wrote);
}

} // verus!
