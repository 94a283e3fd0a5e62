//! The two halves of a CPU cycle, and the access between them.
use vstd::prelude::*;

use crate::apu::{DmcDmaRequest, MixLevels};
use crate::bus::state::{after_dots, BusState};
use crate::bus::Bus;
use crate::mapper::Mapper;
use crate::ppu::Ppu;

verus! {

/// Runs the PPU for `dots` dots.
fn tick_dots<M: Mapper, P: Ppu<M>>(ppu: &mut P, cart: &mut M, dots: u64)
    requires
        P::ok(old(ppu)@),
        M::ok(old(cart)@),
    ensures
        P::ok(final(ppu)@),
        M::ok(final(cart)@),
        (final(ppu)@, final(cart)@) == after_dots::<M, P>(old(ppu)@, old(cart)@, dots as nat),
{
    let mut i: u64 = 0;
    while i < dots
        invariant
            i <= dots,
            P::ok(ppu@),
            M::ok(cart@),
            (ppu@, cart@) == after_dots::<M, P>(old(ppu)@, old(cart)@, i as nat),
        decreases dots - i,
    {
        ppu.tick(cart);
        i = i + 1;
    }
}

impl<M: Mapper, P: Ppu<M>> Bus<M, P> {
    fn tick_ppu(&mut self, dots: u64)
        requires
            old(self)@.ok(),
        ensures
            final(self)@ == old(self)@.dotted(dots as int),
            final(self)@.ok(),
    {
        tick_dots(&mut self.ppu, &mut self.mapper, dots);
    }

    fn begin_cycle(&mut self, is_read: bool) -> (dots: u64)
        requires
            old(self)@.ok(),
        ensures
            final(self)@ == old(self)@.begun(is_read),
            final(self)@.ok(),
            dots == old(self)@.clock.dots(old(self)@.clock.start_ticks(is_read)),
    {
        self.prev_irq_line = self.irq_line;
        self.prev_nmi_pending = self.nmi_pending;
        self.clock.start_cpu_cycle(is_read)
    }

    fn tick_devices(&mut self)
        requires
            old(self)@.ok(),
        ensures
            final(self)@ == old(self)@.ticked(),
            final(self)@.ok(),
    {
        self.apu.tick_cpu_cycle();
        self.mapper.on_cpu_cycle();
    }

    fn poll_irq(&mut self)
        requires
            old(self)@.ok(),
        ensures
            final(self)@ == old(self)@.irq_polled(),
            final(self)@.ok(),
    {
        self.irq_line = self.apu.irq_line() || self.mapper.irq_line();
    }

    fn arm_dmc(&mut self)
        requires
            old(self)@.ok(),
        ensures
            final(self)@ == old(self)@.dmc_armed(),
            final(self)@.ok(),
    {
        if !self.dmc_dma_running {
            let request: Option<DmcDmaRequest> = self.apu.take_dmc_dma_request();
            if let Some(req) = request {
                self.dmc_dma_running = true;
                self.need_halt = true;
                self.need_dummy_read = true;
                self.dmc_dma_addr = req.addr;
            }
        }
    }

    /// The part of a cycle before the access.
    pub(crate) fn tick_pre_access(&mut self, is_read: bool)
        requires
            old(self)@.ok(),
        ensures
            final(self)@ == old(self)@.pre(is_read),
            final(self)@.ok(),
    {
        proof {
            reveal(BusState::pre);
        }
        let pre_ticks: u64 = self.begin_cycle(is_read);
        self.tick_ppu(pre_ticks);
        self.tick_devices();
        self.poll_irq();
        self.arm_dmc();
    }

    fn end_clock(&mut self, is_read: bool) -> (dots: u64)
        requires
            old(self)@.ok(),
        ensures
            final(self)@ == (BusState { clock: old(self)@.clock.ended(is_read), ..old(self)@ }),
            final(self)@.ok(),
            dots == old(self)@.clock.dots(old(self)@.clock.end_ticks(is_read)),
    {
        self.clock.end_cpu_cycle(is_read)
    }

    fn latch_nmi(&mut self)
        requires
            old(self)@.ok(),
        ensures
            final(self)@ == old(self)@.nmi_latched(),
            final(self)@.ok(),
    {
        let nmi_flag: bool = self.ppu.nmi_flag();
        if !self.prev_nmi_flag && nmi_flag {
            self.nmi_pending = true;
        }
        self.prev_nmi_flag = nmi_flag;
    }

    #[verifier::rlimit(40)]
    fn sample_audio(&mut self)
        requires
            old(self)@.ok(),
        ensures
            final(self)@ == old(self)@.sampled(),
            final(self)@.ok(),
    {
        let levels: MixLevels = self.apu.mix_levels();
        match &mut self.audio_sink {
            Some(sink) => sink.on_cpu_cycle(levels),
            None => {}
        }
    }

    /// The part of a cycle after the access.
    pub(crate) fn tick_post_access(&mut self, is_read: bool)
        requires
            old(self)@.ok(),
        ensures
            final(self)@ == old(self)@.post(is_read),
            final(self)@.ok(),
    {
        proof {
            reveal(BusState::post);
        }
        let post_ticks: u64 = self.end_clock(is_read);
        self.tick_ppu(post_ticks);
        self.poll_irq();
        self.latch_nmi();
        self.sample_audio();
    }

    fn read_port(&mut self, addr: u16) -> (byte: u8)
        requires
            old(self)@.ok(),
            0x4015 <= addr <= 0x4017,
        ensures
            byte == old(self)@.bus_byte(addr),
            final(self)@ == old(self)@.accessed(addr),
            final(self)@.ok(),
    {
        if addr == 0x4015 {
            (self.apu.read_status() & 0xDF) | (self.open_bus & 0x20)
        } else if addr == 0x4016 {
            let bit: u8 = self.controllers[0].read();
            (self.open_bus & 0xA0) | 0x40 | (bit & 1)
        } else {
            let bit: u8 = self.controllers[1].read();
            (self.open_bus & 0xA0) | 0x40 | (bit & 1)
        }
    }

    fn read_cart(&mut self, addr: u16) -> (byte: u8)
        requires
            old(self)@.ok(),
            0x4020 <= addr,
        ensures
            byte == old(self)@.bus_byte(addr),
            final(self)@ == old(self)@.accessed(addr),
            final(self)@.ok(),
    {
        if addr < 0x6000 {
            match self.mapper.cpu_read_ex(addr) {
                Some(byte) => byte,
                None => self.open_bus,
            }
        } else {
            self.mapper.cpu_read(addr)
        }
    }

    fn read_ppu(&mut self, addr: u16) -> (byte: u8)
        requires
            old(self)@.ok(),
            0x2000 <= addr <= 0x3FFF,
        ensures
            byte == old(self)@.bus_byte(addr),
            final(self)@ == old(self)@.accessed(addr),
            final(self)@.ok(),
    {
        self.ppu.cpu_read(addr, &mut self.mapper)
    }

    /// Reads the device at `addr`.
    pub(crate) fn access(&mut self, addr: u16) -> (byte: u8)
        requires
            old(self)@.ok(),
        ensures
            byte == old(self)@.bus_byte(addr),
            final(self)@ == old(self)@.accessed(addr),
            final(self)@.ok(),
    {
        match addr {
            0x0000..=0x1FFF => self.ram[addr as usize % 0x800],
            0x2000..=0x3FFF => self.read_ppu(addr),
            0x4015..=0x4017 => self.read_port(addr),
            0x4020..=0xFFFF => self.read_cart(addr),
            _ => self.open_bus,
        }
    }
}

} // verus!
