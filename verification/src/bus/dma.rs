//! DMA: sample fetches, sprite transfers, and the two interleaved.
use vstd::prelude::*;

use crate::bus::state::{lemma_dma_step, lemma_sprite_write_cycle, BusState};
use crate::bus::Bus;
use crate::mapper::Mapper;
use crate::ppu::Ppu;

verus! {

impl<M: Mapper, P: Ppu<M>> Bus<M, P> {
    /// A read as DMA makes it, without the cycle around it.
    pub(crate) fn dma_bus_read(&mut self, addr: u16) -> (byte: u8)
        requires
            old(self)@.ok(),
        ensures
            byte == old(self)@.bus_byte(addr),
            final(self)@ == old(self)@.dma_read(addr),
            final(self)@.ok(),
    {
        let value: u8 = self.access(addr);
        self.open_bus = value;
        value
    }

    pub(crate) fn dma_read_cycle(&mut self, addr: u16) -> (byte: u8)
        requires
            old(self)@.ok(),
        ensures
            byte == old(self)@.pre(true).bus_byte(addr),
            final(self)@ == old(self)@.dma_read_cycle(addr),
            final(self)@.ok(),
    {
        proof {
            reveal(BusState::dma_read_cycle);
        }
        self.tick_pre_access(true);
        let byte: u8 = self.dma_bus_read(addr);
        self.tick_post_access(true);
        byte
    }

    pub(crate) fn dma_wait_cycle(&mut self, pending_addr: u16)
        requires
            old(self)@.ok(),
        ensures
            final(self)@ == old(self)@.dma_wait_cycle(pending_addr),
            final(self)@.ok(),
    {
        proof {
            reveal(BusState::dma_wait_cycle);
            reveal(BusState::dma_read_cycle);
        }
        self.tick_pre_access(true);
        if !(pending_addr == 0x4016 || pending_addr == 0x4017) {
            self.dma_bus_read(pending_addr);
        }
        self.tick_post_access(true);
    }

    fn read_sample(&mut self) -> (byte: u8)
        requires
            old(self)@.ok(),
        ensures
            byte == M::cpu_byte(old(self)@.mapper, old(self)@.dmc_dma_addr),
            final(self)@ == old(self)@.sample_read(),
            final(self)@.ok(),
    {
        let addr: u16 = self.dmc_dma_addr;
        let byte: u8 = self.mapper.cpu_read(addr);
        self.open_bus = byte;
        byte
    }

    fn deliver_sample(&mut self, byte: u8)
        requires
            old(self)@.ok(),
        ensures
            final(self)@ == old(self)@.sample_delivered(byte),
            final(self)@.ok(),
    {
        self.apu.dmc_dma_complete(byte);
        self.dmc_dma_running = false;
    }

    fn dmc_fetch_cycle(&mut self)
        requires
            old(self)@.ok(),
        ensures
            final(self)@ == old(self)@.dmc_fetch_cycle(),
            final(self)@.ok(),
    {
        proof {
            reveal(BusState::dmc_fetch_cycle);
        }
        self.tick_pre_access(true);
        let byte: u8 = self.read_sample();
        self.tick_post_access(true);
        self.deliver_sample(byte);
    }

    fn store_sprite(&mut self, byte: u8)
        requires
            old(self)@.ok(),
        ensures
            final(self)@ == old(self)@.sprite_stored(byte),
            final(self)@.ok(),
    {
        self.ppu.cpu_write(0x2004, byte, &mut self.mapper);
        self.open_bus = byte;
    }

    fn sprite_write_cycle(&mut self, byte: u8)
        requires
            old(self)@.ok(),
        ensures
            final(self)@ == old(self)@.sprite_write_cycle(byte),
            final(self)@.ok(),
    {
        proof {
            reveal(BusState::sprite_write_cycle);
        }
        self.tick_pre_access(false);
        self.store_sprite(byte);
        self.tick_post_access(false);
    }

    /// Burns one of the two flags; `false` where neither was set.
    fn clear_flag(&mut self) -> (cleared: bool)
        requires
            old(self)@.ok(),
        ensures
            final(self)@ == old(self)@.flag_cleared(),
            final(self)@.ok(),
            cleared == old(self)@.flagged(),
    {
        if self.need_halt {
            self.need_halt = false;
            true
        } else if self.need_dummy_read {
            self.need_dummy_read = false;
            true
        } else {
            false
        }
    }

    /// Stores a sprite byte, the last one of the transfer at half-step `0x1FF`.
    fn sprite_write_step(&mut self, counter: u16, byte: u8)
        requires
            old(self)@.ok(),
            old(self)@.sprite_dma_running,
            counter < 0x200,
        ensures
            final(self)@ == (BusState {
                sprite_dma_running: counter + 1 < 0x200,
                ..old(self)@.sprite_write_cycle(byte)
            }),
            final(self)@.ok(),
    {
        proof {
            lemma_sprite_write_cycle(self@, byte);
        }
        self.sprite_write_cycle(byte);
        if counter + 1 >= 0x200 {
            self.sprite_dma_running = false;
        }
    }

    /// One cycle of DMA; returns the half-steps and the sprite byte after it.
    #[verifier::rlimit(40)]
    fn dma_step(&mut self, pending_addr: u16, counter: u16, byte: u8) -> (next: (u16, u8))
        requires
            old(self)@.ok(),
            old(self)@.dma_busy(),
            old(self)@.dma_aligned(counter as int),
            counter <= 0x200,
        ensures
            (final(self)@, next.0 as int, next.1) == old(self)@.dma_step(pending_addr, counter as int, byte),
            final(self)@.ok(),
            next.0 <= 0x200,
    {
        proof {
            reveal(BusState::dma_step);
        }
        let get_cycle: bool = self.clock.cpu_cycles() % 2 == 0;
        let clear_flag: bool = self.clear_flag();
        if get_cycle {
            if self.dmc_dma_running && !clear_flag {
                self.dmc_fetch_cycle();
                (counter, byte)
            } else if self.sprite_dma_running {
                let sprite_addr: u16 = self.sprite_dma_page as u16 * 0x100 + counter / 2 % 0x100;
                let sprite_byte: u8 = self.dma_read_cycle(sprite_addr);
                (counter + 1, sprite_byte)
            } else {
                self.dma_wait_cycle(pending_addr);
                (counter, byte)
            }
        } else if self.sprite_dma_running && counter % 2 == 1 {
            self.sprite_write_step(counter, byte);
            (counter + 1, byte)
        } else {
            self.dma_wait_cycle(pending_addr);
            (counter, byte)
        }
    }

    /// Runs pending DMA to its end, ahead of a read of `pending_addr`.
    pub(crate) fn process_pending_dma(&mut self, pending_addr: u16)
        requires
            old(self)@.ok(),
        ensures
            final(self)@ == old(self)@.dma_done(pending_addr),
            final(self)@.ok(),
    {
        proof {
            reveal(BusState::dma_done);
        }
        if self.in_dma_loop {
            return;
        }
        self.enter_dma();
        self.dma_read_cycle(pending_addr);
        self.drain_dma(pending_addr);
        self.leave_dma();
    }

    fn enter_dma(&mut self)
        requires
            old(self)@.ok(),
        ensures
            final(self)@ == (BusState { in_dma_loop: true, need_halt: false, ..old(self)@ }),
            final(self)@.ok(),
    {
        self.in_dma_loop = true;
        self.need_halt = false;
    }

    fn leave_dma(&mut self)
        requires
            old(self)@.ok(),
        ensures
            final(self)@ == (BusState { in_dma_loop: false, ..old(self)@ }),
            final(self)@.ok(),
    {
        self.in_dma_loop = false;
    }

    fn drain_dma(&mut self, pending_addr: u16)
        requires
            old(self)@.ok(),
        ensures
            final(self)@ == old(self)@.dma_run(pending_addr, 0, 0),
            final(self)@.ok(),
    {
        let ghost halted = self@;
        let mut sprite_counter: u16 = 0;
        let mut sprite_byte: u8 = 0;
        while self.dmc_dma_running || self.sprite_dma_running
            invariant
                self@.ok(),
                sprite_counter <= 0x200,
                self@.dma_aligned(sprite_counter as int),
                self@.dma_run(pending_addr, sprite_counter as int, sprite_byte) == halted.dma_run(pending_addr, 0, 0),
            decreases self@.sprite_left(sprite_counter as int), self@.dmc_left(),
        {
            proof {
                lemma_dma_step(self@, pending_addr, sprite_counter as int, sprite_byte);
            }
            let next: (u16, u8) = self.dma_step(pending_addr, sprite_counter, sprite_byte);
            sprite_counter = next.0;
            sprite_byte = next.1;
        }
    }
}

} // verus!
