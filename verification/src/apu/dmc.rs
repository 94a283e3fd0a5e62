//! Delta modulation channel: plays one-bit samples fetched from memory by DMA.
use vstd::prelude::*;

use crate::apu::DmcDmaRequest;
use crate::clock::Region;

verus! {

/// Timer periods in CPU cycles.
pub const NTSC_RATES: [u16; 16] = [
    428, 380, 340, 320, 286, 254, 226, 214, 190, 160, 142, 128, 106, 84, 72, 54,
];

pub const PAL_RATES: [u16; 16] = [
    398, 354, 316, 298, 276, 236, 210, 198, 176, 148, 132, 118, 98, 78, 66, 50,
];

#[derive(Debug, Clone, Copy, PartialEq, Eq, Structural)]
pub struct Dmc {
    pub region: Region,
    pub irq_enabled: bool,
    pub loop_flag: bool,
    pub timer: u16,
    pub period: u16,
    pub output_level: u8,
    pub sample_addr: u16,
    pub sample_len: u16,
    pub current_addr: u16,
    pub bytes_remaining: u16,
    pub buffer: Option<u8>,
    pub shift: u8,
    pub bits_remaining: u8,
    pub silence: bool,
    /// CPU cycles until an enabled channel asks for its first byte.
    pub transfer_start_delay: u8,
    pub request: bool,
}

/// What a CPU cycle of the channel raised.
#[derive(Debug, Clone, Copy, PartialEq, Eq, Structural)]
pub struct DmcTick {
    pub raised_irq: bool,
}

/// The channel's internals, for tracing.
#[derive(Debug, Clone, Copy, PartialEq, Eq, Structural)]
pub struct DmcTraceSnapshot {
    pub timer: u16,
    pub bits_remaining: u8,
    pub bytes_remaining: u16,
    pub buffer_full: bool,
    pub request: bool,
    pub output_level: u8,
}

pub open spec fn dmc_reload(region: Region, index: int) -> u16 {
    ((match region {
        Region::Ntsc => NTSC_RATES@[index],
        Region::Pal => PAL_RATES@[index],
    }) - 1) as u16
}

impl Dmc {
    pub open spec fn ok(self) -> bool {
        self.output_level <= 127 && 1 <= self.bits_remaining <= 8 && self.sample_len >= 1
    }

    /// No byte is wanted, nor will one be until the channel is written to.
    pub open spec fn quiet(self) -> bool {
        self.bytes_remaining == 0 && self.transfer_start_delay == 0 && !self.request
    }

    pub open spec fn power_on(region: Region) -> Dmc {
        Dmc {
            region,
            irq_enabled: false,
            loop_flag: false,
            timer: 0,
            period: dmc_reload(region, 0),
            output_level: 0,
            sample_addr: 0xC000,
            sample_len: 1,
            current_addr: 0xC000,
            bytes_remaining: 0,
            buffer: None,
            shift: 0,
            bits_remaining: 8,
            silence: true,
            transfer_start_delay: 0,
            request: false,
        }
    }

    pub open spec fn wrote_ctrl(self, data: u8) -> Dmc {
        Dmc {
            irq_enabled: data & 0x80 != 0,
            loop_flag: data & 0x40 != 0,
            period: dmc_reload(self.region, (data & 0x0F) as int),
            ..self
        }
    }

    pub open spec fn wrote_sample_addr(self, data: u8) -> Dmc {
        Dmc { sample_addr: (0xC000 + data * 64) as u16, ..self }
    }

    pub open spec fn wrote_sample_len(self, data: u8) -> Dmc {
        Dmc { sample_len: (data * 16 + 1) as u16, ..self }
    }

    /// The channel after a write to its register `reg`, of four.
    pub open spec fn wrote(self, reg: int, data: u8) -> Dmc {
        if reg == 0 {
            self.wrote_ctrl(data)
        } else if reg == 1 {
            Dmc { output_level: data & 0x7F, ..self }
        } else if reg == 2 {
            self.wrote_sample_addr(data)
        } else {
            self.wrote_sample_len(data)
        }
    }

    /// From the sample's first byte.
    pub open spec fn rewound(self) -> Dmc {
        Dmc { current_addr: self.sample_addr, bytes_remaining: self.sample_len, ..self }
    }

    /// Switched off, the channel forgets the rest of its sample and any request; switched on,
    /// it starts over where it has nothing left, after 2 or 3 cycles.
    pub open spec fn switched(self, enabled: bool, odd_cycle: bool) -> Dmc {
        if !enabled {
            Dmc { bytes_remaining: 0, request: false, transfer_start_delay: 0, ..self }
        } else if self.bytes_remaining == 0 {
            Dmc { transfer_start_delay: if odd_cycle { 3 } else { 2 }, ..self.rewound() }
        } else {
            self
        }
    }

    /// Asks for a byte where the buffer is empty and the sample is not over.
    pub open spec fn requesting(self) -> Dmc {
        Dmc { request: self.request || (self.buffer is None && self.bytes_remaining > 0), ..self }
    }

    pub open spec fn delay_counted(self) -> Dmc {
        if self.transfer_start_delay == 0 {
            self
        } else {
            let counted = Dmc { transfer_start_delay: (self.transfer_start_delay - 1) as u8, ..self };
            if counted.transfer_start_delay == 0 {
                counted.requesting()
            } else {
                counted
            }
        }
    }

    /// The output level moved by one bit: two up or two down, within seven bits.
    pub open spec fn stepped_level(self) -> u8 {
        if self.silence {
            self.output_level
        } else if self.shift & 1 == 1 {
            if self.output_level <= 125 { (self.output_level + 2) as u8 } else { self.output_level }
        } else {
            if self.output_level >= 2 { (self.output_level - 2) as u8 } else { self.output_level }
        }
    }

    /// The output unit clocked once; after eight bits it takes the buffered byte.
    pub open spec fn output_clocked(self) -> Dmc {
        let stepped = Dmc {
            output_level: self.stepped_level(),
            shift: self.shift >> 1,
            bits_remaining: (self.bits_remaining - 1) as u8,
            ..self
        };
        if stepped.bits_remaining > 0 {
            stepped
        } else {
            match stepped.buffer {
                Some(byte) => (Dmc {
                    bits_remaining: 8,
                    silence: false,
                    shift: byte,
                    buffer: None,
                    ..stepped
                }).requesting(),
                None => Dmc { bits_remaining: 8, silence: true, ..stepped },
            }
        }
    }

    pub open spec fn ticked(self) -> Dmc {
        let delayed = self.delay_counted();
        if delayed.timer > 0 {
            Dmc { timer: (delayed.timer - 1) as u16, ..delayed }
        } else {
            (Dmc { timer: delayed.period, ..delayed }).output_clocked()
        }
    }

    /// A fetched byte: it fills the buffer and moves the reader on, and the end of the sample
    /// starts it over when it loops. A byte for a channel switched off meanwhile is dropped.
    pub open spec fn filled(self, byte: u8) -> Dmc {
        if self.bytes_remaining == 0 {
            self
        } else {
            let moved = Dmc {
                buffer: Some(byte),
                current_addr: if self.current_addr == 0xFFFF { 0x8000 } else { (self.current_addr + 1) as u16 },
                bytes_remaining: (self.bytes_remaining - 1) as u16,
                ..self
            };
            if moved.bytes_remaining == 0 && moved.loop_flag {
                moved.rewound()
            } else {
                moved
            }
        }
    }

    /// Whether a fetched byte ends the sample with an interrupt.
    pub open spec fn finishes_with_irq(self) -> bool {
        self.bytes_remaining == 1 && !self.loop_flag && self.irq_enabled
    }

    fn reload_value(region: Region, index: usize) -> (period: u16)
        requires
            index < 16,
        ensures
            period == dmc_reload(region, index as int),
    {
        assert(forall|i: int| 0 <= i < 16 ==> NTSC_RATES@[i] >= 1 && PAL_RATES@[i] >= 1);
        let cycles: u16 = match region {
            Region::Ntsc => NTSC_RATES[index],
            Region::Pal => PAL_RATES[index],
        };
        cycles - 1
    }

    pub fn new(region: Region) -> (dmc: Self)
        ensures
            dmc == Dmc::power_on(region),
            dmc.ok(),
    {
        Dmc {
            region,
            irq_enabled: false,
            loop_flag: false,
            timer: 0,
            period: Dmc::reload_value(region, 0),
            output_level: 0,
            sample_addr: 0xC000,
            sample_len: 1,
            current_addr: 0xC000,
            bytes_remaining: 0,
            buffer: None,
            shift: 0,
            bits_remaining: 8,
            silence: true,
            transfer_start_delay: 0,
            request: false,
        }
    }

    /// A warm reset ends the sample and drops a pending fetch; the output level stays.
    pub fn on_warm_reset(&mut self)
        ensures
            *final(self) == old(self).switched(false, false),
    {
        self.bytes_remaining = 0;
        self.request = false;
        self.transfer_start_delay = 0;
    }

    pub fn irq_enabled(&self) -> (enabled: bool)
        ensures
            enabled == self.irq_enabled,
    {
        self.irq_enabled
    }

    pub fn bytes_remaining(&self) -> (n: u16)
        ensures
            n == self.bytes_remaining,
    {
        self.bytes_remaining
    }

    /// `IL--RRRR`.
    pub fn write_ctrl(&mut self, data: u8)
        ensures
            *final(self) == old(self).wrote_ctrl(data),
    {
        proof {
            crate::bits::lemma_mask_u8(data, 0x0F);
        }
        self.irq_enabled = (data & 0x80) != 0;
        self.loop_flag = (data & 0x40) != 0;
        self.period = Dmc::reload_value(self.region, (data & 0x0F) as usize);
    }

    pub fn write_output(&mut self, data: u8)
        requires
            old(self).ok(),
        ensures
            *final(self) == (Dmc { output_level: data & 0x7F, ..*old(self) }),
            final(self).ok(),
    {
        proof {
            crate::bits::lemma_mask_u8(data, 0x7F);
        }
        self.output_level = data & 0x7F;
    }

    pub fn write_sample_addr(&mut self, data: u8)
        ensures
            *final(self) == old(self).wrote_sample_addr(data),
    {
        self.sample_addr = 0xC000 + data as u16 * 64;
    }

    pub fn write_sample_len(&mut self, data: u8)
        ensures
            *final(self) == old(self).wrote_sample_len(data),
            final(self).sample_len >= 1,
    {
        self.sample_len = data as u16 * 16 + 1;
    }

    pub fn write_reg(&mut self, reg: u16, data: u8)
        requires
            old(self).ok(),
        ensures
            *final(self) == old(self).wrote(reg as int, data),
            final(self).ok(),
    {
        match reg {
            0 => self.write_ctrl(data),
            1 => self.write_output(data),
            2 => self.write_sample_addr(data),
            _ => self.write_sample_len(data),
        }
    }

    pub fn set_enabled(&mut self, enabled: bool, odd_cycle: bool)
        ensures
            *final(self) == old(self).switched(enabled, odd_cycle),
    {
        if !enabled {
            self.bytes_remaining = 0;
            self.request = false;
            self.transfer_start_delay = 0;
        } else if self.bytes_remaining == 0 {
            self.current_addr = self.sample_addr;
            self.bytes_remaining = self.sample_len;
            self.transfer_start_delay = if odd_cycle { 3 } else { 2 };
        }
    }

    fn start_transfer(&mut self)
        ensures
            *final(self) == old(self).requesting(),
    {
        if self.buffer.is_none() && self.bytes_remaining > 0 {
            self.request = true;
        }
    }

    fn clock_output(&mut self)
        requires
            old(self).ok(),
        ensures
            *final(self) == old(self).output_clocked(),
            final(self).ok(),
    {
        if !self.silence {
            if self.shift & 1 == 1 {
                if self.output_level <= 125 {
                    self.output_level = self.output_level + 2;
                }
            } else if self.output_level >= 2 {
                self.output_level = self.output_level - 2;
            }
        }
        self.shift = self.shift >> 1;
        self.bits_remaining = self.bits_remaining - 1;
        if self.bits_remaining == 0 {
            self.bits_remaining = 8;
            match self.buffer {
                Some(byte) => {
                    self.silence = false;
                    self.shift = byte;
                    self.buffer = None;
                    self.start_transfer();
                }
                None => {
                    self.silence = true;
                }
            }
        }
    }

    pub fn tick_cpu(&mut self) -> (tick: DmcTick)
        requires
            old(self).ok(),
        ensures
            *final(self) == old(self).ticked(),
            final(self).ok(),
            tick == (DmcTick { raised_irq: false }),
    {
        if self.transfer_start_delay > 0 {
            self.transfer_start_delay = self.transfer_start_delay - 1;
            if self.transfer_start_delay == 0 {
                self.start_transfer();
            }
        }
        if self.timer == 0 {
            self.timer = self.period;
            self.clock_output();
        } else {
            self.timer = self.timer - 1;
        }
        DmcTick { raised_irq: false }
    }

    /// Hands over the pending request, once.
    pub fn take_dma_request(&mut self) -> (request: Option<DmcDmaRequest>)
        ensures
            *final(self) == (Dmc { request: false, ..*old(self) }),
            request == (if old(self).request {
                Some(DmcDmaRequest { addr: old(self).current_addr })
            } else {
                None
            }),
    {
        if self.request {
            self.request = false;
            Some(DmcDmaRequest { addr: self.current_addr })
        } else {
            None
        }
    }

    /// Takes the fetched byte; `true` asks for an interrupt.
    pub fn dma_complete(&mut self, byte: u8) -> (raised_irq: bool)
        requires
            old(self).ok(),
        ensures
            *final(self) == old(self).filled(byte),
            final(self).ok(),
            raised_irq == old(self).finishes_with_irq(),
    {
        if self.bytes_remaining == 0 {
            return false;
        }
        self.buffer = Some(byte);
        self.current_addr = if self.current_addr == 0xFFFF { 0x8000 } else { self.current_addr + 1 };
        self.bytes_remaining = self.bytes_remaining - 1;
        if self.bytes_remaining == 0 {
            if self.loop_flag {
                self.current_addr = self.sample_addr;
                self.bytes_remaining = self.sample_len;
            } else {
                return self.irq_enabled;
            }
        }
        false
    }

    pub fn output(&self) -> (level: u8)
        ensures
            level == self.output_level,
    {
        self.output_level
    }

    pub fn trace_snapshot(&self) -> (trace: DmcTraceSnapshot)
        ensures
            trace == (DmcTraceSnapshot {
                timer: self.timer,
                bits_remaining: self.bits_remaining,
                bytes_remaining: self.bytes_remaining,
                buffer_full: self.buffer is Some,
                request: self.request,
                output_level: self.output_level,
            }),
    {
        DmcTraceSnapshot {
            timer: self.timer,
            bits_remaining: self.bits_remaining,
            bytes_remaining: self.bytes_remaining,
            buffer_full: self.buffer.is_some(),
            request: self.request,
            output_level: self.output_level,
        }
    }
}

/// A quiet channel stays quiet until it is written to.
pub proof fn lemma_dmc_stays_quiet(dmc: Dmc)
    requires
        dmc.quiet(),
    ensures
        dmc.ticked().quiet(),
        (Dmc { request: false, ..dmc }) == dmc,
{
}

/// Switching the channel off makes it quiet.
pub proof fn lemma_dmc_switched_off(dmc: Dmc, odd_cycle: bool)
    ensures
        dmc.switched(false, odd_cycle).quiet(),
{
}

} // verus!
