//! Noise channel: a 15-bit shift register with envelope and length counter.
use vstd::prelude::*;

use crate::apu::envelope::{lemma_envelope_ok, Envelope};
use crate::apu::length::LengthCounter;
use crate::clock::Region;

verus! {

/// Timer periods in CPU cycles.
pub const NTSC_PERIODS: [u16; 16] = [
    4, 8, 16, 32, 64, 96, 128, 160, 202, 254, 380, 508, 762, 1016, 2034, 4068,
];

pub const PAL_PERIODS: [u16; 16] = [
    4, 8, 14, 30, 60, 88, 118, 148, 188, 236, 354, 472, 708, 944, 1890, 3778,
];

#[derive(Debug, Clone, Copy, PartialEq, Eq, Structural)]
pub struct Noise {
    pub region: Region,
    pub envelope: Envelope,
    pub length: LengthCounter,
    pub mode: bool,
    pub timer: u16,
    pub period: u16,
    pub shift: u16,
}

/// Reload value of a timer clocked every other CPU cycle.
pub open spec fn noise_reload(region: Region, index: int) -> u16 {
    ((match region {
        Region::Ntsc => NTSC_PERIODS@[index],
        Region::Pal => PAL_PERIODS@[index],
    }) / 2 - 1) as u16
}

impl Noise {
    pub open spec fn ok(self) -> bool {
        self.envelope.ok()
    }

    pub open spec fn power_on(region: Region) -> Noise {
        Noise {
            region,
            envelope: Envelope::power_on(),
            length: LengthCounter::power_on(),
            mode: false,
            timer: 0,
            period: noise_reload(region, 0),
            shift: 1,
        }
    }

    pub open spec fn wrote_ctrl(self, data: u8) -> Noise {
        Noise {
            length: LengthCounter { staged_halt: data & 0x20 != 0, ..self.length },
            envelope: self.envelope.wrote_ctrl(data),
            ..self
        }
    }

    pub open spec fn wrote_period(self, data: u8) -> Noise {
        Noise {
            mode: data & 0x80 != 0,
            period: noise_reload(self.region, (data & 0x0F) as int),
            ..self
        }
    }

    pub open spec fn wrote_length(self, data: u8) -> Noise {
        Noise {
            length: self.length.with_reload(data >> 3),
            envelope: Envelope { start: true, ..self.envelope },
            ..self
        }
    }

    /// The channel after a write to its register `reg`, of which the second does nothing.
    pub open spec fn wrote(self, reg: int, data: u8) -> Noise {
        if reg == 0 {
            self.wrote_ctrl(data)
        } else if reg == 2 {
            self.wrote_period(data)
        } else if reg == 3 {
            self.wrote_length(data)
        } else {
            self
        }
    }

    /// The register after one shift: bit 0 xor bit 1, or bit 6 in short mode, comes in at the
    /// top.
    pub open spec fn shifted(self) -> u16 {
        let tap = if self.mode {
            (self.shift >> 6) & 1
        } else {
            (self.shift >> 1) & 1
        };
        (self.shift >> 1) | (((self.shift & 1) ^ tap) << 14)
    }

    pub open spec fn ticked(self) -> Noise {
        if self.timer > 0 {
            Noise { timer: (self.timer - 1) as u16, ..self }
        } else {
            Noise { timer: self.period, shift: self.shifted(), ..self }
        }
    }

    pub open spec fn level(self) -> u8 {
        if self.length.counter == 0 || self.shift & 1 == 1 {
            0
        } else {
            self.envelope.level()
        }
    }

    fn reload_value(region: Region, index: usize) -> (period: u16)
        requires
            index < 16,
        ensures
            period == noise_reload(region, index as int),
    {
        assert(forall|i: int| 0 <= i < 16 ==> NTSC_PERIODS@[i] >= 2 && PAL_PERIODS@[i] >= 2);
        let cycles: u16 = match region {
            Region::Ntsc => NTSC_PERIODS[index],
            Region::Pal => PAL_PERIODS[index],
        };
        cycles / 2 - 1
    }

    pub fn new(region: Region) -> (noise: Self)
        ensures
            noise == Noise::power_on(region),
            noise.ok(),
    {
        Noise {
            region,
            envelope: Envelope::default(),
            length: LengthCounter::new(),
            mode: false,
            timer: 0,
            period: Noise::reload_value(region, 0),
            shift: 1,
        }
    }

    pub fn set_enabled(&mut self, enabled: bool)
        ensures
            *final(self) == (Noise { length: old(self).length.switched(enabled), ..*old(self) }),
    {
        self.length.set_enabled(enabled);
    }

    pub fn on_warm_reset(&mut self)
        ensures
            *final(self) == (Noise {
                length: LengthCounter { enabled: false, ..old(self).length },
                ..*old(self)
            }),
    {
        self.length.clear_enable_latch_only();
    }

    pub fn length_nonzero(&self) -> (running: bool)
        ensures
            running == (self.length.counter > 0),
    {
        self.length.is_nonzero()
    }

    pub fn write_ctrl(&mut self, data: u8)
        requires
            old(self).ok(),
        ensures
            *final(self) == old(self).wrote_ctrl(data),
            final(self).ok(),
    {
        proof {
            lemma_envelope_ok(self.envelope, data);
        }
        self.length.stage_halt((data & 0x20) != 0);
        self.envelope.write_ctrl(data);
    }

    pub fn write_period(&mut self, data: u8)
        ensures
            *final(self) == old(self).wrote_period(data),
    {
        proof {
            crate::bits::lemma_mask_u8(data, 0x0F);
        }
        self.mode = (data & 0x80) != 0;
        self.period = Noise::reload_value(self.region, (data & 0x0F) as usize);
    }

    pub fn write_length(&mut self, data: u8)
        ensures
            *final(self) == old(self).wrote_length(data),
    {
        proof {
            crate::bits::lemma_top_five_bits(data);
        }
        self.length.stage_reload(data >> 3);
        self.envelope.restart();
    }

    pub fn write_reg(&mut self, reg: u16, data: u8)
        requires
            old(self).ok(),
        ensures
            *final(self) == old(self).wrote(reg as int, data),
            final(self).ok(),
    {
        match reg {
            0 => self.write_ctrl(data),
            2 => self.write_period(data),
            3 => self.write_length(data),
            _ => {}
        }
    }

    pub fn commit_length_pending(&mut self)
        ensures
            *final(self) == (Noise { length: old(self).length.committed(), ..*old(self) }),
    {
        self.length.commit_pending();
    }

    pub fn clock_quarter_frame(&mut self)
        requires
            old(self).ok(),
        ensures
            *final(self) == (Noise { envelope: old(self).envelope.clocked(), ..*old(self) }),
            final(self).ok(),
    {
        self.envelope.clock_quarter_frame();
    }

    pub fn clock_half_frame(&mut self)
        ensures
            *final(self) == (Noise { length: old(self).length.clocked(), ..*old(self) }),
    {
        self.length.clock_half_frame();
    }

    pub fn tick_apu(&mut self)
        ensures
            *final(self) == old(self).ticked(),
    {
        if self.timer == 0 {
            self.timer = self.period;
            let tap: u16 = if self.mode {
                (self.shift >> 6) & 1
            } else {
                (self.shift >> 1) & 1
            };
            self.shift = (self.shift >> 1) | (((self.shift & 1) ^ tap) << 14);
        } else {
            self.timer = self.timer - 1;
        }
    }

    pub fn output(&self) -> (level: u8)
        requires
            self.ok(),
        ensures
            level == self.level(),
            level <= 15,
    {
        if !self.length.is_nonzero() || self.shift & 1 == 1 {
            0
        } else {
            self.envelope.volume()
        }
    }
}

} // verus!
