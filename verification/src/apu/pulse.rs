//! Pulse channels: an eight-step duty cycle with envelope, sweep and length counter.
use vstd::prelude::*;

use crate::apu::envelope::{lemma_envelope_ok, Envelope};
use crate::apu::length::LengthCounter;
use crate::apu::sweep::Sweep;

verus! {

/// The four duty cycles, eight steps each: 12.5 %, 25 %, 50 % and 25 % inverted.
pub const DUTY_TABLE: [u8; 32] = [
    0, 1, 0, 0, 0, 0, 0, 0,
    0, 1, 1, 0, 0, 0, 0, 0,
    0, 1, 1, 1, 1, 0, 0, 0,
    1, 0, 0, 1, 1, 1, 1, 1,
];

#[derive(Debug, Clone, Copy, PartialEq, Eq, Structural)]
pub struct Pulse {
    pub envelope: Envelope,
    pub sweep: Sweep,
    pub length: LengthCounter,
    pub duty: u8,
    pub duty_pos: u8,
    pub timer: u16,
    pub period: u16,
}

impl Pulse {
    pub open spec fn ok(self) -> bool {
        self.envelope.ok() && self.sweep.ok() && self.duty < 4 && self.duty_pos < 8
    }

    pub open spec fn power_on(ones_complement: bool) -> Pulse {
        Pulse {
            envelope: Envelope::power_on(),
            sweep: Sweep::power_on(ones_complement),
            length: LengthCounter::power_on(),
            duty: 0,
            duty_pos: 0,
            timer: 0,
            period: 0,
        }
    }

    pub open spec fn wrote_ctrl(self, data: u8) -> Pulse {
        Pulse {
            duty: data >> 6,
            length: LengthCounter { staged_halt: data & 0x20 != 0, ..self.length },
            envelope: self.envelope.wrote_ctrl(data),
            ..self
        }
    }

    pub open spec fn wrote_sweep(self, data: u8) -> Pulse {
        Pulse { sweep: self.sweep.wrote(data).retargeted(self.period), ..self }
    }

    pub open spec fn with_period(self, period: u16) -> Pulse {
        Pulse { period, sweep: self.sweep.retargeted(period), ..self }
    }

    pub open spec fn wrote_timer_lo(self, data: u8) -> Pulse {
        self.with_period((self.period & 0xFF00) | data as u16)
    }

    /// The high timer byte also restarts the duty cycle and the envelope.
    pub open spec fn wrote_timer_hi(self, data: u8) -> Pulse {
        Pulse {
            length: self.length.with_reload(data >> 3),
            duty_pos: 0,
            envelope: Envelope { start: true, ..self.envelope },
            ..self.with_period((self.period & 0x00FF) | (((data & 0x07) as u16) << 8))
        }
    }

    /// The channel after a write to its register `reg`, of four.
    pub open spec fn wrote(self, reg: int, data: u8) -> Pulse {
        if reg == 0 {
            self.wrote_ctrl(data)
        } else if reg == 1 {
            self.wrote_sweep(data)
        } else if reg == 2 {
            self.wrote_timer_lo(data)
        } else {
            self.wrote_timer_hi(data)
        }
    }

    pub open spec fn clocked_half(self) -> Pulse {
        let clocked = Pulse { length: self.length.clocked(), sweep: self.sweep.clocked(), ..self };
        match self.sweep.adjusts(self.period) {
            Some(period) => clocked.with_period(period),
            None => clocked,
        }
    }

    pub open spec fn ticked(self) -> Pulse {
        if self.timer > 0 {
            Pulse { timer: (self.timer - 1) as u16, ..self }
        } else {
            Pulse { timer: self.period, duty_pos: ((self.duty_pos + 1) % 8) as u8, ..self }
        }
    }

    pub open spec fn level(self) -> u8 {
        if self.length.counter == 0 || self.sweep.mutes(self.period)
            || DUTY_TABLE@[self.duty * 8 + self.duty_pos] == 0 {
            0
        } else {
            self.envelope.level()
        }
    }

    fn new(ones_complement: bool) -> (pulse: Self)
        ensures
            pulse == Pulse::power_on(ones_complement),
            pulse.ok(),
    {
        Pulse {
            envelope: Envelope::default(),
            sweep: Sweep::new(ones_complement),
            length: LengthCounter::new(),
            duty: 0,
            duty_pos: 0,
            timer: 0,
            period: 0,
        }
    }

    pub fn new_pulse1() -> (pulse: Self)
        ensures
            pulse == Pulse::power_on(true),
            pulse.ok(),
    {
        Pulse::new(true)
    }

    pub fn new_pulse2() -> (pulse: Self)
        ensures
            pulse == Pulse::power_on(false),
            pulse.ok(),
    {
        Pulse::new(false)
    }

    pub fn set_enabled(&mut self, enabled: bool)
        ensures
            *final(self) == (Pulse { length: old(self).length.switched(enabled), ..*old(self) }),
    {
        self.length.set_enabled(enabled);
    }

    pub fn on_warm_reset(&mut self)
        ensures
            *final(self) == (Pulse {
                length: LengthCounter { enabled: false, ..old(self).length },
                ..*old(self)
            }),
    {
        self.length.clear_enable_latch_only();
    }

    pub fn length_nonzero(&self) -> (running: bool)
        ensures
            running == (self.length.counter > 0),
    {
        self.length.is_nonzero()
    }

    /// `DDLCNNNN`.
    pub fn write_ctrl(&mut self, data: u8)
        requires
            old(self).ok(),
        ensures
            *final(self) == old(self).wrote_ctrl(data),
            final(self).ok(),
    {
        proof {
            crate::bits::lemma_top_two_bits(data);
            lemma_envelope_ok(self.envelope, data);
        }
        self.duty = data >> 6;
        self.length.stage_halt((data & 0x20) != 0);
        self.envelope.write_ctrl(data);
    }

    pub fn write_sweep(&mut self, data: u8)
        requires
            old(self).ok(),
        ensures
            *final(self) == old(self).wrote_sweep(data),
            final(self).ok(),
    {
        self.sweep.write(data);
        let period: u16 = self.period;
        self.sweep.update_target(period);
    }

    pub fn write_timer_lo(&mut self, data: u8)
        requires
            old(self).ok(),
        ensures
            *final(self) == old(self).wrote_timer_lo(data),
            final(self).ok(),
    {
        let period: u16 = (self.period & 0xFF00) | data as u16;
        self.period = period;
        self.sweep.update_target(period);
    }

    pub fn write_timer_hi(&mut self, data: u8)
        requires
            old(self).ok(),
        ensures
            *final(self) == old(self).wrote_timer_hi(data),
            final(self).ok(),
    {
        proof {
            crate::bits::lemma_top_five_bits(data);
        }
        let period: u16 = (self.period & 0x00FF) | (((data & 0x07) as u16) << 8);
        self.period = period;
        self.sweep.update_target(period);
        self.length.stage_reload(data >> 3);
        self.duty_pos = 0;
        self.envelope.restart();
    }

    pub fn write_reg(&mut self, reg: u16, data: u8)
        requires
            old(self).ok(),
        ensures
            *final(self) == old(self).wrote(reg as int, data),
            final(self).ok(),
    {
        match reg {
            0 => self.write_ctrl(data),
            1 => self.write_sweep(data),
            2 => self.write_timer_lo(data),
            _ => self.write_timer_hi(data),
        }
    }

    pub fn commit_length_pending(&mut self)
        ensures
            *final(self) == (Pulse { length: old(self).length.committed(), ..*old(self) }),
    {
        self.length.commit_pending();
    }

    pub fn clock_quarter_frame(&mut self)
        requires
            old(self).ok(),
        ensures
            *final(self) == (Pulse { envelope: old(self).envelope.clocked(), ..*old(self) }),
            final(self).ok(),
    {
        self.envelope.clock_quarter_frame();
    }

    pub fn clock_half_frame(&mut self)
        requires
            old(self).ok(),
        ensures
            *final(self) == old(self).clocked_half(),
            final(self).ok(),
    {
        self.length.clock_half_frame();
        let current: u16 = self.period;
        if let Some(period) = self.sweep.clock_half_frame(current) {
            self.period = period;
            self.sweep.update_target(period);
        }
    }

    pub fn tick_apu(&mut self)
        requires
            old(self).ok(),
        ensures
            *final(self) == old(self).ticked(),
            final(self).ok(),
    {
        if self.timer == 0 {
            self.timer = self.period;
            self.duty_pos = (self.duty_pos + 1) % 8;
        } else {
            self.timer = self.timer - 1;
        }
    }

    pub fn output(&self) -> (level: u8)
        requires
            self.ok(),
        ensures
            level == self.level(),
            level <= 15,
    {
        if !self.length.is_nonzero() || self.sweep.muted(self.period)
            || DUTY_TABLE[self.duty as usize * 8 + self.duty_pos as usize] == 0 {
            0
        } else {
            self.envelope.volume()
        }
    }
}

} // verus!
