//! Sweep unit of the pulse channels.
//!
//! Pulse 1 negates in ones' complement, which takes away one more than pulse 2's two's
//! complement. The channel is silent while its period is below 8 or the target would not fit
//! in eleven bits.
use vstd::prelude::*;

verus! {

#[derive(Debug, Clone, Copy, PartialEq, Eq, Structural)]
pub struct Sweep {
    pub enabled: bool,
    pub period: u8,
    pub divider: u8,
    pub negate: bool,
    pub shift: u8,
    pub reload: bool,
    pub ones_complement: bool,
    pub target_period: u16,
}

impl Sweep {
    pub open spec fn ok(self) -> bool {
        self.shift <= 7
    }

    pub open spec fn power_on(ones_complement: bool) -> Sweep {
        Sweep {
            enabled: false,
            period: 0,
            divider: 0,
            negate: false,
            shift: 0,
            reload: false,
            ones_complement,
            target_period: 0,
        }
    }

    pub open spec fn wrote(self, data: u8) -> Sweep {
        Sweep {
            enabled: data & 0x80 != 0,
            period: (data >> 4) & 0x07,
            negate: data & 0x08 != 0,
            shift: data & 0x07,
            reload: true,
            ..self
        }
    }

    /// The period moved by its own shifted value, never below zero, in 16 bits.
    pub open spec fn target(self, period: u16) -> u16 {
        let delta = period >> self.shift;
        let moved = if !self.negate {
            period + delta
        } else if self.ones_complement {
            period - delta - 1
        } else {
            period - delta
        };
        if moved < 0 {
            0
        } else {
            (moved % 0x1_0000) as u16
        }
    }

    pub open spec fn retargeted(self, period: u16) -> Sweep {
        Sweep { target_period: self.target(period), ..self }
    }

    pub open spec fn mutes(self, period: u16) -> bool {
        period < 8 || self.target_period > 0x7FF
    }

    /// The divider one half frame later.
    pub open spec fn clocked(self) -> Sweep {
        if self.divider == 0 || self.reload {
            Sweep { divider: self.period, reload: false, ..self }
        } else {
            Sweep { divider: (self.divider - 1) as u8, ..self }
        }
    }

    /// The period that a half-frame clock gives the channel, if it changes it.
    pub open spec fn adjusts(self, period: u16) -> Option<u16> {
        if self.divider == 0 && self.enabled && self.shift != 0 && !self.mutes(period) {
            Some(self.target_period)
        } else {
            None
        }
    }

    pub fn new(ones_complement: bool) -> (sweep: Self)
        ensures
            sweep == Sweep::power_on(ones_complement),
    {
        Sweep {
            enabled: false,
            period: 0,
            divider: 0,
            negate: false,
            shift: 0,
            reload: false,
            ones_complement,
            target_period: 0,
        }
    }

    /// `EPPPNSSS`.
    pub fn write(&mut self, data: u8)
        ensures
            *final(self) == old(self).wrote(data),
            final(self).ok(),
    {
        proof {
            crate::bits::lemma_mask_u8(data, 0x07);
        }
        self.enabled = (data & 0x80) != 0;
        self.period = (data >> 4) & 0x07;
        self.negate = (data & 0x08) != 0;
        self.shift = data & 0x07;
        self.reload = true;
    }

    pub fn update_target(&mut self, current_period: u16)
        requires
            old(self).shift < 16,
        ensures
            *final(self) == old(self).retargeted(current_period),
    {
        let shift: u8 = self.shift;
        proof {
            lemma_shift_down(current_period, shift);
        }
        let delta: i32 = (current_period >> shift) as i32;
        let signed: i32 = if self.negate {
            let v: i32 = current_period as i32 - delta;
            if self.ones_complement {
                v - 1
            } else {
                v
            }
        } else {
            current_period as i32 + delta
        };
        self.target_period = if signed < 0 {
            0
        } else {
            (signed % 0x1_0000) as u16
        };
    }

    pub fn muted(&self, current_period: u16) -> (muted: bool)
        ensures
            muted == self.mutes(current_period),
    {
        current_period < 8 || self.target_period > 0x7FF
    }

    /// Advances the divider; `Some` is the channel's new period.
    pub fn clock_half_frame(&mut self, current_period: u16) -> (new_period: Option<u16>)
        ensures
            *final(self) == old(self).clocked(),
            new_period == old(self).adjusts(current_period),
    {
        let mut new_period: Option<u16> = None;
        if self.divider == 0 && self.enabled && self.shift != 0 && !self.muted(current_period) {
            new_period = Some(self.target_period);
        }
        if self.divider == 0 || self.reload {
            self.divider = self.period;
            self.reload = false;
        } else {
            self.divider = self.divider - 1;
        }
        new_period
    }
}

/// A period shifted down is no larger.
pub proof fn lemma_shift_down(x: u16, by: u8)
    by (bit_vector)
    requires
        by < 16,
    ensures
        x >> by <= x,
{
}

/// A period that the sweep hands to its channel fits in eleven bits.
pub proof fn lemma_sweep_keeps_periods_small(sweep: Sweep, period: u16)
    requires
        sweep.adjusts(period) is Some,
    ensures
        sweep.adjusts(period)->Some_0 <= 0x7FF,
{
}

/// Where both negate, the first pulse channel's target is one below the second's.
pub proof fn lemma_ones_complement_is_one_less(sweep: Sweep, period: u16)
    requires
        sweep.negate,
        sweep.shift < 16,
        (Sweep { ones_complement: false, ..sweep }).target(period) > 0,
    ensures
        (Sweep { ones_complement: true, ..sweep }).target(period) + 1 == (Sweep {
            ones_complement: false,
            ..sweep
        }).target(period),
{
    lemma_shift_down(period, sweep.shift);
}

} // verus!
