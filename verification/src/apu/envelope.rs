//! Envelope generator of the pulse and noise channels.
use vstd::prelude::*;

use crate::save_state::apu::EnvelopeSnap;

verus! {

#[derive(Debug, Clone, Copy, PartialEq, Eq, Structural)]
pub struct Envelope {
    pub start: bool,
    pub loop_flag: bool,
    pub constant: bool,
    pub divider_period: u8,
    pub divider: u8,
    pub decay: u8,
}

impl Envelope {
    /// Both sources of the volume are four bits wide.
    pub open spec fn ok(self) -> bool {
        self.divider_period <= 15 && self.decay <= 15
    }

    pub open spec fn power_on() -> Envelope {
        Envelope { start: false, loop_flag: false, constant: false, divider_period: 0, divider: 0, decay: 0 }
    }

    pub open spec fn wrote_ctrl(self, data: u8) -> Envelope {
        Envelope {
            loop_flag: data & 0x20 != 0,
            constant: data & 0x10 != 0,
            divider_period: data & 0x0F,
            ..self
        }
    }

    /// One quarter frame later: a pending start reloads everything; otherwise the divider
    /// counts down, and each time it runs out the decay level drops by one, or wraps to 15
    /// where it loops.
    pub open spec fn clocked(self) -> Envelope {
        if self.start {
            Envelope { start: false, decay: 15, divider: self.divider_period, ..self }
        } else if self.divider > 0 {
            Envelope { divider: (self.divider - 1) as u8, ..self }
        } else {
            Envelope {
                divider: self.divider_period,
                decay: if self.decay > 0 {
                    (self.decay - 1) as u8
                } else if self.loop_flag {
                    15
                } else {
                    0
                },
                ..self
            }
        }
    }

    pub open spec fn level(self) -> u8 {
        if self.constant {
            self.divider_period
        } else {
            self.decay
        }
    }

    pub open spec fn snapshot(self) -> EnvelopeSnap {
        EnvelopeSnap {
            start: self.start,
            loop_flag: self.loop_flag,
            constant: self.constant,
            divider_period: self.divider_period,
            divider: self.divider,
            decay: self.decay,
        }
    }

    pub open spec fn restored(snap: EnvelopeSnap) -> Envelope {
        Envelope {
            start: snap.start,
            loop_flag: snap.loop_flag,
            constant: snap.constant,
            divider_period: snap.divider_period,
            divider: snap.divider,
            decay: snap.decay,
        }
    }

    /// `--LCNNNN`: loop flag, constant volume flag, volume or period.
    pub fn write_ctrl(&mut self, data: u8)
        ensures
            *final(self) == old(self).wrote_ctrl(data),
    {
        self.loop_flag = (data & 0x20) != 0;
        self.constant = (data & 0x10) != 0;
        self.divider_period = data & 0x0F;
    }

    pub fn restart(&mut self)
        ensures
            *final(self) == (Envelope { start: true, ..*old(self) }),
    {
        self.start = true;
    }

    pub fn clock_quarter_frame(&mut self)
        ensures
            *final(self) == old(self).clocked(),
    {
        if self.start {
            self.start = false;
            self.decay = 15;
            self.divider = self.divider_period;
        } else if self.divider == 0 {
            self.divider = self.divider_period;
            if self.decay > 0 {
                self.decay = self.decay - 1;
            } else if self.loop_flag {
                self.decay = 15;
            }
        } else {
            self.divider = self.divider - 1;
        }
    }

    pub fn volume(&self) -> (level: u8)
        ensures
            level == self.level(),
            self.ok() ==> level <= 15,
    {
        if self.constant {
            self.divider_period
        } else {
            self.decay
        }
    }

    pub fn save_state_capture(&self) -> (snap: EnvelopeSnap)
        ensures
            snap == self.snapshot(),
    {
        EnvelopeSnap {
            start: self.start,
            loop_flag: self.loop_flag,
            constant: self.constant,
            divider_period: self.divider_period,
            divider: self.divider,
            decay: self.decay,
        }
    }

    pub fn save_state_apply(&mut self, snap: EnvelopeSnap)
        ensures
            *final(self) == Envelope::restored(snap),
    {
        self.start = snap.start;
        self.loop_flag = snap.loop_flag;
        self.constant = snap.constant;
        self.divider_period = snap.divider_period;
        self.divider = snap.divider;
        self.decay = snap.decay;
    }
}

impl Default for Envelope {
    fn default() -> (envelope: Self)
        ensures
            envelope == Envelope::power_on(),
    {
        Envelope { start: false, loop_flag: false, constant: false, divider_period: 0, divider: 0, decay: 0 }
    }
}

/// The volume stays within four bits whatever is written and however long it runs.
pub proof fn lemma_envelope_ok(envelope: Envelope, data: u8)
    requires
        envelope.ok(),
    ensures
        Envelope::power_on().ok(),
        envelope.wrote_ctrl(data).ok(),
        envelope.clocked().ok(),
        (Envelope { start: true, ..envelope }).ok(),
{
    crate::bits::lemma_mask_u8(data, 0x0F);
}

/// A snapshot brings back the envelope it was taken from.
pub proof fn lemma_envelope_round_trip(envelope: Envelope)
    ensures
        Envelope::restored(envelope.snapshot()) == envelope,
{
}

/// The envelope `n` quarter frames later.
pub open spec fn clocked_times(envelope: Envelope, n: nat) -> Envelope
    decreases n,
{
    if n == 0 {
        envelope
    } else {
        clocked_times(envelope, (n - 1) as nat).clocked()
    }
}

/// The decay level `steps` steps after it was 15: it loses one a step, and from zero it goes back to
/// 15 where it loops and rests where it does not.
pub open spec fn decay_after(loops: bool, steps: int) -> int {
    if loops {
        15 - steps % 16
    } else if steps <= 15 {
        15 - steps
    } else {
        0
    }
}

/// After a restart the level is 15 on the first clock, and from there it takes a step every
/// `divider_period + 1` clocks, for as long as nothing is written.
pub proof fn lemma_envelope_decay(envelope: Envelope, n: nat)
    requires
        envelope.start,
    ensures
        ({
            let period = envelope.divider_period + 1;
            let after = clocked_times(envelope, n + 1);
            &&& after.decay == decay_after(envelope.loop_flag, n as int / period)
            &&& after.divider == envelope.divider_period - n as int % period
            &&& after.divider_period == envelope.divider_period
            &&& after.loop_flag == envelope.loop_flag
            &&& after.constant == envelope.constant
            &&& !after.start
        }),
    decreases n,
{
    let period = envelope.divider_period + 1;
    reveal_with_fuel(clocked_times, 2);
    if n == 0 {
        assert(clocked_times(envelope, 1) == envelope.clocked());
        vstd::arithmetic::div_mod::lemma_small_mod(0, period as nat);
        vstd::arithmetic::div_mod::lemma_div_of0(period as int);
    } else {
        lemma_envelope_decay(envelope, (n - 1) as nat);
        let m = n - 1;
        vstd::arithmetic::div_mod::lemma_fundamental_div_mod(m, period as int);
        let q = m / period as int;
        let r = m % (period as int);
        assert(m == period * q + r);
        assert(q >= 0) by (nonlinear_arith)
            requires
                q == m / period as int,
                m >= 0,
                period > 0,
        ;
        if r + 1 == period {
            assert(n == period * (q + 1)) by (nonlinear_arith)
                requires
                    n - 1 == period * q + r,
                    r + 1 == period,
            ;
            vstd::arithmetic::div_mod::lemma_fundamental_div_mod_converse(n as int, period as int, q + 1, 0);
        } else {
            vstd::arithmetic::div_mod::lemma_fundamental_div_mod_converse(n as int, period as int, q, r + 1);
        }
    }
}

/// An envelope that does not loop is silent from its fifteenth step on; one that does is back at 15 a
/// step later.
pub proof fn lemma_envelope_end(envelope: Envelope, n: nat)
    requires
        envelope.start,
    ensures
        ({
            let period = envelope.divider_period + 1;
            let after = clocked_times(envelope, n + 1);
            &&& !envelope.loop_flag && n >= 15 * period ==> after.decay == 0
            &&& envelope.loop_flag && n == 16 * period ==> after.decay == 15
        }),
{
    let period = envelope.divider_period + 1;
    lemma_envelope_decay(envelope, n);
    if n >= 15 * period {
        vstd::arithmetic::div_mod::lemma_div_is_ordered(15 * period, n as int, period);
        vstd::arithmetic::div_mod::lemma_div_multiples_vanish(15, period);
    }
    if n == 16 * period {
        vstd::arithmetic::div_mod::lemma_div_multiples_vanish(16, period);
    }
}

} // verus!
