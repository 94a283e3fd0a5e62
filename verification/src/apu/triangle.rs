//! Triangle channel: a 32-step sequence clocked at CPU rate.
//!
//! The sequencer moves only while both the linear counter and the length counter run. A
//! timer below 2 is beyond hearing, and the output rests at the middle of the wave.
use vstd::prelude::*;

use crate::apu::length::LengthCounter;

verus! {

pub const TRIANGLE_SEQUENCE: [u8; 32] = [
    15, 14, 13, 12, 11, 10, 9, 8, 7, 6, 5, 4, 3, 2, 1, 0,
    0, 1, 2, 3, 4, 5, 6, 7, 8, 9, 10, 11, 12, 13, 14, 15,
];

#[derive(Debug, Clone, Copy, PartialEq, Eq, Structural)]
pub struct Triangle {
    pub length: LengthCounter,
    pub linear_reload_flag: bool,
    pub linear_reload_value: u8,
    pub linear_counter: u8,
    pub control_flag: bool,
    pub timer: u16,
    pub period: u16,
    pub sequencer_pos: u8,
}

impl Triangle {
    pub open spec fn ok(self) -> bool {
        self.sequencer_pos < 32
    }

    pub open spec fn power_on() -> Triangle {
        Triangle {
            length: LengthCounter::power_on(),
            linear_reload_flag: false,
            linear_reload_value: 0,
            linear_counter: 0,
            control_flag: false,
            timer: 0,
            period: 0,
            sequencer_pos: 0,
        }
    }

    pub open spec fn wrote_linear(self, data: u8) -> Triangle {
        Triangle {
            control_flag: data & 0x80 != 0,
            linear_reload_value: data & 0x7F,
            length: LengthCounter { staged_halt: data & 0x80 != 0, ..self.length },
            ..self
        }
    }

    pub open spec fn wrote_timer_lo(self, data: u8) -> Triangle {
        Triangle { period: (self.period & 0xFF00) | data as u16, ..self }
    }

    pub open spec fn wrote_timer_hi(self, data: u8) -> Triangle {
        Triangle {
            period: (self.period & 0x00FF) | (((data & 0x07) as u16) << 8),
            length: self.length.with_reload(data >> 3),
            linear_reload_flag: true,
            ..self
        }
    }

    /// The channel after a write to its register `reg`, of which the second does nothing.
    pub open spec fn wrote(self, reg: int, data: u8) -> Triangle {
        if reg == 0 {
            self.wrote_linear(data)
        } else if reg == 2 {
            self.wrote_timer_lo(data)
        } else if reg == 3 {
            self.wrote_timer_hi(data)
        } else {
            self
        }
    }

    /// One quarter frame later: the linear counter reloads or counts down, and a clear
    /// control flag ends the reloading.
    pub open spec fn clocked_quarter(self) -> Triangle {
        Triangle {
            linear_counter: if self.linear_reload_flag {
                self.linear_reload_value
            } else if self.linear_counter > 0 {
                (self.linear_counter - 1) as u8
            } else {
                0
            },
            linear_reload_flag: self.linear_reload_flag && self.control_flag,
            ..self
        }
    }

    pub open spec fn running(self) -> bool {
        self.linear_counter > 0 && self.length.counter > 0
    }

    pub open spec fn ticked(self) -> Triangle {
        if self.timer > 0 {
            Triangle { timer: (self.timer - 1) as u16, ..self }
        } else {
            Triangle {
                timer: self.period,
                sequencer_pos: if self.running() {
                    ((self.sequencer_pos + 1) % 32) as u8
                } else {
                    self.sequencer_pos
                },
                ..self
            }
        }
    }

    /// Down from 15 in the first half of the sequence, up again in the second.
    pub open spec fn level(self) -> int {
        if self.period < 2 {
            8
        } else if self.sequencer_pos < 16 {
            15 - self.sequencer_pos
        } else {
            self.sequencer_pos - 16
        }
    }

    pub fn new() -> (triangle: Self)
        ensures
            triangle == Triangle::power_on(),
            triangle.ok(),
    {
        Triangle {
            length: LengthCounter::new(),
            linear_reload_flag: false,
            linear_reload_value: 0,
            linear_counter: 0,
            control_flag: false,
            timer: 0,
            period: 0,
            sequencer_pos: 0,
        }
    }

    pub fn set_enabled(&mut self, enabled: bool)
        ensures
            *final(self) == (Triangle { length: old(self).length.switched(enabled), ..*old(self) }),
    {
        self.length.set_enabled(enabled);
    }

    /// A warm reset drops the enable latch but keeps the length count.
    pub fn on_warm_reset(&mut self)
        ensures
            *final(self) == (Triangle {
                length: LengthCounter { enabled: false, ..old(self).length },
                ..*old(self)
            }),
    {
        self.length.clear_enable_latch_only();
    }

    pub fn length_nonzero(&self) -> (running: bool)
        ensures
            running == (self.length.counter > 0),
    {
        self.length.is_nonzero()
    }

    /// `$4008`: control flag, which takes effect at once for the linear counter and is staged
    /// as the length counter's halt, and the linear counter's reload value.
    pub fn write_linear(&mut self, data: u8)
        ensures
            *final(self) == old(self).wrote_linear(data),
    {
        self.control_flag = (data & 0x80) != 0;
        self.linear_reload_value = data & 0x7F;
        let halt: bool = self.control_flag;
        self.length.stage_halt(halt);
    }

    pub fn write_timer_lo(&mut self, data: u8)
        ensures
            *final(self) == old(self).wrote_timer_lo(data),
    {
        self.period = (self.period & 0xFF00) | data as u16;
    }

    pub fn write_timer_hi(&mut self, data: u8)
        ensures
            *final(self) == old(self).wrote_timer_hi(data),
    {
        proof {
            crate::bits::lemma_top_five_bits(data);
        }
        self.period = (self.period & 0x00FF) | (((data & 0x07) as u16) << 8);
        self.length.stage_reload(data >> 3);
        self.linear_reload_flag = true;
    }

    pub fn write_reg(&mut self, reg: u16, data: u8)
        ensures
            *final(self) == old(self).wrote(reg as int, data),
            old(self).ok() ==> final(self).ok(),
    {
        match reg {
            0 => self.write_linear(data),
            2 => self.write_timer_lo(data),
            3 => self.write_timer_hi(data),
            _ => {}
        }
    }

    pub fn commit_length_pending(&mut self)
        ensures
            *final(self) == (Triangle { length: old(self).length.committed(), ..*old(self) }),
    {
        self.length.commit_pending();
    }

    pub fn clock_quarter_frame(&mut self)
        ensures
            *final(self) == old(self).clocked_quarter(),
    {
        if self.linear_reload_flag {
            self.linear_counter = self.linear_reload_value;
        } else if self.linear_counter > 0 {
            self.linear_counter = self.linear_counter - 1;
        }
        if !self.control_flag {
            self.linear_reload_flag = false;
        }
    }

    pub fn clock_half_frame(&mut self)
        ensures
            *final(self) == (Triangle { length: old(self).length.clocked(), ..*old(self) }),
    {
        self.length.clock_half_frame();
    }

    pub fn tick_cpu(&mut self)
        requires
            old(self).ok(),
        ensures
            *final(self) == old(self).ticked(),
            final(self).ok(),
    {
        if self.timer == 0 {
            self.timer = self.period;
            if self.linear_counter > 0 && self.length.is_nonzero() {
                self.sequencer_pos = (self.sequencer_pos + 1) % 32;
            }
        } else {
            self.timer = self.timer - 1;
        }
    }

    pub fn output(&self) -> (level: u8)
        requires
            self.ok(),
        ensures
            level == self.level(),
            level <= 15,
    {
        if self.period < 2 {
            return 0x0F / 2 + 1;
        }
        TRIANGLE_SEQUENCE[self.sequencer_pos as usize]
    }
}

impl Default for Triangle {
    fn default() -> (triangle: Self)
        ensures
            triangle == Triangle::power_on(),
    {
        Triangle::new()
    }
}

/// The sequencer stands still unless both counters run.
pub proof fn lemma_triangle_needs_both_counters(triangle: Triangle)
    requires
        triangle.linear_counter == 0 || triangle.length.counter == 0,
    ensures
        triangle.ticked().sequencer_pos == triangle.sequencer_pos,
{
}

/// Neighbouring steps of the sequence differ by one at most: the wave has no jumps.
pub proof fn lemma_triangle_has_no_jumps(triangle: Triangle)
    requires
        triangle.ok(),
    ensures
        -1 <= triangle.ticked().level() - triangle.level() <= 1,
{
}

} // verus!
