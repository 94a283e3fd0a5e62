//! Length counter of the pulse, triangle and noise channels.
//!
//! Writes to the halt flag and the counter are staged and take effect after the half-frame
//! clock of their cycle. A staged reload is lost when that clock has just counted.
use vstd::prelude::*;

verus! {

/// Counter values by table index.
pub const LENGTH_TABLE: [u8; 32] = [
    10, 254, 20, 2, 40, 4, 80, 6, 160, 8, 60, 10, 14, 12, 26, 14,
    12, 16, 24, 18, 48, 20, 96, 22, 192, 24, 72, 26, 16, 28, 32, 30,
];

#[derive(Debug, Clone, Copy, PartialEq, Eq, Structural)]
pub struct LengthCounter {
    pub enabled: bool,
    pub halt: bool,
    pub staged_halt: bool,
    pub counter: u8,
    pub staged_reload: Option<u8>,
    /// The counter when the reload was staged.
    pub counter_at_stage: u8,
}

impl LengthCounter {
    pub open spec fn power_on() -> LengthCounter {
        LengthCounter {
            enabled: false,
            halt: false,
            staged_halt: false,
            counter: 0,
            staged_reload: None,
            counter_at_stage: 0,
        }
    }

    /// Switching the channel off empties the counter.
    pub open spec fn switched(self, enabled: bool) -> LengthCounter {
        LengthCounter { enabled, counter: if enabled { self.counter } else { 0 }, ..self }
    }

    pub open spec fn with_reload(self, index: u8) -> LengthCounter {
        if self.enabled {
            LengthCounter {
                staged_reload: Some(LENGTH_TABLE@[index as int]),
                counter_at_stage: self.counter,
                ..self
            }
        } else {
            self
        }
    }

    pub open spec fn committed(self) -> LengthCounter {
        LengthCounter {
            halt: self.staged_halt,
            counter: match self.staged_reload {
                Some(value) => if self.counter == self.counter_at_stage { value } else { self.counter },
                None => self.counter,
            },
            staged_reload: None,
            ..self
        }
    }

    pub open spec fn clocked(self) -> LengthCounter {
        LengthCounter {
            counter: if self.counter > 0 && !self.halt { (self.counter - 1) as u8 } else { self.counter },
            ..self
        }
    }

    pub fn new() -> (length: Self)
        ensures
            length == LengthCounter::power_on(),
    {
        LengthCounter {
            enabled: false,
            halt: false,
            staged_halt: false,
            counter: 0,
            staged_reload: None,
            counter_at_stage: 0,
        }
    }

    pub fn set_enabled(&mut self, enabled: bool)
        ensures
            *final(self) == old(self).switched(enabled),
    {
        self.enabled = enabled;
        if !enabled {
            self.counter = 0;
        }
    }

    /// Drops the enable latch but keeps the count.
    pub fn clear_enable_latch_only(&mut self)
        ensures
            *final(self) == (LengthCounter { enabled: false, ..*old(self) }),
    {
        self.enabled = false;
    }

    pub fn is_nonzero(&self) -> (running: bool)
        ensures
            running == (self.counter > 0),
    {
        self.counter > 0
    }

    pub fn stage_halt(&mut self, halt: bool)
        ensures
            *final(self) == (LengthCounter { staged_halt: halt, ..*old(self) }),
    {
        self.staged_halt = halt;
    }

    pub fn stage_reload(&mut self, index: u8)
        requires
            index < 32,
        ensures
            *final(self) == old(self).with_reload(index),
    {
        if self.enabled {
            self.staged_reload = Some(LENGTH_TABLE[index as usize]);
            self.counter_at_stage = self.counter;
        }
    }

    pub fn commit_pending(&mut self)
        ensures
            *final(self) == old(self).committed(),
    {
        if let Some(value) = self.staged_reload {
            if self.counter == self.counter_at_stage {
                self.counter = value;
            }
        }
        self.staged_reload = None;
        self.halt = self.staged_halt;
    }

    pub fn clock_half_frame(&mut self)
        ensures
            *final(self) == old(self).clocked(),
    {
        if self.counter > 0 && !self.halt {
            self.counter = self.counter - 1;
        }
    }
}

/// A reload staged in the cycle of a half-frame clock survives only an idle counter.
pub proof fn lemma_reload_against_clock(length: LengthCounter, index: u8)
    requires
        length.enabled,
        !length.halt,
        index < 32,
    ensures
        length.counter == 0 ==> length.with_reload(index).clocked().committed().counter
            == LENGTH_TABLE@[index as int],
        length.counter > 0 ==> length.with_reload(index).clocked().committed().counter == length.counter - 1,
{
}

} // verus!
