//! Frame counter: clocks the envelopes, linear counter, sweeps and length counters.
use vstd::prelude::*;

use crate::clock::Region;

verus! {

/// What the frame counter does in a cycle.
#[derive(Debug, Clone, Copy, PartialEq, Eq, Structural)]
pub struct FrameEvent {
    pub set_frame_irq: bool,
    pub quarter: bool,
    pub half: bool,
}

#[derive(Debug, Clone, Copy, PartialEq, Eq, Structural)]
pub struct FrameCounter {
    pub region: Region,
    pub five_step: bool,
    pub irq_inhibit: bool,
    pub divider: u32,
    /// Cycles until a `$4017` write restarts the sequence.
    pub restart_delay: u8,
}

/// Divider values of the quarter-frame steps; the fourth is the last cycle but one of the
/// four-step sequence, and the fifth that of the five-step sequence.
pub open spec fn steps(region: Region) -> (u32, u32, u32, u32, u32) {
    match region {
        Region::Ntsc => (7457, 14913, 22371, 29829, 37281),
        Region::Pal => (8313, 16627, 24939, 33253, 41565),
    }
}

impl FrameCounter {
    pub open spec fn ok(self) -> bool {
        self.divider <= steps(self.region).4
    }

    pub open spec fn power_on(region: Region) -> FrameCounter {
        FrameCounter { region, five_step: false, irq_inhibit: false, divider: 0, restart_delay: 0 }
    }

    /// The divider of this cycle, and whether a pending restart takes effect in it.
    pub open spec fn restarts(self) -> bool {
        self.restart_delay == 1
    }

    pub open spec fn at(self) -> int {
        if self.restarts() {
            0
        } else {
            self.divider + 1
        }
    }

    /// Last divider value of the sequence.
    pub open spec fn last(self) -> int {
        if self.five_step {
            steps(self.region).4 + 1
        } else {
            steps(self.region).3 + 1
        }
    }

    pub open spec fn ticked(self) -> FrameCounter {
        FrameCounter {
            divider: if self.at() >= self.last() { 0 } else { self.at() as u32 },
            restart_delay: if self.restart_delay > 0 { (self.restart_delay - 1) as u8 } else { 0 },
            ..self
        }
    }

    /// The five-step sequence clocks everything when it restarts; the four-step sequence raises
    /// its interrupt in its last three cycles.
    pub open spec fn event(self) -> FrameEvent {
        let (s1, s2, s3, s4, s5) = steps(self.region);
        let at = self.at();
        let restart_clock = self.restarts() && self.five_step;
        let end = if self.five_step { s5 } else { s4 };
        FrameEvent {
            set_frame_irq: !self.five_step && !self.irq_inhibit && s4 - 1 <= at <= s4 + 1,
            quarter: restart_clock || at == s1 || at == s2 || at == s3 || at == end,
            half: restart_clock || at == s2 || at == end,
        }
    }

    pub open spec fn wrote(self, data: u8, odd_cycle: bool) -> FrameCounter {
        FrameCounter {
            five_step: data & 0x80 != 0,
            irq_inhibit: data & 0x40 != 0,
            restart_delay: if odd_cycle { 4 } else { 3 },
            ..self
        }
    }

    pub fn new(region: Region) -> (counter: Self)
        ensures
            counter == FrameCounter::power_on(region),
            counter.ok(),
    {
        FrameCounter { region, five_step: false, irq_inhibit: false, divider: 0, restart_delay: 0 }
    }

    fn step_cycles(region: Region) -> (cycles: (u32, u32, u32, u32, u32))
        ensures
            cycles == steps(region),
    {
        match region {
            Region::Ntsc => (7457, 14913, 22371, 29829, 37281),
            Region::Pal => (8313, 16627, 24939, 33253, 41565),
        }
    }

    pub fn tick(&mut self) -> (event: FrameEvent)
        requires
            old(self).ok(),
        ensures
            *final(self) == old(self).ticked(),
            event == old(self).event(),
            final(self).ok(),
    {
        let (s1, s2, s3, s4, s5): (u32, u32, u32, u32, u32) = FrameCounter::step_cycles(self.region);
        let restarts: bool = self.restart_delay == 1;
        let at: u32 = if restarts { 0 } else { self.divider + 1 };
        if self.restart_delay > 0 {
            self.restart_delay = self.restart_delay - 1;
        }
        let end: u32 = if self.five_step { s5 } else { s4 };
        let restart_clock: bool = restarts && self.five_step;
        let event: FrameEvent = FrameEvent {
            set_frame_irq: !self.five_step && !self.irq_inhibit && s4 - 1 <= at && at <= s4 + 1,
            quarter: restart_clock || at == s1 || at == s2 || at == s3 || at == end,
            half: restart_clock || at == s2 || at == end,
        };
        self.divider = if at >= end + 1 { 0 } else { at };
        event
    }

    /// `$4017`: mode and interrupt inhibit at once, the restart 3 or 4 cycles later.
    pub fn write_4017(&mut self, data: u8, odd_cycle: bool)
        ensures
            *final(self) == old(self).wrote(data, odd_cycle),
    {
        self.five_step = (data & 0x80) != 0;
        self.irq_inhibit = (data & 0x40) != 0;
        self.restart_delay = if odd_cycle { 4 } else { 3 };
    }

    /// A CPU reset restarts the sequence as if `$4017` were written with the bits it holds.
    pub fn reset_on_cpu_reset(&mut self, cycle: u64)
        ensures
            *final(self) == (FrameCounter {
                restart_delay: if cycle % 2 == 1 { 4 } else { 3 },
                ..*old(self)
            }),
    {
        self.restart_delay = if cycle % 2 == 1 { 4 } else { 3 };
    }
}

} // verus!
