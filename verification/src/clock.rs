//! The master clock, from which the CPU and PPU clocks are divided.
use vstd::prelude::*;

use crate::rom::TvSystem;
use crate::save_state::bus::MasterClockSnap;
use crate::save_state::RegionTag;

verus! {

#[derive(Debug, Clone, Copy, PartialEq, Eq, Structural)]
pub enum Region {
    Ntsc,
    Pal,
}

impl Region {
    /// Master ticks per CPU cycle: 12 on NTSC, 16 on PAL.
    pub open spec fn cpu_divider(self) -> int {
        match self {
            Region::Ntsc => 12,
            Region::Pal => 16,
        }
    }

    /// Master ticks per PPU dot: 4 on NTSC, 5 on PAL.
    pub open spec fn ppu_divider(self) -> int {
        match self {
            Region::Ntsc => 4,
            Region::Pal => 5,
        }
    }

    /// Scanlines of a frame, the pre-render line among them.
    pub open spec fn lines(self) -> int {
        match self {
            Region::Ntsc => 262,
            Region::Pal => 312,
        }
    }

    pub fn from_tv_system(tv: TvSystem) -> (region: Self)
        ensures
            region == match tv {
                TvSystem::Ntsc => Region::Ntsc,
                TvSystem::Pal => Region::Pal,
            },
    {
        match tv {
            TvSystem::Ntsc => Region::Ntsc,
            TvSystem::Pal => Region::Pal,
        }
    }

    pub fn master_per_cpu(self) -> (ticks: u64)
        ensures
            ticks == self.cpu_divider(),
    {
        match self {
            Region::Ntsc => 12,
            Region::Pal => 16,
        }
    }

    pub fn master_per_ppu(self) -> (ticks: u64)
        ensures
            ticks == self.ppu_divider(),
    {
        match self {
            Region::Ntsc => 4,
            Region::Pal => 5,
        }
    }

    pub fn scanlines_per_frame(self) -> (lines: i16)
        ensures
            lines == self.lines(),
    {
        match self {
            Region::Ntsc => 262,
            Region::Pal => 312,
        }
    }

    /// Index of the pre-render scanline, the last one of a frame.
    pub fn pre_render_scanline(self) -> (line: i16)
        ensures
            line == self.lines() - 1,
    {
        match self {
            Region::Ntsc => 261,
            Region::Pal => 311,
        }
    }
}

/// The master clock.
///
/// Every CPU cycle has a start phase, before the bus access, and an end phase after it. A
/// read starts one master tick short of half a cycle, a write one tick past it; the end phase
/// is what is left. The PPU is run up to `ppu_offset` ticks behind the master clock, so how
/// many dots fall into each phase depends on where the clock stands.
#[derive(Debug, Clone, Copy, PartialEq, Eq, Structural)]
pub struct MasterClock {
    pub region: Region,
    pub master_cycles: u64,
    pub cpu_cycles: u64,
    pub ppu_cycles: u64,
    pub ppu_offset: u64,
}

/// `a - b`, or zero where that is negative.
pub open spec fn monus(a: int, b: int) -> int {
    if a > b {
        a - b
    } else {
        0
    }
}

/// `n` reduced to 64 bits.
pub open spec fn wrap64(n: int) -> u64 {
    (n % 0x1_0000_0000_0000_0000) as u64
}

impl MasterClock {
    /// The dot the PPU has to reach when the master clock stands at `master`.
    pub open spec fn dot_at(self, master: u64) -> int {
        monus(master as int, self.ppu_offset as int) / self.region.ppu_divider()
    }

    /// The clock `delta` master ticks later.
    pub open spec fn advanced(self, delta: int) -> MasterClock {
        let master = wrap64(self.master_cycles + delta);
        MasterClock { master_cycles: master, ppu_cycles: self.dot_at(master) as u64, ..self }
    }

    /// Dots that the PPU runs meanwhile.
    pub open spec fn dots(self, delta: int) -> int {
        monus(self.dot_at(wrap64(self.master_cycles + delta)), self.ppu_cycles as int)
    }

    /// Length of the start phase.
    pub open spec fn start_ticks(self, is_read: bool) -> int {
        let half = self.region.cpu_divider() / 2;
        if is_read {
            half - 1
        } else {
            half + 1
        }
    }

    /// Length of the end phase.
    pub open spec fn end_ticks(self, is_read: bool) -> int {
        self.region.cpu_divider() - self.start_ticks(is_read)
    }

    /// The clock after a start phase.
    pub open spec fn started(self, is_read: bool) -> MasterClock {
        MasterClock { cpu_cycles: wrap64(self.cpu_cycles + 1), ..self }.advanced(self.start_ticks(is_read))
    }

    /// The clock after an end phase.
    pub open spec fn ended(self, is_read: bool) -> MasterClock {
        self.advanced(self.end_ticks(is_read))
    }

    /// The PPU is where the master clock says.
    pub open spec fn in_step(self) -> bool {
        self.ppu_cycles == self.dot_at(self.master_cycles)
    }

    pub open spec fn power_on(region: Region) -> MasterClock {
        MasterClock {
            region,
            master_cycles: region.cpu_divider() as u64,
            cpu_cycles: 0,
            ppu_cycles: 0,
            ppu_offset: 1,
        }
    }

    /// A clock primed with one CPU cycle's worth of master ticks.
    pub fn new(region: Region) -> (clock: Self)
        ensures
            clock == MasterClock::power_on(region),
    {
        let master_cycles: u64 = region.master_per_cpu();
        MasterClock { region, master_cycles, cpu_cycles: 0, ppu_cycles: 0, ppu_offset: 1 }
    }

    pub fn region(&self) -> (region: Region)
        ensures
            region == self.region,
    {
        self.region
    }

    pub fn master_cycles(&self) -> (n: u64)
        ensures
            n == self.master_cycles,
    {
        self.master_cycles
    }

    pub fn cpu_cycles(&self) -> (n: u64)
        ensures
            n == self.cpu_cycles,
    {
        self.cpu_cycles
    }

    pub fn ppu_cycles(&self) -> (n: u64)
        ensures
            n == self.ppu_cycles,
    {
        self.ppu_cycles
    }

    /// Advances by `delta` master ticks; returns the dots the PPU has to run to keep up.
    pub fn advance_master(&mut self, delta: u64) -> (dots: u64)
        ensures
            *final(self) == old(self).advanced(delta as int),
            dots == old(self).dots(delta as int),
    {
        self.master_cycles = self.master_cycles.wrapping_add(delta);
        let target_ppu: u64 = self.master_cycles.saturating_sub(self.ppu_offset) / self.region.master_per_ppu();
        let delta_ppu: u64 = target_ppu.saturating_sub(self.ppu_cycles);
        self.ppu_cycles = target_ppu;
        delta_ppu
    }

    pub fn start_clock_count(&self, is_read: bool) -> (ticks: u64)
        ensures
            ticks == self.start_ticks(is_read),
    {
        let base: u64 = self.region.master_per_cpu() / 2;
        if is_read {
            base - 1
        } else {
            base + 1
        }
    }

    pub fn end_clock_count(&self, is_read: bool) -> (ticks: u64)
        ensures
            ticks == self.end_ticks(is_read),
    {
        self.region.master_per_cpu() - self.start_clock_count(is_read)
    }

    /// Enters the start phase of a CPU cycle; returns the dots to run before the bus access.
    pub fn start_cpu_cycle(&mut self, is_read: bool) -> (dots: u64)
        ensures
            *final(self) == old(self).started(is_read),
            dots == old(self).dots(old(self).start_ticks(is_read)),
    {
        self.cpu_cycles = self.cpu_cycles.wrapping_add(1);
        let delta: u64 = self.start_clock_count(is_read);
        self.advance_master(delta)
    }

    /// Enters the end phase of a CPU cycle; returns the dots to run after the bus access.
    pub fn end_cpu_cycle(&mut self, is_read: bool) -> (dots: u64)
        ensures
            *final(self) == old(self).ended(is_read),
            dots == old(self).dots(old(self).end_ticks(is_read)),
    {
        let delta: u64 = self.end_clock_count(is_read);
        self.advance_master(delta)
    }

    pub open spec fn snapshot(self) -> MasterClockSnap {
        MasterClockSnap {
            region: RegionTag::of(self.region),
            master_cycles: self.master_cycles,
            cpu_cycles: self.cpu_cycles,
            ppu_cycles: self.ppu_cycles,
            ppu_offset: self.ppu_offset,
        }
    }

    /// The clock with a snapshot's counters. The region is the console's own.
    pub open spec fn restored(self, snap: MasterClockSnap) -> MasterClock {
        MasterClock {
            region: self.region,
            master_cycles: snap.master_cycles,
            cpu_cycles: snap.cpu_cycles,
            ppu_cycles: snap.ppu_cycles,
            ppu_offset: snap.ppu_offset,
        }
    }

    pub fn save_state_capture(&self) -> (snap: MasterClockSnap)
        ensures
            snap == self.snapshot(),
    {
        MasterClockSnap {
            region: RegionTag::from_region(self.region),
            master_cycles: self.master_cycles,
            cpu_cycles: self.cpu_cycles,
            ppu_cycles: self.ppu_cycles,
            ppu_offset: self.ppu_offset,
        }
    }

    pub fn save_state_apply(&mut self, snap: MasterClockSnap)
        ensures
            *final(self) == old(self).restored(snap),
    {
        self.master_cycles = snap.master_cycles;
        self.cpu_cycles = snap.cpu_cycles;
        self.ppu_cycles = snap.ppu_cycles;
        self.ppu_offset = snap.ppu_offset;
    }
}

/// The two phases of a CPU cycle make up one CPU cycle of master ticks, read or write.
pub proof fn lemma_phases_make_a_cycle(clock: MasterClock, is_read: bool)
    ensures
        clock.start_ticks(is_read) + clock.end_ticks(is_read) == clock.region.cpu_divider(),
        clock.started(is_read).ended(is_read).cpu_cycles == wrap64(clock.cpu_cycles + 1),
        clock.started(is_read).ended(is_read).master_cycles == wrap64(
            clock.master_cycles + clock.region.cpu_divider(),
        ),
{
    let start = clock.start_ticks(is_read);
    let end = clock.end_ticks(is_read);
    let master = clock.master_cycles as int;
    assert(wrap64(wrap64(master + start) + end) == wrap64(master + start + end));
}

/// A clock in step stays in step, and its dots are never lost or run twice: the dots of the
/// two phases add up to what the PPU has to advance.
pub proof fn lemma_stays_in_step(clock: MasterClock, is_read: bool)
    requires
        clock.in_step(),
        clock.master_cycles + clock.region.cpu_divider() <= u64::MAX,
    ensures
        clock.started(is_read).in_step(),
        clock.started(is_read).ended(is_read).in_step(),
        clock.ppu_cycles + clock.dots(clock.start_ticks(is_read)) == clock.started(is_read).ppu_cycles,
        clock.started(is_read).ppu_cycles + clock.started(is_read).dots(clock.end_ticks(is_read))
            == clock.started(is_read).ended(is_read).ppu_cycles,
{
    let start = clock.start_ticks(is_read);
    let end = clock.end_ticks(is_read);
    lemma_wrap64(clock.master_cycles + start);
    lemma_wrap64(clock.master_cycles + start + end);
    lemma_dot_at(clock, clock.master_cycles, (clock.master_cycles + start) as u64);
    lemma_dot_at(clock, (clock.master_cycles + start) as u64, (clock.master_cycles + start + end) as u64);
}

proof fn lemma_wrap64(n: int)
    requires
        0 <= n <= u64::MAX,
    ensures
        wrap64(n) == n,
{
}

/// A later master time never asks for an earlier dot, and every dot fits in 64 bits.
proof fn lemma_dot_at(clock: MasterClock, early: u64, late: u64)
    requires
        early <= late,
    ensures
        0 <= clock.dot_at(early) <= clock.dot_at(late) <= u64::MAX,
{
    match clock.region {
        Region::Ntsc => {
            assert(clock.region.ppu_divider() == 4);
        },
        Region::Pal => {
            assert(clock.region.ppu_divider() == 5);
        },
    }
}

/// On NTSC one or two dots run before the access and the rest after it, three in all.
pub proof fn lemma_three_dots_per_cycle(clock: MasterClock, is_read: bool)
    requires
        clock.region == Region::Ntsc,
        clock.in_step(),
        clock.ppu_offset <= clock.master_cycles,
        clock.master_cycles + 12 <= u64::MAX,
    ensures
        1 <= clock.dots(clock.start_ticks(is_read)) <= 2,
        clock.dots(clock.start_ticks(is_read)) + clock.started(is_read).dots(clock.end_ticks(is_read)) == 3,
{
    let start = clock.start_ticks(is_read);
    let end = clock.end_ticks(is_read);
    lemma_wrap64(clock.master_cycles + start);
    lemma_wrap64(clock.master_cycles + start + end);
    lemma_stays_in_step(clock, is_read);
    assert(clock.region.ppu_divider() == 4);
    assert(start + end == 12);
}

/// The clock after `n` CPU reads and writes, `reads[i]` telling which the `i`-th was.
pub open spec fn after_cycles(clock: MasterClock, reads: Seq<bool>) -> MasterClock
    decreases reads.len(),
{
    if reads.len() == 0 {
        clock
    } else {
        after_cycles(clock, reads.drop_last()).started(reads.last()).ended(reads.last())
    }
}

/// After any mix of reads and writes the clocks depend on their number alone: the CPU has run
/// that many cycles, and the PPU the dots that fit in the master ticks, 3 per cycle on NTSC
/// and 16 in 5 cycles on PAL.
pub proof fn lemma_no_drift(region: Region, reads: Seq<bool>)
    requires
        16 * (reads.len() + 1) <= u64::MAX,
    ensures
        ({
            let clock = after_cycles(MasterClock::power_on(region), reads);
            &&& clock.region == region
            &&& clock.ppu_offset == 1
            &&& clock.cpu_cycles == reads.len()
            &&& clock.master_cycles == region.cpu_divider() * (reads.len() + 1)
            &&& clock.ppu_cycles == (if reads.len() == 0 {
                0
            } else {
                (region.cpu_divider() * (reads.len() + 1) - 1) / region.ppu_divider()
            })
        }),
    decreases reads.len(),
{
    if reads.len() > 0 {
        lemma_no_drift(region, reads.drop_last());
        let before = after_cycles(MasterClock::power_on(region), reads.drop_last());
        let is_read = reads.last();
        let n = reads.len() as int;
        let start = before.start_ticks(is_read);
        let end = before.end_ticks(is_read);
        let per_cpu = region.cpu_divider();
        assert(per_cpu * (n + 1) == per_cpu * n + per_cpu && per_cpu * (n + 1) <= u64::MAX) by {
            match region {
                Region::Ntsc => {},
                Region::Pal => {},
            }
        }
        lemma_wrap64(before.master_cycles + start);
        lemma_wrap64(before.master_cycles + start + end);
        lemma_wrap64(before.cpu_cycles + 1);
        let master = (before.master_cycles + start + end) as u64;
        lemma_dot_at(before, before.master_cycles, master);
    }
}

/// Applying a snapshot to the clock it was taken from, however far it has run, restores it.
pub proof fn lemma_clock_round_trip(clock: MasterClock, later: MasterClock)
    requires
        later.region == clock.region,
    ensures
        later.restored(clock.snapshot()) == clock,
{
}

/// A CPU cycle takes 12 master ticks and a dot 4 on NTSC, 16 and 5 on PAL. A read spends one tick
/// less than half of its cycle before the access, a write one more. A frame has 262 lines on NTSC
/// and 312 on PAL.
pub proof fn lemma_region_timing(clock: MasterClock)
    ensures
        clock.region == Region::Ntsc ==> clock.region.cpu_divider() == 12 && clock.region.ppu_divider() == 4
            && clock.region.lines() == 262 && clock.start_ticks(true) == 5 && clock.end_ticks(true) == 7
            && clock.start_ticks(false) == 7 && clock.end_ticks(false) == 5,
        clock.region == Region::Pal ==> clock.region.cpu_divider() == 16 && clock.region.ppu_divider() == 5
            && clock.region.lines() == 312 && clock.start_ticks(true) == 7 && clock.end_ticks(true) == 9
            && clock.start_ticks(false) == 9 && clock.end_ticks(false) == 7,
{
}

/// From power-on, `n` cycles bring an NTSC clock to dot `3 * n + 2` and a PAL clock to the last dot
/// that has begun within `16 * (n + 1)` master ticks, whatever the mix of reads and writes.
pub proof fn lemma_dots_since_power_on(reads: Seq<bool>)
    requires
        reads.len() > 0,
        16 * (reads.len() + 1) <= u64::MAX,
    ensures
        after_cycles(MasterClock::power_on(Region::Ntsc), reads).ppu_cycles == 3 * reads.len() + 2,
        after_cycles(MasterClock::power_on(Region::Ntsc), reads).master_cycles == 12 * (reads.len() + 1),
        after_cycles(MasterClock::power_on(Region::Pal), reads).ppu_cycles == (16 * reads.len() + 15) / 5,
        after_cycles(MasterClock::power_on(Region::Pal), reads).master_cycles == 16 * (reads.len() + 1),
        after_cycles(MasterClock::power_on(Region::Ntsc), reads).cpu_cycles == reads.len(),
{
    lemma_no_drift(Region::Ntsc, reads);
    lemma_no_drift(Region::Pal, reads);
}

/// The dots that a stretch of master ticks asks for are those that begin in it, the first at the
/// PPU's offset.
pub proof fn lemma_dots_of_a_stretch(clock: MasterClock, delta: int)
    requires
        0 <= delta,
        clock.ppu_offset <= clock.master_cycles,
        clock.master_cycles + delta <= u64::MAX,
        clock.ppu_cycles <= (clock.master_cycles - clock.ppu_offset) / (if clock.region == Region::Ntsc {
            4int
        } else {
            5
        }),
    ensures
        clock.region == Region::Ntsc ==> clock.dots(delta) == (clock.master_cycles + delta - clock.ppu_offset) / 4
            - clock.ppu_cycles,
        clock.region == Region::Pal ==> clock.dots(delta) == (clock.master_cycles + delta - clock.ppu_offset) / 5
            - clock.ppu_cycles,
        clock.advanced(delta).ppu_cycles == clock.ppu_cycles + clock.dots(delta),
        clock.advanced(delta).master_cycles == clock.master_cycles + delta,
        clock.advanced(delta).cpu_cycles == clock.cpu_cycles,
{
    lemma_wrap64(clock.master_cycles + delta);
    lemma_dot_at(clock, clock.master_cycles, (clock.master_cycles + delta) as u64);
}

} // verus!
