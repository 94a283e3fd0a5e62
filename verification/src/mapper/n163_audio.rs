//! Namco 163 wavetable synthesizer: up to eight channels that take turns.
//!
//! The chip has 128 bytes of RAM, shared with the CPU. Waveforms are four-bit samples, two to a
//! byte, the low one first. Each channel has eight bytes at `$40 + 8 * channel`:
//!
//! | offset | field |
//! |---|---|
//! | 0, 2, 4 (bits 0-1) | frequency, 18 bits |
//! | 1, 3, 5 | phase, 24 bits, written back as the channel runs |
//! | 4 (bits 2-7) | 256 minus the wave length |
//! | 6 | first sample of the wave |
//! | 7 (bits 0-3) | volume |
//!
//! Bits 4-6 of byte `$7F` hold the number of active channels less one. They are the last ones,
//! and one of them is brought up to date every 15 CPU cycles, from channel 7 down.
use vstd::prelude::*;

use crate::save_state::mapper::N163AudioSnap;

verus! {

pub const AUDIO_RAM_SIZE: usize = 0x80;

/// CPU cycles between channel updates.
pub const CYCLES_PER_UPDATE: u8 = 15;

pub struct N163Audio {
    pub ram: [u8; AUDIO_RAM_SIZE],
    /// The last sample of each channel, centred and scaled by its volume.
    pub channel_output: [i16; 8],
    pub update_counter: u8,
    /// The channel that is updated next.
    pub current_channel: i8,
    /// The average of the active channels.
    pub last_output: i16,
    pub disable_sound: bool,
    /// Where the CPU's next access to the RAM goes.
    pub address: u8,
    pub auto_inc: bool,
}

/// The state of an [`N163Audio`].
pub struct N163AudioState {
    pub ram: Seq<u8>,
    pub channel_output: Seq<i16>,
    pub update_counter: u8,
    pub current_channel: i8,
    pub last_output: i16,
    pub disable_sound: bool,
    pub address: u8,
    pub auto_inc: bool,
}

impl View for N163Audio {
    type V = N163AudioState;

    open spec fn view(&self) -> N163AudioState {
        N163AudioState {
            ram: self.ram@,
            channel_output: self.channel_output@,
            update_counter: self.update_counter,
            current_channel: self.current_channel,
            last_output: self.last_output,
            disable_sound: self.disable_sound,
            address: self.address,
            auto_inc: self.auto_inc,
        }
    }
}

/// `a / b` rounded towards zero.
pub open spec fn quotient(a: int, b: int) -> int {
    if a >= 0 {
        a / b
    } else {
        -((-a) / b)
    }
}

/// The sum of `outputs[from..8]`.
pub open spec fn sum_from(outputs: Seq<i16>, from: int) -> int
    decreases 8 - from,
{
    if from >= 8 {
        0
    } else {
        outputs[from] + sum_from(outputs, from + 1)
    }
}

/// First of a channel's eight bytes.
pub open spec fn channel_start(channel: int) -> int {
    0x40 + channel % 8 * 8
}

impl N163AudioState {
    pub open spec fn ok(self) -> bool {
        &&& self.ram.len() == 0x80
        &&& self.channel_output.len() == 8
        &&& self.update_counter < 255
        &&& 0 <= self.current_channel <= 7
    }

    pub open spec fn power_on() -> N163AudioState {
        N163AudioState {
            ram: Seq::new(0x80, |i: int| 0u8),
            channel_output: Seq::new(8, |i: int| 0i16),
            update_counter: 0,
            current_channel: 7,
            last_output: 0,
            disable_sound: false,
            address: 0,
            auto_inc: false,
        }
    }

    pub open spec fn advanced(self) -> N163AudioState {
        if self.auto_inc {
            N163AudioState { address: ((self.address + 1) % 0x80) as u8, ..self }
        } else {
            self
        }
    }

    pub open spec fn data_byte(self) -> u8 {
        self.ram[self.address as int % 0x80]
    }

    pub open spec fn wrote_data(self, data: u8) -> N163AudioState {
        (N163AudioState { ram: self.ram.update(self.address as int % 0x80, data), ..self }).advanced()
    }

    pub open spec fn wrote_address(self, byte: u8) -> N163AudioState {
        N163AudioState { address: (byte % 0x80) as u8, auto_inc: byte >= 0x80, ..self }
    }

    /// How many channels are active besides channel 7.
    pub open spec fn extra_channels(self) -> int {
        self.ram[0x7F] as int / 0x10 % 8
    }

    pub open spec fn freq_of(self, channel: int) -> int {
        let base = channel_start(channel);
        self.ram[base + 4] % 4 * 0x1_0000 + self.ram[base + 2] * 0x100 + self.ram[base]
    }

    pub open spec fn phase_of(self, channel: int) -> int {
        let base = channel_start(channel);
        self.ram[base + 5] * 0x1_0000 + self.ram[base + 3] * 0x100 + self.ram[base + 1]
    }

    pub open spec fn length_of(self, channel: int) -> int {
        256 - self.ram[channel_start(channel) + 4] as int / 4 * 4
    }

    pub open spec fn volume_of(self, channel: int) -> int {
        self.ram[channel_start(channel) + 7] as int % 0x10
    }

    /// The channel's phase after an update: it wraps with the wave.
    pub open spec fn next_phase(self, channel: int) -> int {
        (self.phase_of(channel) + self.freq_of(channel)) % (self.length_of(channel) * 0x1_0000)
    }

    /// The four-bit sample at `index`.
    pub open spec fn sample(self, index: int) -> int {
        let byte = self.ram[index / 2] as int;
        if index % 2 == 1 {
            byte / 0x10
        } else {
            byte % 0x10
        }
    }

    /// The sample that the channel plays after an update.
    pub open spec fn next_output(self, channel: int) -> int {
        let start = self.ram[channel_start(channel) + 6];
        let index = (self.next_phase(channel) / 0x1_0000 + start) % 256;
        (self.sample(index) - 8) * self.volume_of(channel)
    }

    pub open spec fn with_phase(self, channel: int, phase: int) -> N163AudioState {
        let base = channel_start(channel);
        N163AudioState {
            ram: self.ram.update(base + 1, (phase % 0x100) as u8).update(
                base + 3,
                (phase / 0x100 % 0x100) as u8,
            ).update(base + 5, (phase / 0x1_0000 % 0x100) as u8),
            ..self
        }
    }

    pub open spec fn channel_updated(self, channel: int) -> N163AudioState {
        (N163AudioState {
            channel_output: self.channel_output.update(channel, self.next_output(channel) as i16),
            ..self
        }).with_phase(channel, self.next_phase(channel))
    }

    /// The average of the active channels.
    pub open spec fn mixed(self) -> int {
        quotient(
            sum_from(self.channel_output, 7 - self.extra_channels()),
            self.extra_channels() + 1,
        )
    }

    pub open spec fn refreshed(self) -> N163AudioState {
        N163AudioState { last_output: self.mixed() as i16, ..self }
    }

    /// The turn passed to the next active channel.
    pub open spec fn turn_passed(self) -> N163AudioState {
        N163AudioState {
            current_channel: if self.current_channel - 1 < 7 - self.extra_channels() {
                7
            } else {
                (self.current_channel - 1) as i8
            },
            ..self
        }
    }

    pub open spec fn clocked(self) -> N163AudioState {
        if self.disable_sound {
            self
        } else if self.update_counter + 1 < 15 {
            N163AudioState { update_counter: (self.update_counter + 1) as u8, ..self }
        } else {
            (N163AudioState { update_counter: 0, ..self }).channel_updated(
                self.current_channel as int,
            ).refreshed().turn_passed()
        }
    }

    /// Whether `snap` was taken in this state.
    pub open spec fn captured(self, snap: N163AudioSnap) -> bool {
        &&& snap.ram@ == self.ram
        &&& snap.channel_output@ == self.channel_output
        &&& snap.update_counter == self.update_counter
        &&& snap.current_channel == self.current_channel
        &&& snap.last_output == self.last_output
        &&& snap.disable_sound == self.disable_sound
        &&& snap.address == self.address
        &&& snap.auto_inc == self.auto_inc
    }

    pub open spec fn restored(snap: N163AudioSnap) -> N163AudioState {
        N163AudioState {
            ram: snap.ram@,
            channel_output: snap.channel_output@,
            update_counter: snap.update_counter,
            current_channel: snap.current_channel,
            last_output: snap.last_output,
            disable_sound: snap.disable_sound,
            address: snap.address,
            auto_inc: snap.auto_inc,
        }
    }
}

/// Whether a snapshot's counters are ones that a chip can reach.
pub open spec fn n163_snap_fits(snap: N163AudioSnap) -> bool {
    snap.update_counter < 255 && 0 <= snap.current_channel <= 7
}

impl N163Audio {
    pub fn new() -> (audio: Self)
        ensures
            audio@ == N163AudioState::power_on(),
            audio@.ok(),
    {
        let audio: N163Audio = N163Audio {
            ram: [0; AUDIO_RAM_SIZE],
            channel_output: [0; 8],
            update_counter: 0,
            current_channel: 7,
            last_output: 0,
            disable_sound: false,
            address: 0,
            auto_inc: false,
        };
        assert(audio@.ram =~= N163AudioState::power_on().ram);
        assert(audio@.channel_output =~= N163AudioState::power_on().channel_output);
        audio
    }

    /// `$4800` read.
    pub fn read_4800(&mut self) -> (byte: u8)
        requires
            old(self)@.ok(),
        ensures
            byte == old(self)@.data_byte(),
            final(self)@ == old(self)@.advanced(),
            final(self)@.ok(),
    {
        let byte: u8 = self.peek_4800();
        self.advance_address();
        byte
    }

    /// What a `$4800` read would return.
    pub fn peek_4800(&self) -> (byte: u8)
        requires
            self@.ok(),
        ensures
            byte == self@.data_byte(),
    {
        self.ram[self.address as usize % 0x80]
    }

    /// `$4800` write.
    pub fn write_4800(&mut self, data: u8)
        requires
            old(self)@.ok(),
        ensures
            final(self)@ == old(self)@.wrote_data(data),
            final(self)@.ok(),
    {
        self.ram[self.address as usize % 0x80] = data;
        self.advance_address();
    }

    /// `$F800` write: address, and in bit 7 whether accesses move it on.
    pub fn set_address_latch(&mut self, byte: u8)
        requires
            old(self)@.ok(),
        ensures
            final(self)@ == old(self)@.wrote_address(byte),
            final(self)@.ok(),
    {
        self.address = byte % 0x80;
        self.auto_inc = byte >= 0x80;
    }

    pub fn set_disable(&mut self, disabled: bool)
        requires
            old(self)@.ok(),
        ensures
            final(self)@ == (N163AudioState { disable_sound: disabled, ..old(self)@ }),
            final(self)@.ok(),
    {
        self.disable_sound = disabled;
    }

    pub fn current_address(&self) -> (address: u8)
        ensures
            address == self@.address,
    {
        self.address
    }

    pub fn auto_increment(&self) -> (auto_inc: bool)
        ensures
            auto_inc == self@.auto_inc,
    {
        self.auto_inc
    }

    pub fn ram_byte(&self, idx: usize) -> (byte: u8)
        ensures
            byte == self@.ram[idx as int % 0x80],
    {
        self.ram[idx % 0x80]
    }

    pub fn internal_ram(&self) -> (ram: &[u8; AUDIO_RAM_SIZE])
        ensures
            ram@ == self@.ram,
    {
        &self.ram
    }

    /// Replaces the RAM; data of another length is ignored.
    pub fn load_internal_ram(&mut self, src: &[u8])
        requires
            old(self)@.ok(),
        ensures
            final(self)@ == (N163AudioState { ram: crate::mem::reloaded(old(self)@.ram, src@), ..old(self)@ }),
            final(self)@.ok(),
    {
        if src.len() == AUDIO_RAM_SIZE {
            let mut ram: [u8; AUDIO_RAM_SIZE] = [0; AUDIO_RAM_SIZE];
            let mut i: usize = 0;
            while i < AUDIO_RAM_SIZE
                invariant
                    i <= AUDIO_RAM_SIZE,
                    src@.len() == AUDIO_RAM_SIZE,
                    forall|j: int| 0 <= j < i ==> ram@[j] == src@[j],
                decreases AUDIO_RAM_SIZE - i,
            {
                ram[i] = src[i];
                i = i + 1;
            }
            assert(ram@ =~= src@);
            self.ram = ram;
        }
    }

    /// Advances one CPU cycle.
    pub fn clock(&mut self)
        requires
            old(self)@.ok(),
        ensures
            final(self)@ == old(self)@.clocked(),
            final(self)@.ok(),
    {
        if self.disable_sound {
            return;
        }
        self.update_counter = self.update_counter + 1;
        if self.update_counter < CYCLES_PER_UPDATE {
            return;
        }
        self.update_counter = 0;
        let channel: usize = self.current_channel as usize;
        self.update_channel(channel);
        self.refresh_output();
        let active_count: i8 = self.active_count() as i8;
        self.current_channel = self.current_channel - 1;
        if self.current_channel < 7 - active_count {
            self.current_channel = 7;
        }
    }

    fn advance_address(&mut self)
        requires
            old(self)@.ok(),
        ensures
            final(self)@ == old(self)@.advanced(),
            final(self)@.ok(),
    {
        if self.auto_inc {
            self.address = ((self.address as u16 + 1) % 0x80) as u8;
        }
    }

    fn channel_base(channel: usize) -> (base: usize)
        ensures
            base == channel_start(channel as int),
            0x40 <= base <= 0x78,
    {
        0x40 + channel % 8 * 8
    }

    /// The number of active channels less one.
    pub fn active_count(&self) -> (n: u8)
        requires
            self@.ok(),
        ensures
            n == self@.extra_channels(),
            n <= 7,
    {
        self.ram[0x7F] / 0x10 % 8
    }

    pub fn frequency(&self, channel: usize) -> (frequency: u32)
        requires
            self@.ok(),
        ensures
            frequency == self@.freq_of(channel as int),
            frequency <= 0x3_FFFF,
    {
        let base: usize = N163Audio::channel_base(channel);
        self.ram[base + 4] as u32 % 4 * 0x1_0000 + self.ram[base + 2] as u32 * 0x100 + self.ram[base] as u32
    }

    pub fn phase(&self, channel: usize) -> (phase: u32)
        requires
            self@.ok(),
        ensures
            phase == self@.phase_of(channel as int),
            phase <= 0xFF_FFFF,
    {
        let base: usize = N163Audio::channel_base(channel);
        self.ram[base + 5] as u32 * 0x1_0000 + self.ram[base + 3] as u32 * 0x100 + self.ram[base + 1] as u32
    }

    fn store_phase(&mut self, channel: usize, phase: u32)
        requires
            old(self)@.ok(),
        ensures
            final(self)@ == old(self)@.with_phase(channel as int, phase as int),
            final(self)@.ok(),
    {
        let base: usize = N163Audio::channel_base(channel);
        self.ram[base + 1] = (phase % 0x100) as u8;
        self.ram[base + 3] = (phase / 0x100 % 0x100) as u8;
        self.ram[base + 5] = (phase / 0x1_0000 % 0x100) as u8;
    }

    pub fn wave_length(&self, channel: usize) -> (length: u32)
        requires
            self@.ok(),
        ensures
            length == self@.length_of(channel as int),
            4 <= length <= 256,
    {
        let base: usize = N163Audio::channel_base(channel);
        256 - self.ram[base + 4] as u32 / 4 * 4
    }

    pub fn wave_address(&self, channel: usize) -> (address: u8)
        requires
            self@.ok(),
        ensures
            address == self@.ram[channel_start(channel as int) + 6],
    {
        self.ram[N163Audio::channel_base(channel) + 6]
    }

    pub fn volume(&self, channel: usize) -> (volume: u8)
        requires
            self@.ok(),
        ensures
            volume == self@.volume_of(channel as int),
            volume <= 15,
    {
        self.ram[N163Audio::channel_base(channel) + 7] % 0x10
    }

    fn update_channel(&mut self, channel: usize)
        requires
            old(self)@.ok(),
            channel < 8,
        ensures
            final(self)@ == old(self)@.channel_updated(channel as int),
            final(self)@.ok(),
    {
        let phase: u32 = self.phase(channel);
        let freq: u32 = self.frequency(channel);
        let length: u32 = self.wave_length(channel);
        let offset: u8 = self.wave_address(channel);
        let volume: u8 = self.volume(channel);
        let wrap: u32 = length * 0x1_0000;
        let new_phase: u32 = (phase + freq) % wrap;
        let step: u32 = new_phase / 0x1_0000;
        assert(step < 256);
        let sample_index: usize = (step as usize + offset as usize) % 256;
        let byte: u8 = self.ram[sample_index / 2];
        let nibble: u8 = if sample_index % 2 == 1 { byte / 0x10 } else { byte % 0x10 };
        let signed: i16 = nibble as i16 - 8;
        let level: i16 = volume as i16;
        assert(-8 * 15 <= signed * level <= 7 * 15) by (nonlinear_arith)
            requires
                -8 <= signed <= 7,
                0 <= level <= 15,
        ;
        self.channel_output[channel] = signed * level;
        self.store_phase(channel, new_phase);
    }

    /// Takes the average of the active channels.
    pub fn refresh_output(&mut self)
        requires
            old(self)@.ok(),
        ensures
            final(self)@ == old(self)@.refreshed(),
            final(self)@.ok(),
    {
        let active_count: usize = self.active_count() as usize;
        let first: usize = 7 - active_count;
        let mut sum: i32 = 0;
        let mut ch: usize = 8;
        while ch > first
            invariant
                first <= ch <= 8,
                first == 7 - active_count,
                active_count <= 7,
                self@ == old(self)@,
                self@.ok(),
                sum == sum_from(self@.channel_output, ch as int),
                -0x8000 * (8 - ch) <= sum <= 0x7FFF * (8 - ch),
            decreases ch,
        {
            ch = ch - 1;
            sum = sum + self.channel_output[ch] as i32;
        }
        let denom: i32 = active_count as i32 + 1;
        let mixed: i32 = if sum >= 0 { sum / denom } else { -((-sum) / denom) };
        proof {
            lemma_average_fits(sum as int, denom as int);
        }
        self.last_output = mixed as i16;
    }

    /// The level that the mixer takes, from -120 to 105.
    pub fn mix_level(&self) -> (level: i16)
        ensures
            level == self@.last_output,
    {
        self.last_output
    }

    pub fn save_state_capture(&self) -> (snap: N163AudioSnap)
        ensures
            self@.captured(snap),
    {
        N163AudioSnap {
            ram: self.ram,
            channel_output: self.channel_output,
            update_counter: self.update_counter,
            current_channel: self.current_channel,
            last_output: self.last_output,
            disable_sound: self.disable_sound,
            address: self.address,
            auto_inc: self.auto_inc,
        }
    }

    pub fn save_state_apply(&mut self, snap: N163AudioSnap)
        requires
            n163_snap_fits(snap),
        ensures
            final(self)@ == N163AudioState::restored(snap),
            final(self)@.ok(),
    {
        self.ram = snap.ram;
        self.channel_output = snap.channel_output;
        self.update_counter = snap.update_counter;
        self.current_channel = snap.current_channel;
        self.last_output = snap.last_output;
        self.disable_sound = snap.disable_sound;
        self.address = snap.address;
        self.auto_inc = snap.auto_inc;
    }
}

impl Default for N163Audio {
    fn default() -> (audio: Self)
        ensures
            audio@ == N163AudioState::power_on(),
    {
        N163Audio::new()
    }
}

/// The average of `n` numbers of 16 bits has 16 bits.
proof fn lemma_average_fits(sum: int, n: int)
    requires
        1 <= n <= 8,
        -0x8000 * n <= sum <= 0x7FFF * n,
    ensures
        -0x8000 <= quotient(sum, n) <= 0x7FFF,
{
    if sum >= 0 {
        assert(sum / n <= 0x7FFF) by (nonlinear_arith)
            requires
                0 <= sum <= 0x7FFF * n,
                n >= 1,
        ;
    } else {
        let m = -sum;
        assert(m / n <= 0x8000) by (nonlinear_arith)
            requires
                0 <= m <= 0x8000 * n,
                n >= 1,
        ;
    }
}

/// Every channel's output is within what four bits and a four-bit volume can give.
pub open spec fn outputs_in_range(s: N163AudioState) -> bool {
    forall|i: int| 0 <= i < 8 ==> -120 <= #[trigger] s.channel_output[i] <= 105
}

proof fn lemma_sum_in_range(outputs: Seq<i16>, from: int)
    requires
        outputs.len() == 8,
        0 <= from <= 8,
        forall|i: int| 0 <= i < 8 ==> -120 <= #[trigger] outputs[i] <= 105,
    ensures
        -120 * (8 - from) <= sum_from(outputs, from) <= 105 * (8 - from),
    decreases 8 - from,
{
    if from < 8 {
        lemma_sum_in_range(outputs, from + 1);
    }
}

/// Whatever the RAM holds, running keeps the outputs and their average between -120 and 105.
pub proof fn lemma_output_range(s: N163AudioState)
    requires
        s.ok(),
        outputs_in_range(s),
        -120 <= s.last_output <= 105,
    ensures
        outputs_in_range(s.clocked()),
        -120 <= s.clocked().last_output <= 105,
{
    if !s.disable_sound && s.update_counter + 1 >= 15 {
        let rewound = (N163AudioState { update_counter: 0, ..s });
        let channel = s.current_channel as int;
        let index = (rewound.next_phase(channel) / 0x1_0000 + s.ram[channel_start(channel) + 6]) % 256;
        let sample = rewound.sample(index);
        let volume = rewound.volume_of(channel);
        assert(0 <= index / 2 < 128);
        assert(0 <= sample <= 15);
        assert(-120 <= (sample - 8) * volume <= 105) by (nonlinear_arith)
            requires
                0 <= sample <= 15,
                0 <= volume <= 15,
        ;
        let updated = rewound.channel_updated(channel);
        assert(outputs_in_range(updated));
        let n = updated.extra_channels() + 1;
        lemma_sum_in_range(updated.channel_output, 8 - n);
        let sum = sum_from(updated.channel_output, 8 - n);
        if sum >= 0 {
            assert(sum / n <= 105) by (nonlinear_arith)
                requires
                    0 <= sum <= 105 * n,
                    n >= 1,
            ;
        } else {
            let m = -sum;
            assert(m / n <= 120) by (nonlinear_arith)
                requires
                    0 <= m <= 120 * n,
                    n >= 1,
            ;
        }
    }
}

/// A chip that is switched off does nothing and holds its level.
pub proof fn lemma_disabled_is_frozen(s: N163AudioState)
    requires
        s.disable_sound,
    ensures
        s.clocked() == s,
{
}

/// The chip `n` cycles later.
pub open spec fn clocked_times(s: N163AudioState, n: nat) -> N163AudioState
    decreases n,
{
    if n == 0 {
        s
    } else {
        clocked_times(s, (n - 1) as nat).clocked()
    }
}

/// Between updates only the prescaler moves: the next one comes after 15 cycles.
pub proof fn lemma_update_every_15_cycles(s: N163AudioState, n: nat)
    requires
        !s.disable_sound,
        s.update_counter == 0,
        n < 15,
    ensures
        clocked_times(s, n) == (N163AudioState { update_counter: n as u8, ..s }),
        clocked_times(s, 15) == s.channel_updated(s.current_channel as int).refreshed().turn_passed(),
{
    lemma_update_prescaler(s, n);
    lemma_update_prescaler(s, 14);
    assert(clocked_times(s, 15) == clocked_times(s, 14).clocked());
    assert((N163AudioState { update_counter: 0, ..s }) == s);
}

proof fn lemma_update_prescaler(s: N163AudioState, n: nat)
    requires
        !s.disable_sound,
        s.update_counter == 0,
        n < 15,
    ensures
        clocked_times(s, n) == (N163AudioState { update_counter: n as u8, ..s }),
    decreases n,
{
    if n > 0 {
        lemma_update_prescaler(s, (n - 1) as nat);
    }
}

/// The cursor points into the 128 bytes: it does at power-on and after every write of the latch, and
/// neither reads, data writes nor the passing of time take it out.
pub proof fn lemma_cursor_stays_in_ram(s: N163AudioState, byte: u8)
    requires
        s.address < 0x80,
    ensures
        N163AudioState::power_on().address < 0x80,
        s.wrote_address(byte).address < 0x80,
        s.advanced().address < 0x80,
        s.wrote_data(byte).address < 0x80,
        s.clocked().address == s.address,
{
}

/// The address moves through all 128 bytes and around where accesses move it on.
pub proof fn lemma_auto_increment(s: N163AudioState, data: u8)
    requires
        s.ok(),
        s.auto_inc,
        s.address < 0x80,
    ensures
        s.wrote_data(data).address == (s.address + 1) % 0x80,
        s.wrote_data(data).ram[s.address as int] == data,
        (N163AudioState { address: s.address, ..s.wrote_data(data) }).data_byte() == data,
{
}

/// A channel's eight registers, from `$40` on: three frequency bytes of which the last gives two
/// bits, three phase bytes between them, the length in steps of four below 256, the wave's start and
/// the volume.
pub proof fn lemma_channel_registers(s: N163AudioState, channel: int)
    requires
        0 <= channel < 8,
    ensures
        ({
            let at = 0x40 + 8 * channel;
            &&& s.freq_of(channel) == s.ram[at] + 0x100 * s.ram[at + 2] + 0x1_0000 * (s.ram[at + 4] % 4)
            &&& s.phase_of(channel) == s.ram[at + 1] + 0x100 * s.ram[at + 3] + 0x1_0000 * s.ram[at + 5]
            &&& s.length_of(channel) == 256 - (s.ram[at + 4] - s.ram[at + 4] % 4)
            &&& s.volume_of(channel) == s.ram[at + 7] % 16
            &&& channel_start(channel) == at
        }),
        s.extra_channels() == s.ram[0x7F] as int / 16 % 8,
{
}

/// An update moves the channel's phase on by its frequency and around with its wave, and stores it
/// back; nothing else in RAM changes.
pub proof fn lemma_update_moves_phase(s: N163AudioState, channel: int, i: int)
    requires
        s.ok(),
        0 <= channel < 8,
        0 <= i < 0x80,
    ensures
        ({
            let t = s.channel_updated(channel);
            let at = 0x40 + 8 * channel;
            let moved = (s.phase_of(channel) + s.freq_of(channel)) % (s.length_of(channel) * 0x1_0000);
            &&& t.phase_of(channel) == moved
            &&& i != at + 1 && i != at + 3 && i != at + 5 ==> t.ram[i] == s.ram[i]
        }),
{
    let n = s.length_of(channel);
    let moved = (s.phase_of(channel) + s.freq_of(channel)) % (n * 0x1_0000);
    assert(4 <= n <= 256);
    vstd::arithmetic::div_mod::lemma_mod_bound(s.phase_of(channel) + s.freq_of(channel), n * 0x1_0000);
    assert(0 <= moved < 0x100_0000);
    let t = s.channel_updated(channel);
    let at = 0x40 + 8 * channel;
    assert(t.ram[at + 1] == moved % 0x100);
    assert(t.ram[at + 3] == moved / 0x100 % 0x100);
    assert(t.ram[at + 5] == moved / 0x1_0000 % 0x100);
}

/// The wave holds two samples a byte: the low half of byte `n` is sample `2 * n`, the high half is
/// sample `2 * n + 1`. An update that lands on a sample leaves the channel at that sample, centred on
/// zero, times its volume, and leaves the other channels' outputs alone.
pub proof fn lemma_update_plays_sample(s: N163AudioState, channel: int, n: int, hi: int, lo: int)
    requires
        s.ok(),
        0 <= channel < 8,
        0 <= n < 0x80,
        0 <= hi < 16,
        0 <= lo < 16,
        s.ram[n] == hi * 16 + lo,
    ensures
        ({
            let at = 0x40 + 8 * channel;
            let moved = (s.phase_of(channel) + s.freq_of(channel)) % (s.length_of(channel) * 0x1_0000);
            let index = (moved / 0x1_0000 + s.ram[at + 6]) % 256;
            let t = s.channel_updated(channel);
            let volume = s.ram[at + 7] % 16;
            &&& index == 2 * n ==> t.channel_output[channel] == (lo - 8) * volume
            &&& index == 2 * n + 1 ==> t.channel_output[channel] == (hi - 8) * volume
            &&& forall|k: int| 0 <= k < 8 && k != channel ==> t.channel_output[k] == s.channel_output[k]
        }),
{
    let volume = (s.ram[0x40 + 8 * channel + 7] % 16) as int;
    assert(-0x8000 <= (lo - 8) * volume <= 0x7FFF) by (nonlinear_arith)
        requires
            0 <= lo < 16,
            0 <= volume < 16,
    ;
    assert(-0x8000 <= (hi - 8) * volume <= 0x7FFF) by (nonlinear_arith)
        requires
            0 <= hi < 16,
            0 <= volume < 16,
    ;
}

/// What is heard is the sum of the active channels' outputs over their number, rounded towards zero:
/// channel 7 alone, or the last so many.
pub proof fn lemma_average_of_active_channels(s: N163AudioState)
    requires
        s.ok(),
        outputs_in_range(s),
    ensures
        ({
            let n = s.ram[0x7F] as int / 16 % 8;
            let o = s.channel_output;
            let heard = s.refreshed().last_output;
            &&& n == 0 ==> heard == o[7]
            &&& n == 1 ==> average_of(o[6] + o[7], 2, heard as int)
            &&& n == 2 ==> average_of(o[5] + o[6] + o[7], 3, heard as int)
            &&& n == 3 ==> average_of(o[4] + o[5] + o[6] + o[7], 4, heard as int)
            &&& n == 4 ==> average_of(o[3] + o[4] + o[5] + o[6] + o[7], 5, heard as int)
            &&& n == 5 ==> average_of(o[2] + o[3] + o[4] + o[5] + o[6] + o[7], 6, heard as int)
            &&& n == 6 ==> average_of(o[1] + o[2] + o[3] + o[4] + o[5] + o[6] + o[7], 7, heard as int)
            &&& n == 7 ==> average_of(o[0] + o[1] + o[2] + o[3] + o[4] + o[5] + o[6] + o[7], 8, heard as int)
        }),
        s.refreshed().channel_output == s.channel_output,
        s.refreshed().ram == s.ram,
{
    reveal_with_fuel(sum_from, 9);
    let n = s.ram[0x7F] as int / 16 % 8;
    lemma_sum_in_range(s.channel_output, 7 - n);
    let sum = sum_from(s.channel_output, 7 - n);
    lemma_quotient(sum, n + 1);
    let o = s.channel_output;
    if n == 0 {
        assert(sum == o[7]);
        lemma_quotient(sum, 1);
    } else if n == 1 {
        assert(sum == o[6] + o[7]);
        lemma_quotient(sum, 2);
    } else if n == 2 {
        assert(sum == o[5] + o[6] + o[7]);
        lemma_quotient(sum, 3);
    } else if n == 3 {
        assert(sum == o[4] + o[5] + o[6] + o[7]);
        lemma_quotient(sum, 4);
    } else if n == 4 {
        assert(sum == o[3] + o[4] + o[5] + o[6] + o[7]);
        lemma_quotient(sum, 5);
    } else if n == 5 {
        assert(sum == o[2] + o[3] + o[4] + o[5] + o[6] + o[7]);
        lemma_quotient(sum, 6);
    } else if n == 6 {
        assert(sum == o[1] + o[2] + o[3] + o[4] + o[5] + o[6] + o[7]);
        lemma_quotient(sum, 7);
    } else if n == 7 {
        assert(sum == o[0] + o[1] + o[2] + o[3] + o[4] + o[5] + o[6] + o[7]);
        lemma_quotient(sum, 8);    }
    assert(-1000 <= sum <= 1000);
    assert(quotient(sum, n + 1) <= 1000 && quotient(sum, n + 1) >= -1000) by (nonlinear_arith)
        requires
            average_of(sum, n + 1, quotient(sum, n + 1)),
            -1000 <= sum <= 1000,
            n + 1 >= 1,
    ;
}

proof fn lemma_quotient(sum: int, n: int)
    requires
        n >= 1,
    ensures
        average_of(sum, n, quotient(sum, n)),
{
    let m = if sum >= 0 { sum } else { -sum };
    let q = m / n;
    assert(q >= 0 && q * n <= m < (q + 1) * n) by (nonlinear_arith)
        requires
            q == m / n,
            m >= 0,
            n >= 1,
    ;
    assert((-q) * n == -(q * n) && (-q - 1) * n == -((q + 1) * n)) by (nonlinear_arith);
}

/// Whether `q` is `sum / n`, rounded towards zero.
pub open spec fn average_of(sum: int, n: int, q: int) -> bool {
    &&& sum >= 0 ==> q >= 0 && q * n <= sum < (q + 1) * n
    &&& sum <= 0 ==> q <= 0 && (q - 1) * n < sum <= q * n
}

/// The turn goes down from channel 7 to the last active one and back to 7.
pub proof fn lemma_turns(s: N163AudioState)
    requires
        s.ok(),
    ensures
        ({
            let last = 7 - s.ram[0x7F] as int / 16 % 8;
            let t = s.turn_passed();
            &&& s.current_channel > last ==> t.current_channel == s.current_channel - 1
            &&& s.current_channel <= last ==> t.current_channel == 7
            &&& t.ram == s.ram && t.channel_output == s.channel_output && t.last_output == s.last_output
        }),
{
}

/// The latch takes seven address bits, and from bit 7 whether accesses move the cursor on; without it
/// they do not. A read gives the byte at the cursor, and a write stores there and nowhere else.
pub proof fn lemma_data_port(s: N163AudioState, byte: u8, data: u8, i: int)
    requires
        s.ok(),
        0 <= i < 0x80,
    ensures
        ({
            let latched = s.wrote_address(byte);
            let stored = latched.wrote_data(data);
            &&& latched.address == byte % 0x80
            &&& latched.auto_inc == (byte >= 0x80)
            &&& latched.ram == s.ram
            &&& latched.data_byte() == s.ram[byte as int % 0x80]
            &&& stored.wrote_address(byte).data_byte() == data
            &&& i != byte as int % 0x80 ==> stored.ram[i] == s.ram[i]
            &&& byte < 0x80 ==> stored.address == latched.address && latched.advanced() == latched
            &&& byte >= 0x80 ==> stored.address == (byte + 1) % 0x80 && latched.advanced().address == (byte + 1)
                % 0x80
        }),
{
}

/// At power-on the RAM is blank, channel 7 has the turn, and nothing is heard.
pub proof fn lemma_n163_power_on(i: int)
    requires
        0 <= i < 8,
    ensures
        ({
            let s = N163AudioState::power_on();
            &&& s.ok()
            &&& forall|k: int| 0 <= k < 0x80 ==> s.ram[k] == 0
            &&& s.channel_output[i] == 0
            &&& s.last_output == 0
            &&& s.current_channel == 7
            &&& !s.disable_sound
            &&& s.address == 0
            &&& !s.auto_inc
        }),
{
}

/// A snapshot brings back the chip it was taken from.
pub proof fn lemma_n163_round_trip(s: N163AudioState, snap: N163AudioSnap)
    requires
        s.ok(),
        s.captured(snap),
    ensures
        n163_snap_fits(snap),
        N163AudioState::restored(snap) == s,
{
}

} // verus!
