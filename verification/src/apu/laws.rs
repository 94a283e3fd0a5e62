//! What the sound unit's channels, sequencer and mixer do, in terms of registers, levels and time.
use vstd::prelude::*;

use crate::apu::dmc::{Dmc, NTSC_RATES, PAL_RATES};
use crate::apu::envelope::Envelope;
use crate::apu::frame_counter::FrameCounter;
use crate::apu::length::LengthCounter;
use crate::apu::noise::{Noise, NTSC_PERIODS, PAL_PERIODS};
use crate::apu::pulse::Pulse;
use crate::apu::sweep::{lemma_shift_down, Sweep};
use crate::apu::triangle::{Triangle, TRIANGLE_SEQUENCE};
use crate::apu::Apu;
use crate::clock::Region;

verus! {

/// The mixer hears all five channels: the pulse axis is the sum of what the two pulse channels put
/// out, the other axis three times the triangle, twice the noise and the delta modulation level.
pub proof fn lemma_mixer_hears_every_channel(apu: Apu)
    requires
        apu.ok(),
    ensures
        apu.levels().pulse == apu.pulse1.level() + apu.pulse2.level(),
        apu.levels().tnd == 3 * apu.triangle.level() + 2 * apu.noise.level() + apu.dmc.output_level,
        apu.pulse1.level() == 0 ==> apu.levels().pulse == apu.pulse2.level(),
        apu.pulse2.level() == 0 ==> apu.levels().pulse == apu.pulse1.level(),
{
    reveal(Apu::ok);
    reveal(Apu::levels);
    lemma_channel_ranges(apu);
}

/// A channel's level fits in four bits, the delta modulation level in seven.
pub proof fn lemma_channel_ranges(apu: Apu)
    requires
        apu.ok(),
    ensures
        apu.pulse1.level() <= 15,
        apu.pulse2.level() <= 15,
        0 <= apu.triangle.level() <= 15,
        apu.noise.level() <= 15,
        apu.dmc.output_level <= 127,
{
    reveal(Apu::ok);
}

/// A pulse channel sounds with its envelope's volume in the high steps of its duty cycle and is
/// silent otherwise: without length, below a period of 8, and where its sweep aims above `$7FF`.
/// The high steps are 1, 1-2, 1-4, and all but 1-2.
pub proof fn lemma_pulse_sounds(pulse: Pulse)
    requires
        pulse.duty < 4,
        pulse.duty_pos < 8,
    ensures
        ({
            let high = if pulse.duty == 0 {
                pulse.duty_pos == 1
            } else if pulse.duty == 1 {
                1 <= pulse.duty_pos <= 2
            } else if pulse.duty == 2 {
                1 <= pulse.duty_pos <= 4
            } else {
                !(1 <= pulse.duty_pos <= 2)
            };
            let audible = pulse.length.counter > 0 && pulse.period >= 8 && pulse.sweep.target_period <= 0x7FF;
            &&& high && audible ==> pulse.level() == pulse.envelope.level()
            &&& !high || !audible ==> pulse.level() == 0
        }),
{
}

/// An envelope's volume is the fixed one where it is constant, the decay level otherwise. The control
/// byte holds the loop flag in bit 5, the constant flag in bit 4 and the volume in its low half.
pub proof fn lemma_envelope_volume(envelope: Envelope, data: u8)
    ensures
        envelope.constant ==> envelope.level() == envelope.divider_period,
        !envelope.constant ==> envelope.level() == envelope.decay,
        envelope.wrote_ctrl(data).loop_flag == (data & 0x20 != 0),
        envelope.wrote_ctrl(data).constant == (data & 0x10 != 0),
        envelope.wrote_ctrl(data).divider_period == data & 0x0F,
        envelope.wrote_ctrl(data).start == envelope.start,
        envelope.wrote_ctrl(data).decay == envelope.decay,
        envelope.wrote_ctrl(data).divider == envelope.divider,
{
}

/// The two timer registers of a pulse channel make its eleven-bit period, the sweep aims anew at each
/// write, and the second also loads the length counter and starts duty cycle and envelope over.
pub proof fn lemma_pulse_registers(pulse: Pulse, ctrl: u8, sweep: u8, lo: u8, hi: u8)
    ensures
        ({
            let t = pulse.wrote(2, lo).wrote(3, hi);
            &&& t.period == (hi % 8) * 0x100 + lo
            &&& t.sweep.target_period == t.sweep.target(t.period)
            &&& t.duty_pos == 0
            &&& t.envelope.start
            &&& t.length == pulse.length.with_reload(hi >> 3)
            &&& t.timer == pulse.timer
            &&& t.duty == pulse.duty
        }),
        pulse.wrote(2, lo).sweep.target_period == pulse.sweep.target(pulse.wrote(2, lo).period),
        pulse.wrote(2, lo).duty_pos == pulse.duty_pos,
        pulse.wrote(2, lo).envelope == pulse.envelope,
        pulse.wrote(2, lo).length == pulse.length,
        pulse.wrote(0, ctrl) == (Pulse {
            duty: ctrl / 0x40,
            length: LengthCounter { staged_halt: ctrl & 0x20 != 0, ..pulse.length },
            envelope: Envelope {
                loop_flag: ctrl & 0x20 != 0,
                constant: ctrl & 0x10 != 0,
                divider_period: ctrl & 0x0F,
                ..pulse.envelope
            },
            ..pulse
        }),
        ({
            let t = pulse.wrote(1, sweep).sweep;
            &&& t.enabled == (sweep & 0x80 != 0)
            &&& t.period == sweep / 0x10 % 8
            &&& t.negate == (sweep & 0x08 != 0)
            &&& t.shift == sweep % 8
            &&& t.reload
            &&& t.target_period == t.target(pulse.period)
            &&& t.ones_complement == pulse.sweep.ones_complement
        }),
{
    crate::bits::lemma_period_registers(pulse.period, lo, hi);
    crate::bits::lemma_byte_fields(ctrl);
    crate::bits::lemma_byte_fields(sweep);
}

/// The sweep aims at the period plus its shifted self, or minus it, one less still on the first pulse
/// channel, and never below zero.
pub proof fn lemma_sweep_aims(sweep: Sweep, period: u16)
    requires
        period <= 0x7FF,
        sweep.shift < 16,
    ensures
        !sweep.negate ==> sweep.target(period) == period + (period >> sweep.shift),
        sweep.negate && !sweep.ones_complement ==> sweep.target(period) == period - (period >> sweep.shift),
        sweep.negate && sweep.ones_complement && period > (period >> sweep.shift) ==> sweep.target(period) + 1
            == period - (period >> sweep.shift),
        sweep.negate && sweep.ones_complement && period == (period >> sweep.shift) ==> sweep.target(period) == 0,
        Pulse::power_on(true).sweep.ones_complement,
        !Pulse::power_on(false).sweep.ones_complement,
        Apu::power_on(Region::Ntsc).pulse1.sweep.ones_complement,
        !Apu::power_on(Region::Ntsc).pulse2.sweep.ones_complement,
{
    lemma_shift_down(period, sweep.shift);
}

/// A half frame counts the length down, and moves the period to the sweep's aim where the divider has
/// run out and the sweep is enabled, shifts, and does not mute. A written sweep reloads its divider.
pub proof fn lemma_pulse_half_frame(pulse: Pulse)
    ensures
        ({
            let t = pulse.clocked_half();
            let moves = pulse.sweep.divider == 0 && pulse.sweep.enabled && pulse.sweep.shift != 0
                && pulse.period >= 8 && pulse.sweep.target_period <= 0x7FF;
            &&& t.period == (if moves { pulse.sweep.target_period } else { pulse.period })
            &&& moves ==> t.sweep.target_period == pulse.sweep.target(t.period)
            &&& !moves ==> t.sweep.target_period == pulse.sweep.target_period
            &&& pulse.sweep.divider == 0 || pulse.sweep.reload ==> t.sweep.divider == pulse.sweep.period
                && !t.sweep.reload
            &&& pulse.sweep.divider > 0 && !pulse.sweep.reload ==> t.sweep.divider == pulse.sweep.divider - 1
            &&& t.length.counter == (if pulse.length.counter > 0 && !pulse.length.halt {
                pulse.length.counter - 1
            } else {
                pulse.length.counter as int
            })
            &&& t.envelope == pulse.envelope
            &&& t.duty_pos == pulse.duty_pos
        }),
{
}

/// The pulse channel after `n` timer clocks.
pub open spec fn pulse_ticks(pulse: Pulse, n: nat) -> Pulse
    decreases n,
{
    if n == 0 {
        pulse
    } else {
        pulse_ticks(pulse, (n - 1) as nat).ticked()
    }
}

/// A pulse channel takes a duty step every `period + 1` timer clocks, after the step that it is in.
pub proof fn lemma_pulse_timer(pulse: Pulse, n: nat)
    requires
        pulse.duty_pos < 8,
    ensures
        n <= pulse.timer ==> pulse_ticks(pulse, n) == (Pulse { timer: (pulse.timer - n) as u16, ..pulse }),
        n == pulse.timer + 1 ==> pulse_ticks(pulse, n) == (Pulse {
            timer: pulse.period,
            duty_pos: ((pulse.duty_pos + 1) % 8) as u8,
            ..pulse
        }),
    decreases n,
{
    if n > 0 {
        lemma_pulse_timer(pulse, (n - 1) as nat);
    }
}

/// The length a register loads: 254 for 1, one less than the index for the other odd ones, and for the
/// even ones the note lengths of two tempos.
pub proof fn lemma_length_loads(length: LengthCounter, index: u8)
    requires
        length.enabled,
        length.counter == 0,
        index < 32,
    ensures
        ({
            let loaded = length.with_reload(index).committed().counter;
            &&& index == 1 ==> loaded == 254
            &&& index % 2 == 1 && index > 1 ==> loaded == index - 1
            &&& index == 0 || index == 2 || index == 4 || index == 6 || index == 8 ==> loaded == 10 * (if index == 0 {
                1int
            } else if index == 2 {
                2
            } else if index == 4 {
                4
            } else if index == 6 {
                8
            } else {
                16
            })
            &&& index == 10 ==> loaded == 60
            &&& index == 12 ==> loaded == 14
            &&& index == 14 ==> loaded == 26
            &&& index == 16 || index == 18 || index == 20 || index == 22 || index == 24 ==> loaded == 12 * (if index
                == 16 {
                1int
            } else if index == 18 {
                2
            } else if index == 20 {
                4
            } else if index == 22 {
                8
            } else {
                16
            })
            &&& index == 26 ==> loaded == 72
            &&& index == 28 ==> loaded == 16
            &&& index == 30 ==> loaded == 32
        }),
{
}

/// A disabled channel loads nothing and counts as empty; a halted one does not count; the halt flag
/// takes effect when staged writes do.
pub proof fn lemma_length_rules(length: LengthCounter, index: u8, halt: bool)
    requires
        index < 32,
    ensures
        !length.enabled ==> length.with_reload(index) == length,
        length.switched(false).counter == 0,
        !length.switched(false).enabled,
        length.switched(true).counter == length.counter,
        length.switched(true).enabled,
        length.halt || length.counter == 0 ==> length.clocked().counter == length.counter,
        !length.halt && length.counter > 0 ==> length.clocked().counter == length.counter - 1,
        (LengthCounter { staged_halt: halt, ..length }).committed().halt == halt,
        length.clocked().halt == length.halt,
        length.staged_reload is None ==> length.committed().counter == length.counter,
        length.committed().staged_reload is None,
        length.committed().enabled == length.enabled,
{
}

/// The triangle goes down from 15 to 0 and up again, a level at a time, each end held for two steps;
/// below a period of 2 it rests at 8.
pub proof fn lemma_triangle_wave(triangle: Triangle)
    requires
        triangle.sequencer_pos < 32,
    ensures
        triangle.period < 2 ==> triangle.level() == 8,
        triangle.period >= 2 && triangle.sequencer_pos < 16 ==> triangle.level() + triangle.sequencer_pos == 15,
        triangle.period >= 2 && triangle.sequencer_pos >= 16 ==> triangle.level() + 16 == triangle.sequencer_pos,
        TRIANGLE_SEQUENCE@[triangle.sequencer_pos as int] == (if triangle.sequencer_pos < 16 {
            15 - triangle.sequencer_pos
        } else {
            triangle.sequencer_pos - 16
        }),
{
}

/// The triangle's registers: control flag and linear reload value, and a period of eleven bits whose
/// high part also loads the length counter and asks for a reload of the linear counter.
pub proof fn lemma_triangle_registers(triangle: Triangle, linear: u8, lo: u8, hi: u8)
    ensures
        triangle.wrote(0, linear) == (Triangle {
            control_flag: linear & 0x80 != 0,
            linear_reload_value: linear & 0x7F,
            length: LengthCounter { staged_halt: linear & 0x80 != 0, ..triangle.length },
            ..triangle
        }),
        triangle.wrote(1, linear) == triangle,
        ({
            let t = triangle.wrote(2, lo).wrote(3, hi);
            &&& t.period == (hi % 8) * 0x100 + lo
            &&& t.linear_reload_flag
            &&& t.length == triangle.length.with_reload(hi >> 3)
            &&& t.sequencer_pos == triangle.sequencer_pos
            &&& t.linear_counter == triangle.linear_counter
        }),
        triangle.wrote(2, lo).linear_reload_flag == triangle.linear_reload_flag,
        triangle.wrote(2, lo).length == triangle.length,
{
    crate::bits::lemma_period_registers(triangle.period, lo, hi);
}

/// A quarter frame loads the linear counter where a reload is asked for and counts it down otherwise;
/// the reload stays asked for only while the control flag is set.
pub proof fn lemma_triangle_quarter_frame(triangle: Triangle)
    ensures
        triangle.linear_reload_flag ==> triangle.clocked_quarter().linear_counter == triangle.linear_reload_value,
        !triangle.linear_reload_flag && triangle.linear_counter > 0 ==> triangle.clocked_quarter().linear_counter
            == triangle.linear_counter - 1,
        !triangle.linear_reload_flag && triangle.linear_counter == 0 ==> triangle.clocked_quarter().linear_counter
            == 0,
        triangle.clocked_quarter().linear_reload_flag == (triangle.linear_reload_flag && triangle.control_flag),
        triangle.clocked_quarter().sequencer_pos == triangle.sequencer_pos,
{
}

/// The triangle channel after `n` CPU cycles.
pub open spec fn triangle_ticks(triangle: Triangle, n: nat) -> Triangle
    decreases n,
{
    if n == 0 {
        triangle
    } else {
        triangle_ticks(triangle, (n - 1) as nat).ticked()
    }
}

/// A running triangle takes a step every `period + 1` CPU cycles.
pub proof fn lemma_triangle_timer(triangle: Triangle, n: nat)
    requires
        triangle.sequencer_pos < 32,
        triangle.linear_counter > 0,
        triangle.length.counter > 0,
    ensures
        n <= triangle.timer ==> triangle_ticks(triangle, n) == (Triangle {
            timer: (triangle.timer - n) as u16,
            ..triangle
        }),
        n == triangle.timer + 1 ==> triangle_ticks(triangle, n) == (Triangle {
            timer: triangle.period,
            sequencer_pos: ((triangle.sequencer_pos + 1) % 32) as u8,
            ..triangle
        }),
    decreases n,
{
    if n > 0 {
        lemma_triangle_timer(triangle, (n - 1) as nat);
    }
}

/// The noise register shifts down by one, and takes in at bit 14 the exclusive or of bit 0 and bit 1,
/// or bit 6 in short mode; the channel sounds while bit 0 is clear and its length runs.
pub proof fn lemma_noise_register(noise: Noise, k: u16)
    requires
        noise.shift < 0x8000,
        k < 14,
    ensures
        ({
            let s = noise.shift;
            let t = noise.shifted();
            &&& t < 0x8000
            &&& (t >> k) & 1 == (s >> ((k + 1) as u16)) & 1
            &&& !noise.mode ==> (t >> 14) & 1 == (s & 1) ^ ((s >> 1) & 1)
            &&& noise.mode ==> (t >> 14) & 1 == (s & 1) ^ ((s >> 6) & 1)
        }),
        noise.length.counter > 0 && noise.shift & 1 == 0 ==> noise.level() == noise.envelope.level(),
        noise.length.counter == 0 || noise.shift & 1 == 1 ==> noise.level() == 0,
        noise.timer == 0 ==> noise.ticked().shift == noise.shifted() && noise.ticked().timer == noise.period,
        noise.timer > 0 ==> noise.ticked().shift == noise.shift && noise.ticked().timer == noise.timer - 1,
        Noise::power_on(noise.region).shift == 1,
{
    let s = noise.shift;
    let tap = if noise.mode {
        (s >> 6) & 1
    } else {
        (s >> 1) & 1
    };
    let t = (s >> 1) | (((s & 1) ^ tap) << 14);
    let j = (k + 1) as u16;
    assert(t < 0x8000 && (t >> k) & 1 == (s >> j) & 1 && (t >> 14) & 1 == (s & 1) ^ tap) by (bit_vector)
        requires
            s < 0x8000,
            k < 14,
            j == k + 1,
            tap == (s >> 6) & 1 || tap == (s >> 1) & 1,
            t == (s >> 1) | (((s & 1) ^ tap) << 14),
    ;
    assert(s & 1 == 0 || s & 1 == 1) by (bit_vector);
}

/// The noise channel's registers: envelope and halt, mode and period, length. Periods are given in CPU
/// cycles, and the timer counts every second one.
pub proof fn lemma_noise_registers(noise: Noise, data: u8)
    ensures
        noise.wrote(0, data) == (Noise {
            length: LengthCounter { staged_halt: data & 0x20 != 0, ..noise.length },
            envelope: Envelope {
                loop_flag: data & 0x20 != 0,
                constant: data & 0x10 != 0,
                divider_period: data & 0x0F,
                ..noise.envelope
            },
            ..noise
        }),
        noise.wrote(1, data) == noise,
        noise.wrote(2, data).mode == (data & 0x80 != 0),
        noise.region == Region::Ntsc ==> 2 * (noise.wrote(2, data).period + 1) == NTSC_PERIODS@[(data & 0x0F) as int],
        noise.region == Region::Pal ==> 2 * (noise.wrote(2, data).period + 1) == PAL_PERIODS@[(data & 0x0F) as int],
        noise.wrote(2, data).shift == noise.shift,
        noise.wrote(3, data) == (Noise {
            length: noise.length.with_reload(data >> 3),
            envelope: Envelope { start: true, ..noise.envelope },
            ..noise
        }),
        NTSC_PERIODS@ =~= seq![
            4u16, 8, 16, 32, 64, 96, 128, 160, 202, 254, 380, 508, 762, 1016, 2034, 4068,
        ],
        PAL_PERIODS@ =~= seq![
            4u16, 8, 14, 30, 60, 88, 118, 148, 188, 236, 354, 472, 708, 944, 1890, 3778,
        ],
{
    crate::bits::lemma_mask_u8(data, 0x0F);
    let i = (data & 0x0F) as int;
    assert(0 <= i < 16);
    assert(NTSC_PERIODS@[i] % 2 == 0 && NTSC_PERIODS@[i] >= 4);
    assert(PAL_PERIODS@[i] % 2 == 0 && PAL_PERIODS@[i] >= 4);
}

/// The delta modulation channel's registers: interrupt, loop and rate, the level itself, the sample's
/// address in steps of 64 from `$C000`, and its length in steps of 16 plus one.
pub proof fn lemma_dmc_registers(dmc: Dmc, data: u8)
    ensures
        dmc.wrote(0, data).irq_enabled == (data & 0x80 != 0),
        dmc.wrote(0, data).loop_flag == (data & 0x40 != 0),
        dmc.region == Region::Ntsc ==> dmc.wrote(0, data).period + 1 == NTSC_RATES@[(data & 0x0F) as int],
        dmc.region == Region::Pal ==> dmc.wrote(0, data).period + 1 == PAL_RATES@[(data & 0x0F) as int],
        dmc.wrote(0, data).output_level == dmc.output_level,
        dmc.wrote(1, data) == (Dmc { output_level: data & 0x7F, ..dmc }),
        dmc.wrote(2, data) == (Dmc { sample_addr: (0xC000 + 64 * data) as u16, ..dmc }),
        dmc.wrote(3, data) == (Dmc { sample_len: (16 * data + 1) as u16, ..dmc }),
        NTSC_RATES@ =~= seq![
            428u16, 380, 340, 320, 286, 254, 226, 214, 190, 160, 142, 128, 106, 84, 72, 54,
        ],
        PAL_RATES@ =~= seq![
            398u16, 354, 316, 298, 276, 236, 210, 198, 176, 148, 132, 118, 98, 78, 66, 50,
        ],
{
    crate::bits::lemma_mask_u8(data, 0x0F);
    let i = (data & 0x0F) as int;
    assert(0 <= i < 16);
    assert(NTSC_RATES@[i] >= 50 && PAL_RATES@[i] >= 50);
}

/// Switching the channel on starts its sample where none is playing, with the first fetch asked for 2
/// or 3 cycles later; one that is playing goes on. Switching it off ends it.
pub proof fn lemma_dmc_switch(dmc: Dmc, odd: bool)
    ensures
        dmc.bytes_remaining == 0 ==> dmc.switched(true, odd) == (Dmc {
            current_addr: dmc.sample_addr,
            bytes_remaining: dmc.sample_len,
            transfer_start_delay: if odd { 3 } else { 2 },
            ..dmc
        }),
        dmc.bytes_remaining > 0 ==> dmc.switched(true, odd) == dmc,
        dmc.switched(false, odd).bytes_remaining == 0,
        dmc.switched(false, odd).output_level == dmc.output_level,
        dmc.switched(false, odd).buffer == dmc.buffer,
{
}

/// A fetched byte waits in the buffer, the reader moves on and around from `$FFFF` to `$8000`, and the
/// last byte starts a looping sample over or raises the interrupt where that is enabled.
pub proof fn lemma_dmc_fetch(dmc: Dmc, byte: u8)
    requires
        dmc.bytes_remaining > 0,
        dmc.sample_len > 0,
    ensures
        ({
            let t = dmc.filled(byte);
            let ends = dmc.bytes_remaining == 1;
            &&& t.buffer == Some(byte)
            &&& !ends ==> t.bytes_remaining == dmc.bytes_remaining - 1
            &&& ends && dmc.loop_flag ==> t.bytes_remaining == dmc.sample_len && t.current_addr == dmc.sample_addr
            &&& ends && !dmc.loop_flag ==> t.bytes_remaining == 0
            &&& !(ends && dmc.loop_flag) && dmc.current_addr < 0xFFFF ==> t.current_addr == dmc.current_addr + 1
            &&& !(ends && dmc.loop_flag) && dmc.current_addr == 0xFFFF ==> t.current_addr == 0x8000
            &&& dmc.finishes_with_irq() == (ends && !dmc.loop_flag && dmc.irq_enabled)
            &&& t.output_level == dmc.output_level
        }),
{
}

/// With its timer at zero the output unit takes one bit: up two for a one and down two for a zero, not
/// past 0 or 127, nothing when silent. After eight bits it takes the buffered byte and asks for
/// another, or falls silent.
pub proof fn lemma_dmc_output(dmc: Dmc)
    requires
        dmc.ok(),
        dmc.timer == 0,
        dmc.transfer_start_delay == 0,
    ensures
        ({
            let t = dmc.ticked();
            &&& t.timer == dmc.period
            &&& dmc.silence ==> t.output_level == dmc.output_level
            &&& !dmc.silence && dmc.shift & 1 == 1 ==> t.output_level == (if dmc.output_level <= 125 {
                dmc.output_level + 2
            } else {
                dmc.output_level as int
            })
            &&& !dmc.silence && dmc.shift & 1 != 1 ==> t.output_level == (if dmc.output_level >= 2 {
                dmc.output_level - 2
            } else {
                dmc.output_level as int
            })
            &&& dmc.bits_remaining > 1 ==> t.bits_remaining == dmc.bits_remaining - 1 && t.shift == dmc.shift >> 1
                && t.buffer == dmc.buffer && t.silence == dmc.silence && t.request == dmc.request
            &&& dmc.bits_remaining == 1 && dmc.buffer is Some ==> t.bits_remaining == 8 && t.shift
                == dmc.buffer->Some_0 && t.buffer is None && !t.silence && t.request == (dmc.request
                || dmc.bytes_remaining > 0)
            &&& dmc.bits_remaining == 1 && dmc.buffer is None ==> t.bits_remaining == 8 && t.silence
        }),
{
}

/// Between two bits the timer only counts down; the delay of a fresh sample counts down beside it and
/// asks for the first byte at its end.
pub proof fn lemma_dmc_waits(dmc: Dmc)
    requires
        dmc.timer > 0,
    ensures
        ({
            let t = dmc.ticked();
            &&& t.timer == dmc.timer - 1
            &&& t.output_level == dmc.output_level
            &&& t.shift == dmc.shift
            &&& t.bits_remaining == dmc.bits_remaining
            &&& dmc.transfer_start_delay > 0 ==> t.transfer_start_delay == dmc.transfer_start_delay - 1
            &&& dmc.transfer_start_delay == 1 ==> t.request == (dmc.request || (dmc.buffer is None
                && dmc.bytes_remaining > 0))
            &&& dmc.transfer_start_delay != 1 ==> t.request == dmc.request
        }),
{
}

/// The frame counter's clocks fall on fixed cycles: four quarter frames and two half frames in the
/// four-step sequence, whose last three cycles raise the interrupt unless that is inhibited; in the
/// five-step sequence the fourth step is empty, the fifth ends it, and no interrupt comes.
pub proof fn lemma_frame_sequence(f: FrameCounter)
    requires
        f.restart_delay != 1,
    ensures
        ({
            let at = f.divider + 1;
            let e = f.event();
            &&& f.region == Region::Ntsc && !f.five_step ==> e.quarter == (at == 7457 || at == 14913 || at == 22371
                || at == 29829) && e.half == (at == 14913 || at == 29829) && e.set_frame_irq == (!f.irq_inhibit
                && 29828 <= at <= 29830)
            &&& f.region == Region::Ntsc && f.five_step ==> e.quarter == (at == 7457 || at == 14913 || at == 22371
                || at == 37281) && e.half == (at == 14913 || at == 37281) && !e.set_frame_irq
            &&& f.region == Region::Pal && !f.five_step ==> e.quarter == (at == 8313 || at == 16627 || at == 24939
                || at == 33253) && e.half == (at == 16627 || at == 33253) && e.set_frame_irq == (!f.irq_inhibit
                && 33252 <= at <= 33254)
            &&& f.region == Region::Pal && f.five_step ==> e.quarter == (at == 8313 || at == 16627 || at == 24939
                || at == 41565) && e.half == (at == 16627 || at == 41565) && !e.set_frame_irq
            &&& f.region == Region::Ntsc && !f.five_step && at < 29830 ==> f.ticked().divider == at
            &&& f.region == Region::Ntsc && !f.five_step && at == 29830 ==> f.ticked().divider == 0
            &&& f.region == Region::Ntsc && f.five_step && at < 37282 ==> f.ticked().divider == at
            &&& f.region == Region::Ntsc && f.five_step && at == 37282 ==> f.ticked().divider == 0
            &&& f.region == Region::Pal && !f.five_step && at < 33254 ==> f.ticked().divider == at
            &&& f.region == Region::Pal && !f.five_step && at == 33254 ==> f.ticked().divider == 0
            &&& f.region == Region::Pal && f.five_step && at < 41566 ==> f.ticked().divider == at
            &&& f.region == Region::Pal && f.five_step && at == 41566 ==> f.ticked().divider == 0
        }),
{
}

/// A write to `$4017` sets mode and inhibit at once and restarts the sequence after 3 cycles, or 4 where
/// it falls on an odd cycle; a restart in five-step mode clocks everything.
pub proof fn lemma_frame_restart(f: FrameCounter, data: u8, odd: bool)
    requires
        f.ok(),
    ensures
        ({
            let w = f.wrote(data, odd);
            &&& w.five_step == (data & 0x80 != 0)
            &&& w.irq_inhibit == (data & 0x40 != 0)
            &&& w.divider == f.divider
            &&& w.restart_delay == (if odd { 4int } else { 3 })
            &&& f.restart_delay > 1 ==> f.ticked().restart_delay == f.restart_delay - 1
            &&& f.restart_delay == 1 ==> f.ticked().restart_delay == 0 && f.ticked().divider == 0
                && f.event().quarter == f.five_step && f.event().half == f.five_step && !f.event().set_frame_irq
            &&& f.restart_delay == 0 ==> f.ticked().restart_delay == 0
        }),
{
}

/// Each register belongs to one channel, four to each from `$4000` on, and a write leaves the other
/// channels alone.
pub proof fn lemma_register_map(apu: Apu, reg: u16, data: u8)
    requires
        reg < 4,
    ensures
        apu.wrote((0x4000 + reg) as u16, data) == (Apu { pulse1: apu.pulse1.wrote(reg as int, data), ..apu }),
        apu.wrote((0x4004 + reg) as u16, data) == (Apu { pulse2: apu.pulse2.wrote(reg as int, data), ..apu }),
        apu.wrote((0x4008 + reg) as u16, data) == (Apu { triangle: apu.triangle.wrote(reg as int, data), ..apu }),
        apu.wrote((0x400C + reg) as u16, data) == (Apu { noise: apu.noise.wrote(reg as int, data), ..apu }),
        apu.wrote((0x4010 + reg) as u16, data) == (Apu {
            dmc: apu.dmc.wrote(reg as int, data),
            dmc_irq: apu.dmc_irq && (reg != 0 || data & 0x80 != 0),
            ..apu
        }),
        apu.wrote(0x4014, data) == apu,
        apu.wrote(0x4016, data) == apu,
        apu.wrote(0x4017, data) == (Apu {
            frame_counter: apu.frame_counter.wrote(data, apu.cycle & 1 == 1),
            frame_irq: apu.frame_irq && data & 0x40 == 0,
            ..apu
        }),
{
    reveal(Apu::wrote);
}

/// A write to `$4015` switches each channel by its bit: a cleared bit empties the channel, a set one
/// lets it be loaded, and for delta modulation starts a sample where none is playing.
pub proof fn lemma_channel_enables(apu: Apu, data: u8)
    ensures
        ({
            let t = apu.wrote(0x4015, data);
            &&& t.pulse1.length.enabled == (data & 0x01 != 0)
            &&& t.pulse2.length.enabled == (data & 0x02 != 0)
            &&& t.triangle.length.enabled == (data & 0x04 != 0)
            &&& t.noise.length.enabled == (data & 0x08 != 0)
            &&& t.pulse1.length.counter == (if data & 0x01 != 0 { apu.pulse1.length.counter } else { 0 })
            &&& t.pulse2.length.counter == (if data & 0x02 != 0 { apu.pulse2.length.counter } else { 0 })
            &&& t.triangle.length.counter == (if data & 0x04 != 0 { apu.triangle.length.counter } else { 0 })
            &&& t.noise.length.counter == (if data & 0x08 != 0 { apu.noise.length.counter } else { 0 })
            &&& data & 0x10 == 0 ==> t.dmc.bytes_remaining == 0
            &&& data & 0x10 != 0 && apu.dmc.bytes_remaining == 0 ==> t.dmc.bytes_remaining == apu.dmc.sample_len
            &&& data & 0x10 != 0 && apu.dmc.bytes_remaining > 0 ==> t.dmc == apu.dmc
        }),
{
    reveal(Apu::wrote);
}

/// The status byte has one bit for each channel that still plays, and one for each interrupt.
pub proof fn lemma_status_bits(apu: Apu)
    ensures
        apu.status() & 0x01 == (if apu.pulse1.length.counter > 0 { 0x01u8 } else { 0u8 }),
        apu.status() & 0x02 == (if apu.pulse2.length.counter > 0 { 0x02u8 } else { 0u8 }),
        apu.status() & 0x04 == (if apu.triangle.length.counter > 0 { 0x04u8 } else { 0u8 }),
        apu.status() & 0x08 == (if apu.noise.length.counter > 0 { 0x08u8 } else { 0u8 }),
        apu.status() & 0x10 == (if apu.dmc.bytes_remaining > 0 { 0x10u8 } else { 0u8 }),
        apu.status() & 0x20 == 0,
        apu.status() & 0x40 == (if apu.frame_irq { 0x40u8 } else { 0u8 }),
        apu.status() & 0x80 == (if apu.dmc_irq { 0x80u8 } else { 0u8 }),
{
    reveal(Apu::status);
    let a: u8 = if apu.pulse1.length.counter > 0 { 0x01 } else { 0 };
    let b: u8 = if apu.pulse2.length.counter > 0 { 0x02 } else { 0 };
    let c: u8 = if apu.triangle.length.counter > 0 { 0x04 } else { 0 };
    let d: u8 = if apu.noise.length.counter > 0 { 0x08 } else { 0 };
    let e: u8 = if apu.dmc.bytes_remaining > 0 { 0x10 } else { 0 };
    let f: u8 = if apu.frame_irq { 0x40 } else { 0 };
    let g: u8 = if apu.dmc_irq { 0x80 } else { 0 };
    let s = a | b | c | d | e | f | g;
    assert(s & 0x01 == a && s & 0x02 == b && s & 0x04 == c && s & 0x08 == d && s & 0x10 == e && s & 0x20 == 0
        && s & 0x40 == f && s & 0x80 == g) by (bit_vector)
        requires
            s == a | b | c | d | e | f | g,
            a == 0 || a == 0x01,
            b == 0 || b == 0x02,
            c == 0 || c == 0x04,
            d == 0 || d == 0x08,
            e == 0 || e == 0x10,
            f == 0 || f == 0x40,
            g == 0 || g == 0x80,
    ;
}

/// A CPU cycle: the frame counter first, then staged length writes, then the timers, the triangle's and
/// the delta modulation's always and the others' in odd cycles.
pub proof fn lemma_cycle_without_frame_clock(apu: Apu)
    requires
        !apu.frame_counter.event().quarter,
        !apu.frame_counter.event().half,
    ensures
        ({
            let t = apu.ticked();
            let odd = apu.cycle & 1 == 1;
            let p1 = Pulse { length: apu.pulse1.length.committed(), ..apu.pulse1 };
            let p2 = Pulse { length: apu.pulse2.length.committed(), ..apu.pulse2 };
            let ns = Noise { length: apu.noise.length.committed(), ..apu.noise };
            &&& t.cycle == (if apu.cycle == u64::MAX { 0 } else { apu.cycle + 1 })
            &&& t.frame_irq == (apu.frame_irq || apu.frame_counter.event().set_frame_irq)
            &&& t.dmc_irq == apu.dmc_irq
            &&& t.frame_counter == apu.frame_counter.ticked()
            &&& t.dmc == apu.dmc.ticked()
            &&& t.triangle == (Triangle { length: apu.triangle.length.committed(), ..apu.triangle }).ticked()
            &&& t.pulse1 == (if odd { p1.ticked() } else { p1 })
            &&& t.pulse2 == (if odd { p2.ticked() } else { p2 })
            &&& t.noise == (if odd { ns.ticked() } else { ns })
        }),
{
    reveal(Apu::ticked);
}

/// A quarter frame clocks every envelope and the linear counter, a half frame every length counter and
/// sweep.
pub proof fn lemma_frame_clocks_reach_channels(apu: Apu)
    ensures
        apu.frame_counter.event().quarter && !apu.frame_counter.event().half ==> ({
            let t = apu.ticked();
            &&& t.pulse1.envelope == apu.pulse1.envelope.clocked()
            &&& t.pulse2.envelope == apu.pulse2.envelope.clocked()
            &&& t.noise.envelope == apu.noise.envelope.clocked()
            &&& t.triangle.linear_counter == apu.triangle.clocked_quarter().linear_counter
            &&& t.pulse1.length == apu.pulse1.length.committed()
            &&& t.pulse1.sweep == apu.pulse1.sweep
        }),
        apu.frame_counter.event().quarter && apu.frame_counter.event().half ==> ({
            let t = apu.ticked();
            &&& t.pulse1.envelope == apu.pulse1.envelope.clocked()
            &&& t.pulse2.envelope == apu.pulse2.envelope.clocked()
            &&& t.noise.envelope == apu.noise.envelope.clocked()
            &&& t.triangle.linear_counter == apu.triangle.clocked_quarter().linear_counter
            &&& t.pulse1.length == apu.pulse1.length.clocked().committed()
            &&& t.pulse2.length == apu.pulse2.length.clocked().committed()
            &&& t.triangle.length == apu.triangle.length.clocked().committed()
            &&& t.noise.length == apu.noise.length.clocked().committed()
            &&& t.pulse1.period == apu.pulse1.clocked_half().period
            &&& t.pulse2.period == apu.pulse2.clocked_half().period
            &&& t.pulse1.sweep == apu.pulse1.clocked_half().sweep
            &&& t.pulse2.sweep == apu.pulse2.clocked_half().sweep
        }),
{
    reveal(Apu::ticked);
}

/// A sample byte goes to the delta modulation channel, whose interrupt it may raise; a pending request
/// is handed out with its address and is then gone.
pub proof fn lemma_sample_handover(apu: Apu, byte: u8)
    ensures
        apu.fetched(byte).dmc == apu.dmc.filled(byte),
        apu.fetched(byte).dmc_irq == (apu.dmc_irq || (apu.dmc.bytes_remaining == 1 && !apu.dmc.loop_flag
            && apu.dmc.irq_enabled)),
        apu.fetched(byte).frame_irq == apu.frame_irq,
        apu.dmc.request <==> apu.request() is Some,
        apu.dmc.request ==> apu.request()->Some_0.addr == apu.dmc.current_addr,
        apu.request_taken().request() is None,
        apu.request_taken().dmc.bytes_remaining == apu.dmc.bytes_remaining,
{
}

/// A warm reset disables every channel without emptying it, restarts the frame sequence 3 or 4 cycles
/// later, and leaves periods, volumes and the sample's place and buffer alone.
pub proof fn lemma_warm_reset_restarts(apu: Apu)
    ensures
        ({
            let t = apu.warm_reset();
            &&& !t.pulse1.length.enabled && !t.pulse2.length.enabled && !t.triangle.length.enabled
            &&& !t.noise.length.enabled
            &&& t.frame_counter.restart_delay == (if apu.cycle % 2 == 1 { 4int } else { 3 })
            &&& t.frame_counter.divider == apu.frame_counter.divider
            &&& t.cycle == apu.cycle && t.region == apu.region
            &&& t.pulse1.period == apu.pulse1.period && t.pulse2.period == apu.pulse2.period
            &&& t.pulse1.envelope == apu.pulse1.envelope && t.pulse2.envelope == apu.pulse2.envelope
            &&& t.triangle.sequencer_pos == apu.triangle.sequencer_pos && t.noise.shift == apu.noise.shift
            &&& t.dmc.buffer == apu.dmc.buffer && t.dmc.sample_addr == apu.dmc.sample_addr
            &&& t.dmc.sample_len == apu.dmc.sample_len
        }),
{
}

/// At power-on every channel is silent and disabled, no interrupt is up, and the four-step sequence
/// starts.
pub proof fn lemma_apu_power_on(region: Region)
    ensures
        ({
            let apu = Apu::power_on(region);
            &&& apu.region == region
            &&& apu.cycle == 0
            &&& !apu.frame_irq && !apu.dmc_irq
            &&& !apu.frame_counter.five_step && !apu.frame_counter.irq_inhibit && apu.frame_counter.divider == 0
            &&& apu.frame_counter.region == region && apu.noise.region == region && apu.dmc.region == region
            &&& apu.pulse1.level() == 0 && apu.pulse2.level() == 0 && apu.noise.level() == 0
            &&& apu.triangle.level() == 8 && apu.dmc.output_level == 0
            &&& !apu.pulse1.length.enabled && !apu.pulse2.length.enabled && !apu.triangle.length.enabled
            &&& !apu.noise.length.enabled
            &&& apu.dmc.sample_addr == 0xC000 && apu.dmc.sample_len == 1 && apu.dmc.bytes_remaining == 0
            &&& apu.dmc.silence && apu.dmc.bits_remaining == 8
        }),
{
}

} // verus!
