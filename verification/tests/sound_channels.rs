use nes::apu::dmc::Dmc;
use nes::apu::envelope::Envelope;
use nes::apu::frame_counter::FrameCounter;
use nes::apu::length::LengthCounter;
use nes::apu::noise::Noise;
use nes::apu::pulse::Pulse;
use nes::apu::sweep::Sweep;
use nes::apu::triangle::Triangle;
use nes::apu::{Apu, DmcDmaRequest, MixLevels};
use nes::audio::AudioSink;
use nes::clock::Region;

#[test]
fn envelope_decays_from_fifteen_and_loops() {
    let mut env = Envelope::default();
    env.write_ctrl(0x20);
    env.restart();
    env.clock_quarter_frame();
    let mut heard = vec![env.volume()];
    for _ in 0..16 {
        env.clock_quarter_frame();
        heard.push(env.volume());
    }
    assert_eq!(heard, vec![15, 14, 13, 12, 11, 10, 9, 8, 7, 6, 5, 4, 3, 2, 1, 0, 15]);
}

#[test]
fn envelope_without_loop_rests_at_zero() {
    let mut env = Envelope::default();
    env.write_ctrl(0x02);
    env.restart();
    for _ in 0..100 {
        env.clock_quarter_frame();
    }
    assert_eq!(env.volume(), 0);
}

#[test]
fn envelope_divider_stretches_each_step() {
    let mut env = Envelope::default();
    env.write_ctrl(0x02);
    env.restart();
    env.clock_quarter_frame();
    let mut heard = Vec::new();
    for _ in 0..6 {
        env.clock_quarter_frame();
        heard.push(env.volume());
    }
    assert_eq!(heard, vec![15, 15, 14, 14, 14, 13]);
}

#[test]
fn envelope_constant_volume_and_snapshot() {
    let mut env = Envelope::default();
    env.write_ctrl(0x1A);
    assert_eq!(env.volume(), 10);
    env.restart();
    env.clock_quarter_frame();
    let mut other = Envelope::default();
    other.save_state_apply(env.save_state_capture());
    assert_eq!(other, env);
    assert_eq!(other.decay, 15);
}

#[test]
fn sweep_targets_of_the_two_pulses_differ_by_one() {
    let mut first = Sweep::new(true);
    let mut second = Sweep::new(false);
    first.write(0x8A);
    second.write(0x8A);
    first.update_target(0x100);
    second.update_target(0x100);
    assert_eq!(first.target_period, 0x100 - 0x40 - 1);
    assert_eq!(second.target_period, 0x100 - 0x40);
    second.write(0x81);
    second.update_target(0x100);
    assert_eq!(second.target_period, 0x180);
}

#[test]
fn sweep_target_stops_at_zero() {
    let mut sweep = Sweep::new(true);
    sweep.write(0x88);
    sweep.update_target(0x20);
    assert_eq!(sweep.target_period, 0);
}

#[test]
fn sweep_mutes_short_periods_and_long_targets() {
    let mut sweep = Sweep::new(false);
    sweep.write(0x00);
    sweep.update_target(7);
    assert!(sweep.muted(7));
    sweep.update_target(8);
    assert!(!sweep.muted(8));
    sweep.update_target(0x400);
    assert!(sweep.muted(0x400), "muted even while disabled");
    sweep.update_target(0x3FF);
    assert!(!sweep.muted(0x3FF));
}

#[test]
fn sweep_adjusts_when_its_divider_runs_out() {
    let mut sweep = Sweep::new(false);
    sweep.write(0x91);
    sweep.update_target(0x100);
    assert_eq!(sweep.clock_half_frame(0x100), Some(0x180));
    assert_eq!(sweep.clock_half_frame(0x100), None);
    assert_eq!(sweep.clock_half_frame(0x100), Some(0x180));
    sweep.write(0x90);
    assert_eq!(sweep.clock_half_frame(0x100), None, "a shift of zero never adjusts");
}

#[test]
fn length_counter_loads_counts_and_halts() {
    let mut length = LengthCounter::new();
    length.stage_reload(1);
    length.commit_pending();
    assert!(!length.is_nonzero(), "a disabled channel ignores the load");
    length.set_enabled(true);
    length.stage_reload(3);
    length.commit_pending();
    assert_eq!(length.counter, 2);
    length.clock_half_frame();
    assert_eq!(length.counter, 1);
    length.stage_halt(true);
    length.commit_pending();
    length.clock_half_frame();
    assert_eq!(length.counter, 1);
    length.clear_enable_latch_only();
    assert!(length.is_nonzero());
    length.set_enabled(false);
    assert!(!length.is_nonzero());
}

#[test]
fn length_reload_against_a_clock() {
    let mut length = LengthCounter::new();
    length.set_enabled(true);
    length.stage_reload(0);
    length.clock_half_frame();
    length.commit_pending();
    assert_eq!(length.counter, 10, "an idle counter takes the load");
    length.stage_reload(1);
    length.clock_half_frame();
    length.commit_pending();
    assert_eq!(length.counter, 9, "a counter that has just counted drops it");
}

#[test]
fn pulse_plays_its_duty_cycle() {
    let mut pulse = Pulse::new_pulse1();
    pulse.set_enabled(true);
    pulse.write_reg(0, 0x9F);
    pulse.write_reg(2, 0x08);
    pulse.write_reg(3, 0x08);
    pulse.commit_length_pending();
    let mut heard = Vec::new();
    for _ in 0..8 {
        heard.push(pulse.output());
        for _ in 0..9 {
            pulse.tick_apu();
        }
    }
    assert_eq!(heard, vec![0, 15, 15, 15, 15, 0, 0, 0]);
}

#[test]
fn pulse_follows_its_sweep() {
    let mut pulse = Pulse::new_pulse2();
    pulse.write_reg(2, 0x00);
    pulse.write_reg(3, 0x01);
    pulse.write_reg(1, 0x81);
    pulse.clock_half_frame();
    assert_eq!(pulse.period, 0x180);
    assert_eq!(pulse.sweep.target_period, 0x240);
}

#[test]
fn triangle_needs_both_counters_to_move() {
    let mut triangle = Triangle::new();
    triangle.set_enabled(true);
    triangle.write_reg(0, 0x05);
    triangle.write_reg(2, 0x02);
    triangle.write_reg(3, 0x00);
    triangle.commit_length_pending();
    for _ in 0..30 {
        triangle.tick_cpu();
    }
    assert_eq!(triangle.output(), 15, "the linear counter has not been loaded");
    triangle.clock_quarter_frame();
    assert_eq!(triangle.linear_counter, 5);
    for _ in 0..3 {
        triangle.tick_cpu();
    }
    assert_eq!(triangle.output(), 14);
    triangle.set_enabled(false);
    for _ in 0..30 {
        triangle.tick_cpu();
    }
    assert_eq!(triangle.output(), 14, "the wave stands still");
}

#[test]
fn triangle_linear_counter_counts_down_after_its_load() {
    let mut triangle = Triangle::default();
    triangle.write_reg(0, 0x02);
    triangle.write_reg(3, 0x00);
    let mut counts = Vec::new();
    for _ in 0..4 {
        triangle.clock_quarter_frame();
        counts.push(triangle.linear_counter);
    }
    assert_eq!(counts, vec![2, 1, 0, 0]);
    triangle.write_reg(0, 0x83);
    triangle.write_reg(3, 0x00);
    triangle.clock_quarter_frame();
    triangle.clock_quarter_frame();
    assert_eq!(triangle.linear_counter, 3, "the control flag keeps it reloading");
}

#[test]
fn triangle_beyond_hearing_rests_in_the_middle() {
    let mut triangle = Triangle::new();
    triangle.write_reg(2, 0x01);
    assert_eq!(triangle.output(), 8);
    triangle.write_reg(2, 0x02);
    assert_eq!(triangle.output(), 15);
}

#[test]
fn triangle_wave_walks_all_levels() {
    let mut triangle = Triangle::new();
    triangle.set_enabled(true);
    triangle.write_reg(0, 0xFF);
    triangle.write_reg(2, 0x02);
    triangle.write_reg(3, 0x08);
    triangle.commit_length_pending();
    triangle.clock_quarter_frame();
    let mut sum = 0u32;
    for _ in 0..32 {
        sum += u32::from(triangle.output());
        for _ in 0..3 {
            triangle.tick_cpu();
        }
    }
    assert_eq!(sum, 240);
    assert_eq!(triangle.sequencer_pos, 0);
}

#[test]
fn noise_register_feeds_back() {
    let mut noise = Noise::new(Region::Ntsc);
    assert_eq!(noise.shift, 1);
    noise.tick_apu();
    assert_eq!(noise.shift, 0x4000);
    assert_eq!(noise.period, 1);
    noise.write_reg(2, 0x8F);
    assert!(noise.mode);
    assert_eq!(noise.period, 2033);
    let mut pal = Noise::new(Region::Pal);
    pal.write_reg(2, 0x0F);
    assert_eq!(pal.period, 1888);
}

#[test]
fn noise_long_sequence_has_32767_steps() {
    let mut noise = Noise::new(Region::Ntsc);
    noise.period = 0;
    noise.tick_apu();
    let mut steps = 1;
    while noise.shift != 1 {
        noise.tick_apu();
        steps += 1;
    }
    assert_eq!(steps, 32767);
}

#[test]
fn noise_plays_while_the_low_bit_is_clear() {
    let mut noise = Noise::new(Region::Ntsc);
    noise.set_enabled(true);
    noise.write_reg(0, 0x17);
    noise.write_reg(3, 0x08);
    noise.commit_length_pending();
    assert_eq!(noise.output(), 0);
    noise.tick_apu();
    assert_eq!(noise.output(), 7);
}

#[test]
fn frame_counter_four_step_sequence() {
    let mut counter = FrameCounter::new(Region::Ntsc);
    let mut quarters = Vec::new();
    let mut halves = Vec::new();
    let mut irqs = Vec::new();
    for cycle in 1..=29830 {
        let event = counter.tick();
        if event.quarter {
            quarters.push(cycle);
        }
        if event.half {
            halves.push(cycle);
        }
        if event.set_frame_irq {
            irqs.push(cycle);
        }
    }
    assert_eq!(quarters, vec![7457, 14913, 22371, 29829]);
    assert_eq!(halves, vec![14913, 29829]);
    assert_eq!(irqs, vec![29828, 29829, 29830]);
    assert_eq!(counter.divider, 0);
}

#[test]
fn frame_counter_five_step_sequence_has_no_interrupt() {
    let mut counter = FrameCounter::new(Region::Ntsc);
    counter.write_4017(0x80, false);
    let mut quarters = Vec::new();
    for cycle in 1..=(3 + 37282) {
        let event = counter.tick();
        assert!(!event.set_frame_irq);
        if event.quarter {
            quarters.push(cycle - 3);
        }
    }
    assert_eq!(quarters, vec![0, 7457, 14913, 22371, 37281]);
}

#[test]
fn dmc_fetches_plays_and_ends_with_an_interrupt() {
    let mut dmc = Dmc::new(Region::Ntsc);
    dmc.write_reg(0, 0x8F);
    dmc.write_reg(1, 0x40);
    dmc.write_reg(2, 0x01);
    dmc.write_reg(3, 0x00);
    assert_eq!(dmc.period, 53);
    dmc.set_enabled(true, false);
    assert_eq!(dmc.bytes_remaining(), 1);
    assert_eq!(dmc.take_dma_request(), None);
    dmc.tick_cpu();
    assert_eq!(dmc.take_dma_request(), None);
    dmc.tick_cpu();
    assert_eq!(dmc.take_dma_request(), Some(DmcDmaRequest { addr: 0xC040 }));
    assert_eq!(dmc.take_dma_request(), None, "handed over once");
    assert!(dmc.dma_complete(0b0000_0111));
    assert_eq!(dmc.bytes_remaining(), 0);
    for _ in 0..(54 * 16) {
        dmc.tick_cpu();
    }
    assert_eq!(dmc.output(), 0x40 + 3 * 2 - 5 * 2);
}

#[test]
fn dmc_loops_without_an_interrupt() {
    let mut dmc = Dmc::new(Region::Pal);
    dmc.write_reg(0, 0xC0);
    dmc.write_reg(2, 0xFF);
    dmc.write_reg(3, 0x01);
    dmc.set_enabled(true, true);
    assert_eq!(dmc.bytes_remaining(), 17);
    for _ in 0..16 {
        assert!(!dmc.dma_complete(0));
    }
    assert!(!dmc.dma_complete(0));
    assert_eq!(dmc.bytes_remaining(), 17);
    assert_eq!(dmc.current_addr, 0xFFC0);
}

#[test]
fn dmc_address_wraps_to_8000() {
    let mut dmc = Dmc::new(Region::Ntsc);
    dmc.write_reg(2, 0xFF);
    dmc.write_reg(3, 0x10);
    dmc.set_enabled(true, false);
    for _ in 0..64 {
        dmc.dma_complete(0);
    }
    assert_eq!(dmc.current_addr, 0x8000);
}

#[test]
fn dmc_level_stops_at_both_ends() {
    let mut dmc = Dmc::new(Region::Ntsc);
    dmc.silence = false;
    dmc.period = 0;
    dmc.shift = 0xFF;
    dmc.output_level = 126;
    dmc.tick_cpu();
    assert_eq!(dmc.output(), 126);
    dmc.shift = 0;
    dmc.output_level = 1;
    dmc.tick_cpu();
    assert_eq!(dmc.output(), 1);
}

#[test]
fn dmc_trace_shows_the_channel() {
    let mut apu = Apu::new(Region::Ntsc);
    apu.write_reg(0x4011, 0xFF);
    apu.write_reg(0x4013, 0x02);
    apu.write_reg(0x4015, 0x10);
    let trace = apu.dmc_trace();
    assert_eq!(trace.output_level, 0x7F);
    assert_eq!(trace.bytes_remaining, 33);
    assert_eq!(trace.bits_remaining, 8);
    assert!(!trace.buffer_full);
    assert!(!trace.request);
}

#[test]
fn silent_mixer_levels_and_full_ones() {
    let mut apu = Apu::new(Region::Ntsc);
    assert_eq!(apu.mix_levels(), MixLevels { pulse: 0, tnd: 24 });
    apu.write_reg(0x4011, 0x7F);
    assert_eq!(apu.mix_levels().tnd, 24 + 127);
    apu.write_reg(0x400A, 0x02);
    assert_eq!(apu.mix_levels().tnd, 45 + 127);
}

#[test]
fn status_shows_running_lengths() {
    let mut apu = Apu::new(Region::Ntsc);
    apu.write_reg(0x4015, 0x0F);
    apu.write_reg(0x4003, 0x08);
    apu.write_reg(0x400B, 0x08);
    apu.tick_cpu_cycle();
    assert_eq!(apu.read_status(), 0x05);
    apu.write_reg(0x4007, 0x08);
    apu.write_reg(0x400F, 0x08);
    apu.tick_cpu_cycle();
    assert_eq!(apu.read_status(), 0x0F);
    apu.write_reg(0x4015, 0x02);
    assert_eq!(apu.read_status(), 0x02);
}

#[test]
fn frame_interrupt_raises_the_line_until_inhibited() {
    let mut apu = Apu::new(Region::Ntsc);
    for _ in 0..29827 {
        apu.tick_cpu_cycle();
    }
    assert!(!apu.irq_line());
    apu.tick_cpu_cycle();
    assert!(apu.irq_line());
    apu.write_reg(0x4017, 0x40);
    assert!(!apu.irq_line());
}

#[test]
fn warm_reset_keeps_lengths_and_drops_interrupts() {
    let mut apu = Apu::new(Region::Pal);
    apu.write_reg(0x4015, 0x1F);
    apu.write_reg(0x4003, 0x08);
    apu.write_reg(0x4011, 0x33);
    apu.tick_cpu_cycle();
    apu.frame_irq = true;
    apu.dmc_irq = true;
    apu.reset();
    assert_eq!(apu.region(), Region::Pal);
    assert!(!apu.irq_line());
    assert_eq!(apu.pulse1.length.counter, 254);
    assert!(!apu.pulse1.length.enabled);
    assert_eq!(apu.dmc.output(), 0x33);
    assert_eq!(apu.read_status(), 0x01);
}

#[test]
fn sink_hands_out_what_it_gathered_once() {
    let mut sink = AudioSink::new();
    sink.on_cpu_cycle(MixLevels { pulse: 1, tnd: 2 });
    sink.on_cpu_cycle(MixLevels { pulse: 3, tnd: 4 });
    assert_eq!(sink.drain(), vec![MixLevels { pulse: 1, tnd: 2 }, MixLevels { pulse: 3, tnd: 4 }]);
    assert!(sink.drain().is_empty());
}
