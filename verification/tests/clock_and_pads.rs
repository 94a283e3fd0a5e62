use nes::bus::controller::Controller;
use nes::clock::{MasterClock, Region};
use nes::rom::TvSystem;
use nes::save_state::RegionTag;

#[test]
fn dividers_and_frame_sizes() {
    assert_eq!(Region::Ntsc.master_per_cpu(), 12);
    assert_eq!(Region::Ntsc.master_per_ppu(), 4);
    assert_eq!(Region::Pal.master_per_cpu(), 16);
    assert_eq!(Region::Pal.master_per_ppu(), 5);
    assert_eq!(Region::Ntsc.scanlines_per_frame(), 262);
    assert_eq!(Region::Pal.scanlines_per_frame(), 312);
    assert_eq!(Region::Ntsc.pre_render_scanline(), 261);
    assert_eq!(Region::Pal.pre_render_scanline(), 311);
    assert_eq!(Region::from_tv_system(TvSystem::Ntsc), Region::Ntsc);
    assert_eq!(Region::from_tv_system(TvSystem::Pal), Region::Pal);
}

#[test]
fn a_fresh_clock_is_primed_with_one_cycle() {
    let clock = MasterClock::new(Region::Ntsc);
    assert_eq!(clock.master_cycles(), 12);
    assert_eq!(clock.cpu_cycles(), 0);
    assert_eq!(clock.ppu_cycles(), 0);
    assert_eq!(MasterClock::new(Region::Pal).master_cycles(), 16);
}

#[test]
fn read_and_write_phases_split_a_cycle() {
    let clock = MasterClock::new(Region::Ntsc);
    assert_eq!((clock.start_clock_count(true), clock.end_clock_count(true)), (5, 7));
    assert_eq!((clock.start_clock_count(false), clock.end_clock_count(false)), (7, 5));
    let pal = MasterClock::new(Region::Pal);
    assert_eq!((pal.start_clock_count(true), pal.end_clock_count(true)), (7, 9));
    assert_eq!((pal.start_clock_count(false), pal.end_clock_count(false)), (9, 7));
}

#[test]
fn ntsc_runs_three_dots_per_cycle_whatever_the_access() {
    let mut clock = MasterClock::new(Region::Ntsc);
    let first = clock.start_cpu_cycle(true) + clock.end_cpu_cycle(true);
    assert_eq!(first, 5, "the primed cycle's dots come with the first");
    for i in 0..1000 {
        let is_read = i % 3 == 0;
        assert_eq!(clock.start_cpu_cycle(is_read) + clock.end_cpu_cycle(is_read), 3);
    }
    assert_eq!(clock.cpu_cycles(), 1001);
    assert_eq!(clock.ppu_cycles(), 3005);
    assert_eq!(clock.master_cycles(), 12 * 1002);
}

#[test]
fn pal_runs_sixteen_dots_in_five_cycles() {
    let mut clock = MasterClock::new(Region::Pal);
    clock.start_cpu_cycle(true);
    clock.end_cpu_cycle(true);
    let before = clock.ppu_cycles();
    for _ in 0..5 {
        clock.start_cpu_cycle(false);
        clock.end_cpu_cycle(false);
    }
    assert_eq!(clock.ppu_cycles() - before, 16);
}

#[test]
fn clock_snapshot_brings_the_counters_back() {
    let mut clock = MasterClock::new(Region::Pal);
    clock.advance_master(12345);
    let snap = clock.save_state_capture();
    assert_eq!(snap.region, RegionTag::Pal);
    let mut other = MasterClock::new(Region::Pal);
    other.save_state_apply(snap);
    assert_eq!(other, clock);
    let mut ntsc = MasterClock::new(Region::Ntsc);
    ntsc.save_state_apply(snap);
    assert_eq!(ntsc.region(), Region::Ntsc, "the console keeps its own region");
    assert_eq!(ntsc.master_cycles(), clock.master_cycles());
}

#[test]
fn pad_shifts_buttons_out_and_ones_after_them() {
    let mut pad = Controller::default();
    pad.buttons = 0b1010_0101;
    pad.write_strobe(1);
    pad.write_strobe(0);
    let bits: Vec<u8> = (0..10).map(|_| pad.read()).collect();
    assert_eq!(bits, vec![1, 0, 1, 0, 0, 1, 0, 1, 1, 1]);
}

#[test]
fn pad_repeats_the_first_button_while_strobed() {
    let mut pad = Controller::default();
    pad.buttons = 0x01;
    pad.write_strobe(1);
    assert_eq!((pad.read(), pad.read(), pad.read()), (1, 1, 1));
    pad.buttons = 0x02;
    pad.write_strobe(0);
    assert_eq!(pad.read(), 1, "the latch keeps what was strobed");
}

#[test]
fn pad_snapshot_keeps_the_shifter() {
    let mut pad = Controller::default();
    pad.buttons = 0x3C;
    pad.write_strobe(1);
    pad.write_strobe(0);
    pad.read();
    let mut other = Controller::default();
    other.save_state_apply(pad.save_state_capture());
    assert_eq!(other, pad);
    assert_eq!(other.shifter, 0x9E);
}
