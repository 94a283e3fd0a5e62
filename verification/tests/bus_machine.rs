use nes::audio::AudioSink;
use nes::bus::Bus;
use nes::clock::Region;
use nes::mapper::nrom::Nrom;
use nes::mapper::{build, Board, Built};
use nes::ppu::HeadlessPpu;
use nes::rom::{Cartridge, Mirroring, TvSystem};

fn cart(mapper_id: u16) -> Cartridge {
    let mut prg_rom = vec![0xEAu8; 0x8000];
    prg_rom[0x4000] = 0x55;
    prg_rom[0x7FFC] = 0x34;
    Cartridge {
        prg_rom,
        chr_rom: vec![0u8; 0x2000],
        chr_ram: false,
        mapper_id,
        submapper: 0,
        mirroring: Mirroring::Horizontal,
        battery_backed: false,
        prg_ram_size: 0x2000,
        prg_nvram_size: 0,
        tv_system: TvSystem::Ntsc,
        is_nes2: false,
        prg_chr_crc32: 0,
        db_matched: false,
        fds_data: None,
    }
}

fn machine() -> Bus<Nrom, HeadlessPpu> {
    Bus::new(Nrom::new(cart(0)), Region::Ntsc, 0)
}

#[test]
fn ram_repeats_every_two_kilobytes() {
    let mut bus = machine();
    bus.write(0x0123, 0x42);
    assert_eq!(bus.read(0x0923), 0x42);
    assert_eq!(bus.read(0x1123), 0x42);
    assert_eq!(bus.read(0x1923), 0x42);
    bus.write(0x1FFF, 0x99);
    assert_eq!(bus.peek(0x07FF), 0x99);
    assert_eq!(bus.read(0x0124), 0);
}

#[test]
fn each_access_takes_one_cycle() {
    let mut bus = machine();
    bus.read(0x8000);
    bus.write(0x0000, 1);
    bus.dummy_read(0x2002);
    assert_eq!(bus.clock.cpu_cycles(), 3);
    assert_eq!(bus.peek(0xFFFC), 0x34);
    assert_eq!(bus.clock.cpu_cycles(), 3);
}

#[test]
fn unmapped_addresses_read_the_last_byte_on_the_bus() {
    let mut bus = machine();
    assert_eq!(bus.read(0xFFFC), 0x34);
    assert_eq!(bus.read(0x4018), 0x34);
    assert_eq!(bus.read(0x5000), 0x34);
    bus.write(0x401F, 0x77);
    assert_eq!(bus.read(0x4000), 0x77);
}

#[test]
fn status_port_leaves_the_bus_alone() {
    let mut bus = machine();
    bus.write(0x4015, 0x01);
    bus.write(0x4003, 0x08);
    bus.write(0x0000, 0x20);
    assert_eq!(bus.read(0x4015), 0x21, "bit 5 is the bus's own");
    assert_eq!(bus.open_bus, 0x20);
    bus.write(0x0000, 0x00);
    assert_eq!(bus.read(0x4015), 0x01);
}

#[test]
fn controller_ports_shift_their_own_pads() {
    let mut bus = machine();
    bus.controllers[0].buttons = 0b0000_0101;
    bus.controllers[1].buttons = 0b0000_0010;
    bus.write(0x4016, 1);
    bus.write(0x4016, 0);
    let first: Vec<u8> = (0..4).map(|_| bus.read(0x4016)).collect();
    let second: Vec<u8> = (0..4).map(|_| bus.read(0x4017)).collect();
    assert_eq!(first, vec![0x41, 0x40, 0x41, 0x40]);
    assert_eq!(second, vec![0x40, 0x41, 0x40, 0x40]);
}

#[test]
fn controller_port_keeps_the_top_bits_of_the_bus() {
    let mut bus = machine();
    bus.write(0x0000, 0xBF);
    assert_eq!(bus.read(0x4016), 0xE0);
}

#[test]
fn sprite_dma_copies_a_page() {
    let mut bus = machine();
    for i in 0..256u16 {
        bus.write(0x0200 + i, (i as u8) ^ 0x5A);
    }
    bus.write(0x2003, 0x10);
    bus.write(0x4014, 0x02);
    for i in 0..256usize {
        assert_eq!(bus.ppu.oam[(i + 0x10) % 256], (i as u8) ^ 0x5A);
    }
    assert_eq!(bus.ppu.oam_addr, 0x10);
    assert!(!bus.sprite_dma_running);
    assert_eq!(bus.peek(0x0213), 0x13 ^ 0x5A, "memory is as it was");
}

fn sample_fetch_cycles(settle: usize) -> u64 {
    let mut bus = machine();
    bus.write(0x4012, 0x00);
    bus.write(0x4013, 0x00);
    for _ in 0..settle {
        bus.read(0x0000);
    }
    bus.write(0x4015, 0x10);
    let mut extra = 0;
    for _ in 0..8 {
        let before = bus.clock.cpu_cycles();
        bus.read(0x0000);
        extra += bus.clock.cpu_cycles() - before - 1;
    }
    assert_eq!(bus.apu.dmc.buffer, Some(0x55));
    assert_eq!(bus.apu.dmc.bytes_remaining(), 0);
    extra
}

#[test]
fn sample_dma_takes_three_or_four_cycles() {
    for settle in 0..6 {
        let extra = sample_fetch_cycles(settle);
        assert!(extra == 3 || extra == 4, "{} cycles", extra);
    }
}

#[test]
fn frame_interrupt_reaches_the_line_and_the_poll_one_cycle_later() {
    let mut bus = machine();
    while !bus.irq_line {
        assert!(!bus.prev_irq_line);
        bus.read(0x0000);
    }
    assert_eq!(bus.clock.cpu_cycles(), 29828);
    assert!(!bus.prev_irq_line);
    bus.read(0x0000);
    assert!(bus.prev_irq_line);
}

#[test]
fn sink_gathers_one_entry_per_cycle() {
    let mut bus = machine();
    bus.audio_sink = Some(AudioSink::new());
    bus.read(0x0000);
    bus.write(0x4011, 0x10);
    bus.read(0x0000);
    let levels = bus.audio_sink.as_mut().unwrap().drain();
    let tnd: Vec<u8> = levels.iter().map(|l| l.tnd).collect();
    assert_eq!(tnd, vec![24, 40, 40]);
}

#[test]
fn bus_snapshot_brings_memory_and_clock_back() {
    let mut bus = machine();
    bus.controllers[0].buttons = 0x81;
    for i in 0..100u16 {
        bus.write(i, i as u8);
    }
    bus.write(0x4016, 1);
    let snap = bus.save_state_capture();
    let clock = bus.clock;
    let pads = bus.controllers;
    for i in 0..200u16 {
        bus.write(i, 0xFF);
    }
    bus.save_state_apply(snap);
    assert_eq!(bus.clock, clock);
    assert_eq!(bus.controllers, pads);
    assert_eq!(bus.open_bus, 1);
    assert_eq!(bus.peek(99), 99);
    assert_eq!(bus.peek(100), 0);
}

#[test]
fn a_built_board_runs_on_the_bus() {
    let board: Board = match build(cart(4), None) {
        Ok(Built::Here(board)) => board,
        _ => panic!("no board"),
    };
    let mut bus: Bus<Board, HeadlessPpu> = Bus::new(board, Region::Pal, 4);
    assert_eq!(bus.region(), Region::Pal);
    assert_eq!(bus.mapper_id(), 4);
    assert_eq!(bus.read(0xFFFC), 0x34);
    bus.write(0x6000, 0x21);
    assert_eq!(bus.read(0x6000), 0x21);
}
