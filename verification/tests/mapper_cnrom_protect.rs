use nes::mapper::Mapper;
use nes::mapper::cnrom_protect::CnromProtect;
use nes::rom::{Cartridge, Mirroring, TvSystem};

fn cart(submapper: u8) -> Cartridge {
    let mut prg = vec![0xFFu8; 32 * 1024];
    prg[0] = 0xCC;
    let chr = vec![0xAAu8; 8 * 1024];
    Cartridge {
        prg_rom: prg,
        chr_rom: chr,
        chr_ram: false,
        mapper_id: 185,
        submapper,
        mirroring: Mirroring::Vertical,
        battery_backed: false,
        prg_ram_size: 0,
        prg_nvram_size: 0,
        tv_system: TvSystem::Ntsc,
        is_nes2: true,
        prg_chr_crc32: 0,
        db_matched: false,
        fds_data: None,
    }
}

#[test]
fn boot_state_locks_chr() {
    let mut m = CnromProtect::new(cart(0));
    assert_eq!(m.ppu_read(0x0000), 0xFF);
    assert_eq!(m.ppu_read(0x1FFF), 0xFF);
}

#[test]
fn submapper_0_heuristic_unlocks_on_nonzero_low_nibble() {
    let mut m = CnromProtect::new(cart(0));
    m.cpu_write(0x8001, 0x01);
    assert_eq!(m.ppu_read(0x0000), 0xAA);
    m.cpu_write(0x8001, 0x13);
    assert_eq!(m.ppu_read(0x0000), 0xFF);
    m.cpu_write(0x8001, 0xF0);
    assert_eq!(m.ppu_read(0x0000), 0xFF);
    m.cpu_write(0x8001, 0x21);
    assert_eq!(m.ppu_read(0x0000), 0xAA);
}

#[test]
fn submapper_4_unlocks_on_low_two_bits_zero() {
    let mut m = CnromProtect::new(cart(4));
    m.cpu_write(0x8001, 0x01);
    assert_eq!(m.ppu_read(0x0000), 0xFF);
    m.cpu_write(0x8001, 0x04);
    assert_eq!(m.ppu_read(0x0000), 0xAA);
}

#[test]
fn submappers_5_6_7_match_their_keys() {
    for (sub, key) in [(5u8, 1u8), (6, 2), (7, 3)] {
        let mut m = CnromProtect::new(cart(sub));
        m.cpu_write(0x8001, key);
        assert_eq!(m.ppu_read(0x0000), 0xAA, "sub {sub} key {key}");
        m.cpu_write(0x8001, (key + 1) & 0x03);
        assert_eq!(m.ppu_read(0x0000), 0xFF, "sub {sub} non-key");
    }
}

#[test]
fn bus_conflict_ands_value_with_prg_byte() {
    let mut m = CnromProtect::new(cart(4));
    m.cpu_write(0x8000, 0x01);
    assert_eq!(m.ppu_read(0x0000), 0xAA);
}

#[test]
fn ppu_writes_are_ignored() {
    let mut m = CnromProtect::new(cart(0));
    m.cpu_write(0x8001, 0x01);
    let before = m.ppu_read(0x0000);
    m.ppu_write(0x0000, 0x55);
    assert_eq!(m.ppu_read(0x0000), before);
}

#[test]
fn cnrom_protect_save_state_round_trip() {
    let mut m = CnromProtect::new(cart(5));
    m.cpu_write(0x8001, 0x01);
    let snap = m.save_state_capture().unwrap();
    let mut fresh = CnromProtect::new(cart(5));
    fresh.save_state_apply(&snap).unwrap();
    assert_eq!(fresh.ppu_read(0x0000), 0xAA);
}

#[test]
fn save_state_rejects_cross_submapper() {
    let m = CnromProtect::new(cart(4));
    let snap = m.save_state_capture().unwrap();
    let mut other = CnromProtect::new(cart(5));
    match other.save_state_apply(&snap) {
        Err(nes::save_state::SaveStateError::UnsupportedMapper(_)) => {}
        other => panic!("expected UnsupportedMapper, got {other:?}"),
    }
}
