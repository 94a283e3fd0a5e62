use nes::mapper::Mapper;
use nes::mapper::codemasters_bf909x::CodemastersBf909x;
use nes::rom::{Cartridge, Mirroring, TvSystem};

const PRG_BANK_16K: usize = 0x4000;

fn cart(submapper: u8) -> Cartridge {
    let mut prg = vec![0xFFu8; 16 * PRG_BANK_16K];
    for bank in 0..16 {
        prg[bank * PRG_BANK_16K] = bank as u8;
    }
    Cartridge {
        prg_rom: prg,
        chr_rom: Vec::new(),
        chr_ram: true,
        mapper_id: 71,
        submapper,
        mirroring: Mirroring::Vertical,
        battery_backed: false,
        prg_ram_size: 0x2000,
        prg_nvram_size: 0,
        tv_system: TvSystem::Ntsc,
        is_nes2: true,
        prg_chr_crc32: 0,
        db_matched: false,
        fds_data: None,
    }
}

#[test]
fn boot_state_first_at_8000_last_at_c000() {
    let m = CodemastersBf909x::new(cart(0));
    assert_eq!(m.cpu_peek(0x8000), 0);
    assert_eq!(m.cpu_peek(0xC000), 15);
}

#[test]
fn write_anywhere_in_8000_ffff_swaps_low_window_in_default_mode() {
    let mut m = CodemastersBf909x::new(cart(0));
    m.cpu_write(0x8000, 5);
    assert_eq!(m.cpu_peek(0x8000), 5);
    assert_eq!(m.cpu_peek(0xC000), 15);
    m.cpu_write(0xABCD, 7);
    assert_eq!(m.cpu_peek(0x8000), 7);
    m.cpu_write(0xFFFF, 9);
    assert_eq!(m.cpu_peek(0x8000), 9);
}

#[test]
fn submapper_1_8000_bfff_sets_mirroring() {
    let mut m = CodemastersBf909x::new(cart(1));
    m.cpu_write(0x9000, 0x00);
    assert_eq!(m.mirroring(), Mirroring::SingleScreenLower);
    m.cpu_write(0x9000, 0x10);
    assert_eq!(m.mirroring(), Mirroring::SingleScreenUpper);
    assert_eq!(m.cpu_peek(0x8000), 0);
    m.cpu_write(0xC000, 4);
    assert_eq!(m.cpu_peek(0x8000), 4);
}

#[test]
fn fire_hawk_auto_promotes_on_9000_write() {
    let mut m = CodemastersBf909x::new(cart(0));
    assert!(!m.bf9097_mode);
    m.cpu_write(0x9000, 0x10);
    assert!(m.bf9097_mode);
    assert_eq!(m.mirroring(), Mirroring::SingleScreenUpper);
    m.cpu_write(0x8000, 0x00);
    assert_eq!(m.mirroring(), Mirroring::SingleScreenLower);
    m.cpu_write(0xC000, 6);
    assert_eq!(m.cpu_peek(0x8000), 6);
}

#[test]
fn codemasters_bf909x_chr_ram_round_trip() {
    let mut m = CodemastersBf909x::new(cart(0));
    m.ppu_write(0x0123, 0xAB);
    assert_eq!(m.ppu_read(0x0123), 0xAB);
    m.ppu_write(0x1FFF, 0x55);
    assert_eq!(m.ppu_read(0x1FFF), 0x55);
}

#[test]
fn prg_ram_passes_through() {
    let mut m = CodemastersBf909x::new(cart(0));
    m.cpu_write(0x6000, 0x42);
    assert_eq!(m.cpu_peek(0x6000), 0x42);
    m.cpu_write(0x7FFF, 0x99);
    assert_eq!(m.cpu_peek(0x7FFF), 0x99);
}

#[test]
fn save_state_round_trip_preserves_promotion() {
    let mut m = CodemastersBf909x::new(cart(0));
    m.cpu_write(0x9000, 0x10);
    m.cpu_write(0xC000, 5);
    let snap = m.save_state_capture().unwrap();
    let mut fresh = CodemastersBf909x::new(cart(0));
    fresh.save_state_apply(&snap).unwrap();
    assert!(fresh.bf9097_mode);
    assert_eq!(fresh.mirroring(), Mirroring::SingleScreenUpper);
    assert_eq!(fresh.cpu_peek(0x8000), 5);
}
