use nes::mapper::Mapper;
use nes::mapper::bandai_karaoke::BandaiKaraoke;
use nes::rom::{Cartridge, Mirroring, TvSystem};

const PRG_BANK_16K: usize = 0x4000;

fn cart(banks: usize) -> Cartridge {
    let mut prg = vec![0xFFu8; banks * PRG_BANK_16K];
    for bank in 0..banks {
        prg[bank * PRG_BANK_16K] = bank as u8;
    }
    Cartridge {
        prg_rom: prg,
        chr_rom: Vec::new(),
        chr_ram: true,
        mapper_id: 188,
        submapper: 0,
        mirroring: Mirroring::Vertical,
        battery_backed: false,
        prg_ram_size: 0,
        prg_nvram_size: 0,
        tv_system: TvSystem::Ntsc,
        is_nes2: true,
        prg_chr_crc32: 0,
        db_matched: false,
        fds_data: None,
    }
}

#[test]
fn boot_state_sees_internal_last_bank_at_c000() {
    let m = BandaiKaraoke::new(cart(16));
    assert_eq!(m.cpu_peek(0xC000), 7);
    assert_eq!(m.cpu_peek(0x8000), 8);
}

#[test]
fn bit4_picks_internal_vs_expansion_half() {
    let mut m = BandaiKaraoke::new(cart(16));
    m.cpu_write(0x8001, 0b0001_0011);
    assert_eq!(m.cpu_peek(0x8000), 3);
    m.cpu_write(0x8001, 0b0000_0101);
    assert_eq!(m.cpu_peek(0x8000), 13);
}

#[test]
fn bit5_drives_mirroring_dynamically() {
    let mut m = BandaiKaraoke::new(cart(16));
    m.cpu_write(0x8001, 0b0010_0000);
    assert_eq!(m.mirroring(), Mirroring::Horizontal);
    m.cpu_write(0x8001, 0b0000_0000);
    assert_eq!(m.mirroring(), Mirroring::Vertical);
}

#[test]
fn fixed_window_stays_on_internal_bank_7_through_swaps() {
    let mut m = BandaiKaraoke::new(cart(16));
    for v in [0x00u8, 0x10, 0x20, 0x37] {
        m.cpu_write(0x8001, v);
        assert_eq!(m.cpu_peek(0xC000), 7, "value {v:#x}");
    }
}

#[test]
fn cart_without_expansion_returns_open_bus_when_expansion_selected() {
    let mut m = BandaiKaraoke::new(cart(8));
    m.cpu_write(0x8001, 0b0000_0000);
    assert_eq!(m.cpu_peek(0x8000), 0);
    m.cpu_write(0x8001, 0b0001_0001);
    assert_eq!(m.cpu_peek(0x8000), 1);
}

#[test]
fn microphone_reads_return_silent_open_bus_pattern() {
    let m = BandaiKaraoke::new(cart(16));
    assert_eq!(m.cpu_peek(0x6000), 0xF8);
    assert_eq!(m.cpu_peek(0x7FFF), 0xF8);
}

#[test]
fn bandai_karaoke_bus_conflict_masks_value() {
    let mut m = BandaiKaraoke::new(cart(16));
    m.cpu_write(0x8000, 0b0001_0011);
    assert_eq!(m.cpu_peek(0x8000), 8);
}

#[test]
fn save_state_round_trip_preserves_reg_and_chr() {
    let mut m = BandaiKaraoke::new(cart(16));
    m.cpu_write(0x8001, 0b0011_0010);
    m.ppu_write(0x0042, 0xCC);
    let snap = m.save_state_capture().unwrap();
    let mut fresh = BandaiKaraoke::new(cart(16));
    fresh.save_state_apply(&snap).unwrap();
    assert_eq!(fresh.cpu_peek(0x8000), 2);
    assert_eq!(fresh.mirroring(), Mirroring::Horizontal);
    assert_eq!(fresh.ppu_read(0x0042), 0xCC);
}
