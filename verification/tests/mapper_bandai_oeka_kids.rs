use nes::mapper::{Mapper, PpuFetchKind};
use nes::mapper::bandai_oeka_kids::BandaiOekaKids;
use nes::rom::{Cartridge, Mirroring, TvSystem};

const PRG_BANK_32K: usize = 0x8000;
const CHR_PAGE_4K: usize = 0x1000;

fn cart() -> Cartridge {
    let mut prg = vec![0xFFu8; 4 * PRG_BANK_32K];
    for b in 0..4 {
        prg[b * PRG_BANK_32K] = 0xA0 + b as u8;
    }
    Cartridge {
        prg_rom: prg,
        chr_rom: vec![],
        chr_ram: true,
        mapper_id: 96,
        submapper: 0,
        mirroring: Mirroring::SingleScreenLower,
        battery_backed: false,
        prg_ram_size: 0,
        prg_nvram_size: 0,
        tv_system: TvSystem::Ntsc,
        is_nes2: false,
        prg_chr_crc32: 0,
        db_matched: false,
        fds_data: None,
    }
}

fn m() -> BandaiOekaKids {
    BandaiOekaKids::new(cart())
}

#[test]
fn power_on_state_is_bank_zero() {
    let m = m();
    assert_eq!(m.reg, 0);
    assert_eq!(m.inner_chr, 0);
    assert_eq!(m.cpu_peek(0x8000), 0xA0);
}

#[test]
fn prg_write_with_full_rom_byte_passes_value_through() {
    let mut m = m();
    m.cpu_write(0x8001, 0x03);
    assert_eq!(m.reg, 0x03);
    assert_eq!(m.cpu_peek(0x8000), 0xA3);
}

#[test]
fn prg_write_at_tag_byte_masks_through_bus_conflict() {
    let mut m = m();
    m.cpu_write(0x8000, 0x07);
    assert_eq!(m.reg, 0x00);
}

#[test]
fn outer_chr_bit_picks_high_or_low_chr_ram_half() {
    let mut m = m();
    m.cpu_write(0x8001, 0x00);
    assert_eq!(m.outer_chr(), 0);
    m.cpu_write(0x8001, 0x04);
    assert_eq!(m.outer_chr(), 1);
}

#[test]
fn fixed_window_pins_to_page_three_within_outer_set() {
    let mut m = m();
    for i in 0..16 {
        m.chr_ram[3 * CHR_PAGE_4K + i] = 0xC0 + i as u8;
    }
    m.cpu_write(0x8001, 0x00);
    for i in 0..16 {
        assert_eq!(m.ppu_read(0x1000 + i), 0xC0 + i as u8);
    }
}

#[test]
fn nametable_tile_fetch_updates_inner_chr_latch() {
    let mut m = m();
    m.on_ppu_addr(0x2100, 0, PpuFetchKind::BgNametable);
    assert_eq!(m.inner_chr, 1);
    m.on_ppu_addr(0x2200, 0, PpuFetchKind::BgNametable);
    assert_eq!(m.inner_chr, 2);
    m.on_ppu_addr(0x2300, 0, PpuFetchKind::BgNametable);
    assert_eq!(m.inner_chr, 3);
}

#[test]
fn attribute_byte_fetch_does_not_update_inner_chr_latch() {
    let mut m = m();
    m.on_ppu_addr(0x2200, 0, PpuFetchKind::BgNametable);
    assert_eq!(m.inner_chr, 2);
    m.on_ppu_addr(0x23C0, 0, PpuFetchKind::BgAttribute);
    assert_eq!(m.inner_chr, 2);
    m.on_ppu_addr(0x23FF, 0, PpuFetchKind::BgAttribute);
    assert_eq!(m.inner_chr, 2);
}

#[test]
fn pattern_table_fetch_does_not_update_inner_chr_latch() {
    let mut m = m();
    m.on_ppu_addr(0x2100, 0, PpuFetchKind::BgNametable);
    assert_eq!(m.inner_chr, 1);
    m.on_ppu_addr(0x0123, 0, PpuFetchKind::BgPattern);
    m.on_ppu_addr(0x1FFF, 0, PpuFetchKind::SpritePattern);
    assert_eq!(m.inner_chr, 1);
}

#[test]
fn switchable_window_follows_inner_chr_latch() {
    let mut m = m();
    for p in 0..8 {
        m.chr_ram[p * CHR_PAGE_4K] = 0x80 + p as u8;
    }
    m.cpu_write(0x8001, 0x00);
    m.on_ppu_addr(0x2200, 0, PpuFetchKind::BgNametable);
    assert_eq!(m.ppu_read(0x0000), 0x82);
    m.on_ppu_addr(0x2000, 0, PpuFetchKind::BgNametable);
    assert_eq!(m.ppu_read(0x0000), 0x80);

    m.cpu_write(0x8001, 0x04);
    m.on_ppu_addr(0x2000, 0, PpuFetchKind::BgNametable);
    assert_eq!(m.ppu_read(0x0000), 0x84);
}

#[test]
fn save_state_round_trip_preserves_chr_ram_and_latches() {
    let mut a = m();
    a.cpu_write(0x8001, 0x07);
    a.on_ppu_addr(0x2300, 0, PpuFetchKind::BgNametable);
    a.ppu_write(0x0123, 0x42);
    let snap = a.save_state_capture().unwrap();

    let mut b = m();
    b.save_state_apply(&snap).unwrap();
    assert_eq!(b.reg, a.reg);
    assert_eq!(b.inner_chr, a.inner_chr);
    b.on_ppu_addr(0x2300, 0, PpuFetchKind::BgNametable);
    assert_eq!(b.ppu_read(0x0123), 0x42);
}
