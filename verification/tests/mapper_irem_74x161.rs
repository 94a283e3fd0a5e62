use nes::mapper::Mapper;
use nes::mapper::irem_74x161::Irem74x161;
use nes::rom::{Cartridge, Mirroring, TvSystem};

const PRG_BANK_16K: usize = 0x4000;
const CHR_BANK_8K: usize = 0x2000;

fn cart(submapper: u8) -> Cartridge {
    let mut prg = vec![0xFFu8; 8 * PRG_BANK_16K];
    for bank in 0..8 {
        prg[bank * PRG_BANK_16K] = bank as u8;
    }
    let mut chr = vec![0xFFu8; 16 * CHR_BANK_8K];
    for bank in 0..16 {
        chr[bank * CHR_BANK_8K] = bank as u8;
    }
    Cartridge {
        prg_rom: prg,
        chr_rom: chr,
        chr_ram: false,
        mapper_id: 78,
        submapper,
        mirroring: Mirroring::Horizontal,
        battery_backed: false,
        prg_ram_size: 0,
        prg_nvram_size: 0,
        tv_system: TvSystem::Ntsc,
        is_nes2: true,
        prg_chr_crc32: 0,
        db_matched: false,
        fds_data: None,
    }
}

#[test]
fn power_on_layout_is_bank0_then_last_for_both_submappers() {
    let m = Irem74x161::new(cart(1));
    assert_eq!(m.cpu_peek(0x8000), 0);
    assert_eq!(m.cpu_peek(0xC000), 7);
    let m = Irem74x161::new(cart(3));
    assert_eq!(m.cpu_peek(0x8000), 0);
    assert_eq!(m.cpu_peek(0xC000), 7);
}

#[test]
fn cosmo_carrier_submapper_uses_single_screen_mirroring() {
    let mut m = Irem74x161::new(cart(1));
    assert_eq!(m.mirroring(), Mirroring::SingleScreenLower);
    m.cpu_write(0xFFFF, 0x08);
    assert_eq!(m.mirroring(), Mirroring::SingleScreenUpper);
    m.cpu_write(0xFFFF, 0x00);
    assert_eq!(m.mirroring(), Mirroring::SingleScreenLower);
}

#[test]
fn holy_diver_submapper_uses_horizontal_vertical_mirroring() {
    let mut m = Irem74x161::new(cart(3));
    assert_eq!(m.mirroring(), Mirroring::Horizontal);
    m.cpu_write(0xFFFF, 0x08);
    assert_eq!(m.mirroring(), Mirroring::Vertical);
    m.cpu_write(0xFFFF, 0x00);
    assert_eq!(m.mirroring(), Mirroring::Horizontal);
}

#[test]
fn prg_uses_low_3_bits_chr_uses_high_4_bits() {
    let mut m = Irem74x161::new(cart(3));
    m.cpu_write(0xFFFF, 0xB5);
    assert_eq!(m.cpu_peek(0x8000), 5);
    assert_eq!(m.ppu_read(0x0000), 11);
    assert_eq!(m.cpu_peek(0xC000), 7);
}

#[test]
fn irem_74x161_bus_conflict_ands_value_with_rom_byte() {
    let mut m = Irem74x161::new(cart(3));
    m.cpu_write(0xFFFF, 0x05);
    assert_eq!(m.cpu_peek(0x8000), 5);
    m.cpu_write(0x8000, 0x77);
    assert_eq!(m.cpu_peek(0x8000), 5);
    assert_eq!(m.ppu_read(0x0000), 0);
}

#[test]
fn irem_74x161_writes_below_8000_are_noop() {
    let mut m = Irem74x161::new(cart(1));
    m.cpu_write(0x4020, 0xFF);
    m.cpu_write(0x6000, 0xFF);
    m.cpu_write(0x7FFF, 0xFF);
    assert_eq!(m.cpu_peek(0x8000), 0);
}

#[test]
fn irem_74x161_save_state_rejects_cross_submapper_restore() {
    let cosmo = Irem74x161::new(cart(1));
    let snap = cosmo.save_state_capture().unwrap();
    let mut holy = Irem74x161::new(cart(3));
    match holy.save_state_apply(&snap) {
        Err(nes::save_state::SaveStateError::UnsupportedMapper(_)) => {}
        other => panic!("expected UnsupportedMapper, got {other:?}"),
    }
}
