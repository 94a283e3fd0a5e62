use nes::mapper::Mapper;
use nes::mapper::bandai_74161::Bandai74161;
use nes::rom::{Cartridge, Mirroring, TvSystem};

const PRG_BANK_16K: usize = 0x4000;
const CHR_BANK_8K: usize = 0x2000;

fn cart(prg_banks: usize, chr_banks: usize, mirroring: Mirroring) -> Cartridge {
    assert!(prg_banks.is_power_of_two());
    let mut prg = vec![0xFFu8; prg_banks * PRG_BANK_16K];
    for bank in 0..prg_banks {
        prg[bank * PRG_BANK_16K] = bank as u8;
    }
    let mut chr = vec![0xFFu8; chr_banks * CHR_BANK_8K];
    for bank in 0..chr_banks {
        chr[bank * CHR_BANK_8K] = bank as u8;
    }
    Cartridge {
        prg_rom: prg,
        chr_rom: chr,
        chr_ram: false,
        mapper_id: 70,
        submapper: 0,
        mirroring,
        battery_backed: false,
        prg_ram_size: 0,
        prg_nvram_size: 0,
        tv_system: TvSystem::Ntsc,
        is_nes2: true,
        prg_chr_crc32: 0,
        db_matched: false,
        fds_data: None,
    }
}

#[test]
fn power_on_layout_has_bank0_at_8000_and_last_at_c000() {
    let m = Bandai74161::new_70(cart(8, 16, Mirroring::Vertical));
    assert_eq!(m.cpu_peek(0x8000), 0);
    assert_eq!(m.cpu_peek(0xC000), 7);
}

#[test]
fn write_swaps_prg_and_chr_banks() {
    let mut m = Bandai74161::new_70(cart(8, 16, Mirroring::Vertical));
    m.cpu_write(0xFFFF, 0x59);
    assert_eq!(m.cpu_peek(0x8000), 5);
    assert_eq!(m.ppu_read(0x0000), 9);
    assert_eq!(m.cpu_peek(0xC000), 7);
}

#[test]
fn bandai_74161_bus_conflict_ands_value_with_rom_byte() {
    let mut m = Bandai74161::new_70(cart(8, 16, Mirroring::Vertical));
    m.cpu_write(0xFFFF, 0x59);
    assert_eq!(m.cpu_peek(0x8000), 5);
    m.cpu_write(0x8000, 0x77);
    assert_eq!(m.cpu_peek(0x8000), 0);
    assert_eq!(m.ppu_read(0x0000), 5);
}

#[test]
fn mapper_70_keeps_header_mirroring_until_bit7_seen() {
    let mut m = Bandai74161::new_70(cart(8, 16, Mirroring::Horizontal));
    assert_eq!(m.mirroring(), Mirroring::Horizontal);
    m.cpu_write(0xFFFF, 0x10);
    assert_eq!(m.mirroring(), Mirroring::Horizontal);
    m.cpu_write(0xFFFF, 0x80);
    assert_eq!(m.mirroring(), Mirroring::SingleScreenUpper);
    m.cpu_write(0xFFFF, 0x00);
    assert_eq!(m.mirroring(), Mirroring::SingleScreenLower);
    m.cpu_write(0xFFFF, 0x80);
    assert_eq!(m.mirroring(), Mirroring::SingleScreenUpper);
}

#[test]
fn mapper_152_drives_mirroring_from_bit7_immediately() {
    let mut m = Bandai74161::new_152(cart(8, 16, Mirroring::Horizontal));
    assert_eq!(m.mirroring(), Mirroring::SingleScreenLower);
    m.cpu_write(0xFFFF, 0x80);
    assert_eq!(m.mirroring(), Mirroring::SingleScreenUpper);
    m.cpu_write(0xFFFF, 0x00);
    assert_eq!(m.mirroring(), Mirroring::SingleScreenLower);
}

#[test]
fn write_outside_8000_ffff_is_a_noop() {
    let mut m = Bandai74161::new_70(cart(8, 16, Mirroring::Vertical));
    m.cpu_write(0x6000, 0x59);
    m.cpu_write(0x4020, 0x59);
    assert_eq!(m.cpu_peek(0x8000), 0);
}

#[test]
fn chr_ram_round_trips_on_carts_without_chr_rom() {
    let mut c = cart(8, 1, Mirroring::Vertical);
    c.chr_rom = Vec::new();
    c.chr_ram = true;
    let mut m = Bandai74161::new_70(c);
    m.ppu_write(0x0010, 0x99);
    assert_eq!(m.ppu_read(0x0010), 0x99);
}
