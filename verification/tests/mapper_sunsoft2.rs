use nes::mapper::Mapper;
use nes::mapper::sunsoft2::Sunsoft2;
use nes::rom::{Cartridge, Mirroring, TvSystem};

const PRG_BANK_16K: usize = 0x4000;
const CHR_BANK_8K: usize = 0x2000;

fn cart() -> Cartridge {
    let mut prg = vec![0xFFu8; 8 * PRG_BANK_16K];
    for bank in 0..8 {
        prg[bank * PRG_BANK_16K] = bank as u8;
    }
    let mut chr = vec![0xFFu8; 16 * CHR_BANK_8K];
    for bank in 0..16 {
        chr[bank * CHR_BANK_8K] = bank as u8;
    }
    Cartridge {
        prg_rom: prg,
        chr_rom: chr,
        chr_ram: false,
        mapper_id: 89,
        submapper: 0,
        mirroring: Mirroring::Vertical,
        battery_backed: false,
        prg_ram_size: 0,
        prg_nvram_size: 0,
        tv_system: TvSystem::Ntsc,
        is_nes2: true,
        prg_chr_crc32: 0,
        db_matched: false,
        fds_data: None,
    }
}

#[test]
fn power_on_layout_is_bank0_at_8000_and_last_at_c000() {
    let m = Sunsoft2::new(cart());
    assert_eq!(m.cpu_peek(0x8000), 0);
    assert_eq!(m.cpu_peek(0xC000), 7);
    assert_eq!(m.mirroring(), Mirroring::SingleScreenLower);
}

#[test]
fn prg_bank_uses_bits_4_through_6() {
    let mut m = Sunsoft2::new(cart());
    m.cpu_write(0xFFFF, 0b0101_0000);
    assert_eq!(m.cpu_peek(0x8000), 5);
    assert_eq!(m.cpu_peek(0xC000), 7);
    assert_eq!(m.mirroring(), Mirroring::SingleScreenLower);
}

#[test]
fn chr_bank_combines_bit_7_with_low_3_bits() {
    let mut m = Sunsoft2::new(cart());
    m.cpu_write(0xFFFF, 0b0000_0011);
    assert_eq!(m.ppu_read(0x0000), 3);
    m.cpu_write(0xFFFF, 0b1000_0011);
    assert_eq!(m.ppu_read(0x0000), 11);
    m.cpu_write(0xFFFF, 0b1000_0111);
    assert_eq!(m.ppu_read(0x0000), 15);
}

#[test]
fn mirroring_bit_3_picks_single_screen_a_or_b() {
    let mut m = Sunsoft2::new(cart());
    m.cpu_write(0xFFFF, 0x00);
    assert_eq!(m.mirroring(), Mirroring::SingleScreenLower);
    m.cpu_write(0xFFFF, 0x08);
    assert_eq!(m.mirroring(), Mirroring::SingleScreenUpper);
    m.cpu_write(0xFFFF, 0x00);
    assert_eq!(m.mirroring(), Mirroring::SingleScreenLower);
}

#[test]
fn sunsoft2_bus_conflict_ands_value_with_rom_byte() {
    let mut m = Sunsoft2::new(cart());
    m.cpu_write(0xFFFF, 0b0101_0000);
    assert_eq!(m.cpu_peek(0x8000), 5);
    m.cpu_write(0x8000, 0x77);
    assert_eq!(m.cpu_peek(0x8000), 0);
    assert_eq!(m.ppu_read(0x0000), 5);
    assert_eq!(m.mirroring(), Mirroring::SingleScreenLower);
}

#[test]
fn sunsoft2_writes_below_8000_are_noop() {
    let mut m = Sunsoft2::new(cart());
    m.cpu_write(0x4020, 0xFF);
    m.cpu_write(0x6000, 0xFF);
    m.cpu_write(0x7FFF, 0xFF);
    assert_eq!(m.cpu_peek(0x8000), 0);
}

#[test]
fn sunsoft2_chr_ram_round_trips_when_no_chr_rom() {
    let mut c = cart();
    c.chr_rom = Vec::new();
    c.chr_ram = true;
    let mut m = Sunsoft2::new(c);
    m.ppu_write(0x0010, 0x99);
    assert_eq!(m.ppu_read(0x0010), 0x99);
}
