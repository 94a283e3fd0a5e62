use nes::mapper::Mapper;
use nes::mapper::sunsoft1::Sunsoft1;
use nes::rom::{Cartridge, Mirroring, TvSystem};

const PRG_BANK_32K: usize = 0x8000;
const CHR_BANK_4K: usize = 0x1000;

fn cart(chr_banks_4k: usize) -> Cartridge {
    let mut prg = vec![0u8; PRG_BANK_32K];
    prg[0] = 0xAA;
    prg[PRG_BANK_32K - 1] = 0xBB;
    let mut chr = vec![0u8; chr_banks_4k * CHR_BANK_4K];
    for bank in 0..chr_banks_4k {
        chr[bank * CHR_BANK_4K] = bank as u8;
    }
    Cartridge {
        prg_rom: prg,
        chr_rom: chr,
        chr_ram: false,
        mapper_id: 184,
        submapper: 0,
        mirroring: Mirroring::Vertical,
        battery_backed: false,
        prg_ram_size: 0,
        prg_nvram_size: 0,
        tv_system: TvSystem::Ntsc,
        is_nes2: true,
        prg_chr_crc32: 0,
        db_matched: false,
        fds_data: None,
    }
}

#[test]
fn prg_is_a_fixed_32k_window() {
    let m = Sunsoft1::new(cart(8));
    assert_eq!(m.cpu_peek(0x8000), 0xAA);
    assert_eq!(m.cpu_peek(0xFFFF), 0xBB);
    let mut m = m;
    m.cpu_write(0x8000, 0x55);
    assert_eq!(m.cpu_peek(0x8000), 0xAA);
}

#[test]
fn chr_low_slot_picks_bank_from_low_3_bits() {
    let mut m = Sunsoft1::new(cart(16));
    m.cpu_write(0x6000, 0b0000_0011);
    assert_eq!(m.ppu_read(0x0000), 3);
    m.cpu_write(0x7FFF, 0b0000_0101);
    assert_eq!(m.ppu_read(0x0000), 5);
}

#[test]
fn chr_high_slot_forces_bit_3_into_bank_index() {
    let mut m = Sunsoft1::new(cart(16));
    m.cpu_write(0x6000, 0b0011_0000);
    assert_eq!(m.ppu_read(0x1000), 3);
    m.cpu_write(0x6000, 0b0101_0000);
    assert_eq!(m.ppu_read(0x1000), 5);
}

#[test]
fn high_slot_bit_3_visible_when_chr_is_large_enough() {
    let mut m = Sunsoft1::new(cart(64));
    m.cpu_write(0x6000, 0);
    assert_eq!(m.ppu_read(0x0000), 0);
    assert_eq!(m.ppu_read(0x1000), 0);
    m.cpu_write(0x6000, 0b0001_0001);
    assert_eq!(m.ppu_read(0x0000), 1);
    assert_eq!(m.ppu_read(0x1000), 1);
}

#[test]
fn write_outside_6000_7fff_is_a_noop() {
    let mut m = Sunsoft1::new(cart(8));
    m.cpu_write(0x4020, 0x77);
    m.cpu_write(0x8000, 0x77);
    m.cpu_write(0xFFFF, 0x77);
    assert_eq!(m.ppu_read(0x0000), 0);
}

#[test]
fn sunsoft1_chr_ram_round_trips_when_cart_has_no_chr_rom() {
    let mut c = cart(0);
    c.chr_rom = Vec::new();
    c.chr_ram = true;
    let mut m = Sunsoft1::new(c);
    m.ppu_write(0x0010, 0x99);
    assert_eq!(m.ppu_read(0x0010), 0x99);
}
