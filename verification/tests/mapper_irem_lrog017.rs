use nes::mapper::Mapper;
use nes::mapper::irem_lrog017::IremLrog017;
use nes::rom::{Cartridge, Mirroring, TvSystem};

const PRG_BANK_32K: usize = 0x8000;
const CHR_ROM_BANK_2K: usize = 0x800;

fn cart() -> Cartridge {
    let mut prg = vec![0xFFu8; 4 * PRG_BANK_32K];
    for bank in 0..4 {
        prg[bank * PRG_BANK_32K] = bank as u8;
    }
    let mut chr = vec![0xFFu8; 4 * CHR_ROM_BANK_2K];
    for bank in 0..4 {
        chr[bank * CHR_ROM_BANK_2K] = (0x10 + bank) as u8;
    }
    Cartridge {
        prg_rom: prg,
        chr_rom: chr,
        chr_ram: false,
        mapper_id: 77,
        submapper: 0,
        mirroring: Mirroring::FourScreen,
        battery_backed: false,
        prg_ram_size: 0,
        prg_nvram_size: 0,
        tv_system: TvSystem::Ntsc,
        is_nes2: true,
        prg_chr_crc32: 0,
        db_matched: false,
        fds_data: None,
    }
}

#[test]
fn boot_state_bank_0() {
    let mut m = IremLrog017::new(cart());
    assert_eq!(m.cpu_peek(0x8000), 0);
    assert_eq!(m.ppu_read(0x0000), 0x10);
    assert_eq!(m.ppu_read(0x0800), 0);
    assert_eq!(m.ppu_read(0x1000), 0);
    assert_eq!(m.ppu_read(0x1800), 0);
}

#[test]
fn low_nibble_selects_prg_high_nibble_selects_chr() {
    let mut m = IremLrog017::new(cart());
    m.cpu_write(0x8001, 0x23);
    assert_eq!(m.cpu_peek(0x8000), 3);
    assert_eq!(m.ppu_read(0x0000), 0x12);
    m.cpu_write(0x8001, 0x31);
    assert_eq!(m.cpu_peek(0x8000), 1);
    assert_eq!(m.ppu_read(0x0000), 0x13);
}

#[test]
fn chr_ram_round_trips_per_window() {
    let mut m = IremLrog017::new(cart());
    m.ppu_write(0x0900, 0xA1);
    m.ppu_write(0x1100, 0xB2);
    m.ppu_write(0x1900, 0xC3);
    assert_eq!(m.ppu_read(0x0900), 0xA1);
    assert_eq!(m.ppu_read(0x1100), 0xB2);
    assert_eq!(m.ppu_read(0x1900), 0xC3);
    m.ppu_write(0x0000, 0x55);
    assert_eq!(m.ppu_read(0x0000), 0x10);
}

#[test]
fn irem_lrog017_bus_conflict_masks_value() {
    let mut m = IremLrog017::new(cart());
    m.cpu_write(0x8001, 0x32);
    assert_eq!(m.cpu_peek(0x8000), 2);
    m.cpu_write(0x8000, 0x33);
    assert_eq!(m.cpu_peek(0x8000), 2);
    assert_eq!(m.ppu_read(0x0000), 0x10);
}

#[test]
fn mirroring_is_four_screen() {
    let m = IremLrog017::new(cart());
    assert_eq!(m.mirroring(), Mirroring::FourScreen);
}

#[test]
fn irem_lrog017_save_state_round_trip() {
    let mut m = IremLrog017::new(cart());
    m.cpu_write(0x8001, 0x32);
    m.ppu_write(0x0900, 0xAB);
    let snap = m.save_state_capture().unwrap();
    let mut fresh = IremLrog017::new(cart());
    fresh.save_state_apply(&snap).unwrap();
    assert_eq!(fresh.cpu_peek(0x8000), 2);
    assert_eq!(fresh.ppu_read(0x0000), 0x13);
    assert_eq!(fresh.ppu_read(0x0900), 0xAB);
}
