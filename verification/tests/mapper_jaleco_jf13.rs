use nes::mapper::Mapper;
use nes::mapper::jaleco_jf13::JalecoJf13;
use nes::rom::{Cartridge, Mirroring, TvSystem};

const PRG_BANK_32K: usize = 0x8000;
const CHR_BANK_8K: usize = 0x2000;

fn cart() -> Cartridge {
    let mut prg = vec![0xFFu8; 4 * PRG_BANK_32K];
    for bank in 0..4 {
        prg[bank * PRG_BANK_32K] = bank as u8;
    }
    let mut chr = vec![0xFFu8; 8 * CHR_BANK_8K];
    for bank in 0..8 {
        chr[bank * CHR_BANK_8K] = (0x10 + bank) as u8;
    }
    Cartridge {
        prg_rom: prg,
        chr_rom: chr,
        chr_ram: false,
        mapper_id: 86,
        submapper: 0,
        mirroring: Mirroring::Vertical,
        battery_backed: false,
        prg_ram_size: 0,
        prg_nvram_size: 0,
        tv_system: TvSystem::Ntsc,
        is_nes2: true,
        prg_chr_crc32: 0,
        db_matched: false,
        fds_data: None,
    }
}

#[test]
fn jaleco_jf13_boot_state_zeroes_both_banks() {
    let m = JalecoJf13::new(cart());
    assert_eq!(m.cpu_peek(0x8000), 0);
    let mut m = m;
    assert_eq!(m.ppu_read(0x0000), 0x10);
}

#[test]
fn prg_bank_uses_bits_5_4() {
    let mut m = JalecoJf13::new(cart());
    m.cpu_write(0x6000, 0b0001_0000);
    assert_eq!(m.cpu_peek(0x8000), 1);
    m.cpu_write(0x6000, 0b0011_0000);
    assert_eq!(m.cpu_peek(0x8000), 3);
}

#[test]
fn chr_bank_combines_bit6_and_bits_1_0() {
    let mut m = JalecoJf13::new(cart());
    m.cpu_write(0x6000, 0b0100_0011);
    assert_eq!(m.ppu_read(0x0000), 0x17);
    m.cpu_write(0x6000, 0b0000_0010);
    assert_eq!(m.ppu_read(0x0000), 0x12);
}

#[test]
fn writes_in_7000_window_do_not_change_banking() {
    let mut m = JalecoJf13::new(cart());
    m.cpu_write(0x6000, 0b0011_0000);
    assert_eq!(m.cpu_peek(0x8000), 3);
    m.cpu_write(0x7000, 0xFF);
    assert_eq!(m.cpu_peek(0x8000), 3);
}

#[test]
fn jaleco_jf13_save_state_round_trip() {
    let mut m = JalecoJf13::new(cart());
    m.cpu_write(0x6000, 0b0011_0011);
    let snap = m.save_state_capture().unwrap();
    let mut fresh = JalecoJf13::new(cart());
    fresh.save_state_apply(&snap).unwrap();
    assert_eq!(fresh.cpu_peek(0x8000), 3);
    assert_eq!(fresh.ppu_read(0x0000), 0x13);
}
