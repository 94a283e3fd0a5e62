use nes::mapper::Mapper;
use nes::mapper::jaleco_jf05::JalecoJf05;
use nes::rom::{Cartridge, Mirroring, TvSystem};

const CHR_BANK_8K: usize = 0x2000;

fn cart() -> Cartridge {
    let prg = vec![0xAAu8; 32 * 1024];
    let mut chr = vec![0xFFu8; 4 * CHR_BANK_8K];
    for bank in 0..4 {
        chr[bank * CHR_BANK_8K] = bank as u8;
    }
    Cartridge {
        prg_rom: prg,
        chr_rom: chr,
        chr_ram: false,
        mapper_id: 87,
        submapper: 0,
        mirroring: Mirroring::Vertical,
        battery_backed: false,
        prg_ram_size: 0,
        prg_nvram_size: 0,
        tv_system: TvSystem::Ntsc,
        is_nes2: true,
        prg_chr_crc32: 0,
        db_matched: false,
        fds_data: None,
    }
}

#[test]
fn boot_state_chr_bank_zero() {
    let mut m = JalecoJf05::new(cart());
    assert_eq!(m.ppu_read(0x0000), 0);
}

#[test]
fn write_to_6000_swaps_low_two_bits_into_chr_bank() {
    let mut m = JalecoJf05::new(cart());
    m.cpu_write(0x6000, 0x01);
    assert_eq!(m.ppu_read(0x0000), 2);
    m.cpu_write(0x6000, 0x02);
    assert_eq!(m.ppu_read(0x0000), 1);
    m.cpu_write(0x6000, 0x03);
    assert_eq!(m.ppu_read(0x0000), 3);
    m.cpu_write(0x6000, 0xFC);
    assert_eq!(m.ppu_read(0x0000), 0);
}

#[test]
fn jaleco_jf05_writes_outside_register_window_are_ignored() {
    let mut m = JalecoJf05::new(cart());
    m.cpu_write(0x5FFF, 0x03);
    assert_eq!(m.ppu_read(0x0000), 0);
    m.cpu_write(0x8000, 0x03);
    assert_eq!(m.ppu_read(0x0000), 0);
}

#[test]
fn ppu_writes_have_no_effect() {
    let mut m = JalecoJf05::new(cart());
    m.ppu_write(0x0000, 0x55);
    assert_eq!(m.ppu_read(0x0000), 0);
}

#[test]
fn jaleco_jf05_save_state_round_trip() {
    let mut m = JalecoJf05::new(cart());
    m.cpu_write(0x7000, 0x03);
    let snap = m.save_state_capture().unwrap();
    let mut fresh = JalecoJf05::new(cart());
    fresh.save_state_apply(&snap).unwrap();
    assert_eq!(fresh.ppu_read(0x0000), 3);
}
