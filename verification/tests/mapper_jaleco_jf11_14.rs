use nes::mapper::Mapper;
use nes::mapper::jaleco_jf11_14::JalecoJf11_14;
use nes::rom::{Cartridge, Mirroring, TvSystem};

const PRG_BANK_32K: usize = 0x8000;
const CHR_BANK_8K: usize = 0x2000;

fn cart() -> Cartridge {
    let mut prg = vec![0xFFu8; 4 * PRG_BANK_32K];
    for bank in 0..4 {
        prg[bank * PRG_BANK_32K] = bank as u8;
    }
    let mut chr = vec![0xFFu8; 16 * CHR_BANK_8K];
    for bank in 0..16 {
        chr[bank * CHR_BANK_8K] = (0x20 + bank) as u8;
    }
    Cartridge {
        prg_rom: prg,
        chr_rom: chr,
        chr_ram: false,
        mapper_id: 140,
        submapper: 0,
        mirroring: Mirroring::Vertical,
        battery_backed: false,
        prg_ram_size: 0,
        prg_nvram_size: 0,
        tv_system: TvSystem::Ntsc,
        is_nes2: true,
        prg_chr_crc32: 0,
        db_matched: false,
        fds_data: None,
    }
}

#[test]
fn jaleco_jf11_14_boot_state_zeroes_both_banks() {
    let mut m = JalecoJf11_14::new(cart());
    assert_eq!(m.cpu_peek(0x8000), 0);
    assert_eq!(m.ppu_read(0x0000), 0x20);
}

#[test]
fn prg_bank_lives_in_high_nibble() {
    let mut m = JalecoJf11_14::new(cart());
    m.cpu_write(0x6000, 0b0010_0000);
    assert_eq!(m.cpu_peek(0x8000), 2);
    m.cpu_write(0x6000, 0b1101_0000);
    assert_eq!(m.cpu_peek(0x8000), 1);
}

#[test]
fn chr_bank_lives_in_low_nibble() {
    let mut m = JalecoJf11_14::new(cart());
    m.cpu_write(0x6000, 0x0F);
    assert_eq!(m.ppu_read(0x0000), 0x2F);
    m.cpu_write(0x6000, 0x05);
    assert_eq!(m.ppu_read(0x0000), 0x25);
}

#[test]
fn full_byte_carries_both_banks() {
    let mut m = JalecoJf11_14::new(cart());
    m.cpu_write(0x6000, 0b0011_1010);
    assert_eq!(m.cpu_peek(0x8000), 3);
    assert_eq!(m.ppu_read(0x0000), 0x2A);
}

#[test]
fn jaleco_jf11_14_writes_outside_register_window_are_ignored() {
    let mut m = JalecoJf11_14::new(cart());
    m.cpu_write(0x5FFF, 0x33);
    m.cpu_write(0x8000, 0x33);
    assert_eq!(m.cpu_peek(0x8000), 0);
}

#[test]
fn jaleco_jf11_14_save_state_round_trip() {
    let mut m = JalecoJf11_14::new(cart());
    m.cpu_write(0x7FFF, 0b0010_0111);
    let snap = m.save_state_capture().unwrap();
    let mut fresh = JalecoJf11_14::new(cart());
    fresh.save_state_apply(&snap).unwrap();
    assert_eq!(fresh.cpu_peek(0x8000), 2);
    assert_eq!(fresh.ppu_read(0x0000), 0x27);
}
