use nes::mapper::Mapper;
use nes::mapper::mapper037::Mapper037;
use nes::rom::{Cartridge, Mirroring, TvSystem};

const PRG_BANK_8K: usize = 0x2000;
const CHR_BANK_1K: usize = 0x400;

fn cart() -> Cartridge {
    let mut prg = vec![0u8; 32 * PRG_BANK_8K];
    for bank in 0..32 {
        let base = bank * PRG_BANK_8K;
        prg[base..base + PRG_BANK_8K].fill(bank as u8);
    }
    let mut chr = vec![0u8; 256 * CHR_BANK_1K];
    for bank in 0..256 {
        let base = bank * CHR_BANK_1K;
        chr[base..base + CHR_BANK_1K].fill(bank as u8);
    }
    Cartridge {
        prg_rom: prg,
        chr_rom: chr,
        chr_ram: false,
        mapper_id: 37,
        submapper: 0,
        mirroring: Mirroring::Vertical,
        battery_backed: false,
        prg_ram_size: 0,
        prg_nvram_size: 0,
        tv_system: TvSystem::Ntsc,
        is_nes2: false,
        prg_chr_crc32: 0,
        db_matched: false,
        fds_data: None,
    }
}

fn select_mmc3_prg(m: &mut Mapper037, r6: u8, r7: u8) {
    m.cpu_write(0x8000, 0x06);
    m.cpu_write(0x8001, r6);
    m.cpu_write(0x8000, 0x07);
    m.cpu_write(0x8001, r7);
}

fn set_block(m: &mut Mapper037, b: u8) {
    m.cpu_write(0x6000, b);
}

#[test]
fn block_0_through_2_lock_first_64k_window() {
    for b in 0..=2 {
        let mut m = Mapper037::new(cart());
        select_mmc3_prg(&mut m, 0, 1);
        set_block(&mut m, b);
        assert_eq!(m.cpu_peek(0x8000), 0, "block {b}");
        assert_eq!(m.cpu_peek(0xA000), 1, "block {b}");
        assert_eq!(m.cpu_peek(0xC000), 6, "block {b}");
        assert_eq!(m.cpu_peek(0xE000), 7, "block {b}");
    }
}

#[test]
fn block_3_locks_second_64k_window() {
    let mut m = Mapper037::new(cart());
    select_mmc3_prg(&mut m, 0, 1);
    set_block(&mut m, 3);
    assert_eq!(m.cpu_peek(0x8000), 8);
    assert_eq!(m.cpu_peek(0xA000), 9);
    assert_eq!(m.cpu_peek(0xC000), 14);
    assert_eq!(m.cpu_peek(0xE000), 15);
}

#[test]
fn block_4_through_6_open_full_128k_window() {
    for b in 4..=6 {
        let mut m = Mapper037::new(cart());
        select_mmc3_prg(&mut m, 0, 9);
        set_block(&mut m, b);
        assert_eq!(m.cpu_peek(0x8000), 16, "block {b}");
        assert_eq!(m.cpu_peek(0xA000), 25, "block {b}");
        assert_eq!(m.cpu_peek(0xC000), 30, "block {b}");
        assert_eq!(m.cpu_peek(0xE000), 31, "block {b}");
    }
}

#[test]
fn block_7_locks_last_64k_of_third_jail_cell() {
    let mut m = Mapper037::new(cart());
    select_mmc3_prg(&mut m, 0, 9);
    set_block(&mut m, 7);
    assert_eq!(m.cpu_peek(0x8000), 24);
    assert_eq!(m.cpu_peek(0xA000), 25);
    assert_eq!(m.cpu_peek(0xE000), 31);
}

#[test]
fn chr_q2_bit_selects_upper_half() {
    let mut m = Mapper037::new(cart());
    m.cpu_write(0x8000, 0x00);
    m.cpu_write(0x8001, 0x00);
    m.cpu_write(0x8000, 0x02);
    m.cpu_write(0x8001, 0x00);

    set_block(&mut m, 0);
    assert_eq!(m.ppu_read(0x0000), 0);
    assert_eq!(m.ppu_read(0x1000), 0);

    set_block(&mut m, 4);
    assert_eq!(m.ppu_read(0x0000), 128);
    assert_eq!(m.ppu_read(0x1000), 128);
}

#[test]
fn mapper037_latch_capture_requires_prg_ram_writes_enabled() {
    let mut m = Mapper037::new(cart());
    set_block(&mut m, 3);
    select_mmc3_prg(&mut m, 0, 0);
    assert_eq!(m.cpu_peek(0x8000), 8, "should be in block 3");

    m.cpu_write(0xA001, 0x40);
    m.cpu_write(0x6000, 0x07);
    assert_eq!(m.cpu_peek(0x8000), 8, "latch should still report block 3");

    m.cpu_write(0xA001, 0x00);
    m.cpu_write(0x6000, 0x07);
    assert_eq!(m.cpu_peek(0x8000), 8, "latch should still report block 3");

    m.cpu_write(0xA001, 0x80);
    m.cpu_write(0x6000, 0x07);
    assert_eq!(m.cpu_peek(0x8000), 24);
}

#[test]
fn mmc3_irq_pipeline_still_drives_irq_line() {
    let m = Mapper037::new(cart());
    assert!(!m.irq_line());
}

#[test]
fn mapper037_six_thousand_window_returns_open_bus() {
    let mut m = Mapper037::new(cart());
    m.cpu_write(0x6000, 0x05);
    assert_eq!(m.cpu_peek(0x6000), 0);
    assert_eq!(m.cpu_peek(0x7FFF), 0);
}
