use nes::mapper::Mapper;
use nes::mapper::mapper047::Mapper047;
use nes::rom::{Cartridge, Mirroring, TvSystem};

const PRG_BANK_8K: usize = 0x2000;
const CHR_BANK_1K: usize = 0x400;

fn cart() -> Cartridge {
    let mut prg = vec![0u8; 32 * PRG_BANK_8K];
    for bank in 0..32 {
        let base = bank * PRG_BANK_8K;
        prg[base..base + PRG_BANK_8K].fill(bank as u8);
    }
    let mut chr = vec![0u8; 256 * CHR_BANK_1K];
    for bank in 0..256 {
        let base = bank * CHR_BANK_1K;
        chr[base..base + CHR_BANK_1K].fill(bank as u8);
    }
    Cartridge {
        prg_rom: prg,
        chr_rom: chr,
        chr_ram: false,
        mapper_id: 47,
        submapper: 0,
        mirroring: Mirroring::Vertical,
        battery_backed: false,
        prg_ram_size: 0,
        prg_nvram_size: 0,
        tv_system: TvSystem::Ntsc,
        is_nes2: false,
        prg_chr_crc32: 0,
        db_matched: false,
        fds_data: None,
    }
}

fn select_mmc3_prg(m: &mut Mapper047, r6: u8, r7: u8) {
    m.cpu_write(0x8000, 0x06);
    m.cpu_write(0x8001, r6);
    m.cpu_write(0x8000, 0x07);
    m.cpu_write(0x8001, r7);
}

fn set_block(m: &mut Mapper047, b: u8) {
    m.cpu_write(0x6000, b);
}

#[test]
fn block_zero_pins_to_first_128k_of_prg_and_chr() {
    let mut m = Mapper047::new(cart());
    select_mmc3_prg(&mut m, 0x05, 0x09);
    set_block(&mut m, 0);
    assert_eq!(m.cpu_peek(0x8000), 5);
    assert_eq!(m.cpu_peek(0xA000), 9);
    assert_eq!(m.cpu_peek(0xC000), 30 & 0x0F);
    assert_eq!(m.cpu_peek(0xE000), 31 & 0x0F);
}

#[test]
fn block_one_shifts_into_second_128k_of_prg_and_chr() {
    let mut m = Mapper047::new(cart());
    select_mmc3_prg(&mut m, 0x05, 0x09);
    set_block(&mut m, 1);
    assert_eq!(m.cpu_peek(0x8000), 0x10 | 5);
    assert_eq!(m.cpu_peek(0xA000), 0x10 | 9);
    assert_eq!(m.cpu_peek(0xC000), 0x10 | (30 & 0x0F));
    assert_eq!(m.cpu_peek(0xE000), 0x10 | (31 & 0x0F));

    m.cpu_write(0x8000, 0x00); m.cpu_write(0x8001, 0x00);
    m.cpu_write(0x8000, 0x02); m.cpu_write(0x8001, 0x00);
    assert_eq!(m.ppu_read(0x0000), 0x80);
    assert_eq!(m.ppu_read(0x1000), 0x80);
}

#[test]
fn outer_bit_only_uses_d0_of_value() {
    let mut m = Mapper047::new(cart());
    select_mmc3_prg(&mut m, 0, 0);
    set_block(&mut m, 0xFE);
    assert_eq!(m.cpu_peek(0x8000), 0);
    set_block(&mut m, 0xFF);
    assert_eq!(m.cpu_peek(0x8000), 0x10);
}

#[test]
fn mapper047_latch_capture_requires_prg_ram_writes_enabled() {
    let mut m = Mapper047::new(cart());
    select_mmc3_prg(&mut m, 0, 0);
    set_block(&mut m, 1);
    assert_eq!(m.cpu_peek(0x8000), 0x10, "block should latch by default");

    m.cpu_write(0xA001, 0x40);
    m.cpu_write(0x6000, 0x00);
    assert_eq!(m.cpu_peek(0x8000), 0x10, "latch must be write-protected");

    m.cpu_write(0xA001, 0x00);
    m.cpu_write(0x6000, 0x00);
    assert_eq!(m.cpu_peek(0x8000), 0x10);

    m.cpu_write(0xA001, 0x80);
    m.cpu_write(0x6000, 0x00);
    assert_eq!(m.cpu_peek(0x8000), 0);
}

#[test]
fn mapper047_six_thousand_window_returns_open_bus() {
    let mut m = Mapper047::new(cart());
    m.cpu_write(0x6000, 0x01);
    assert_eq!(m.cpu_peek(0x6000), 0);
    assert_eq!(m.cpu_peek(0x7FFF), 0);
}

#[test]
fn save_state_round_trip_preserves_block_and_inner_mmc3_state() {
    let mut a = Mapper047::new(cart());
    select_mmc3_prg(&mut a, 0x07, 0x0B);
    set_block(&mut a, 1);
    let snap = a.save_state_capture().unwrap();

    let mut b = Mapper047::new(cart());
    b.save_state_apply(&snap).unwrap();
    assert_eq!(b.block, 1);
    assert_eq!(b.cpu_peek(0x8000), 0x10 | 7);
    assert_eq!(b.cpu_peek(0xA000), 0x10 | 0x0B);
}

#[test]
fn irq_line_starts_low_and_forwards_to_inner() {
    let m = Mapper047::new(cart());
    assert!(!m.irq_line());
}
