use nes::mapper::Mapper;
use nes::mapper::ave_nina::AveNina;
use nes::rom::{Cartridge, Mirroring, TvSystem};
use nes::save_state::mapper::{MapperState, NromSnap};

const PRG_BANK_32K: usize = 0x8000;
const CHR_BANK_8K: usize = 0x2000;

fn cart() -> Cartridge {
    let mut prg = vec![0xFFu8; 2 * PRG_BANK_32K];
    for b in 0..2 {
        prg[b * PRG_BANK_32K] = 0xA0 + b as u8;
    }
    let mut chr = vec![0u8; 8 * CHR_BANK_8K];
    for b in 0..8 {
        chr[b * CHR_BANK_8K] = 0xC0 + b as u8;
    }
    Cartridge {
        prg_rom: prg,
        chr_rom: chr,
        chr_ram: false,
        mapper_id: 79,
        submapper: 0,
        mirroring: Mirroring::Horizontal,
        battery_backed: false,
        prg_ram_size: 0,
        prg_nvram_size: 0,
        tv_system: TvSystem::Ntsc,
        is_nes2: false,
        prg_chr_crc32: 0,
        db_matched: false,
        fds_data: None,
    }
}

fn m() -> AveNina {
    AveNina::new(cart())
}

#[test]
fn ave_nina_power_on_layout_is_bank_zero_for_both_planes() {
    let mut m = m();
    assert_eq!(m.cpu_peek(0x8000), 0xA0);
    assert_eq!(m.ppu_read(0x0000), 0xC0);
}

#[test]
fn d3_selects_prg_bank() {
    let mut m = m();
    m.cpu_write(0x4100, 0x08);
    assert_eq!(m.cpu_peek(0x8000), 0xA1);
    m.cpu_write(0x4100, 0x00);
    assert_eq!(m.cpu_peek(0x8000), 0xA0);
}

#[test]
fn low_three_bits_select_chr_bank() {
    let mut m = m();
    for b in 0..8u8 {
        m.cpu_write(0x4100, b);
        assert_eq!(m.ppu_read(0x0000), 0xC0 + b);
    }
}

#[test]
fn prg_and_chr_can_combine_independently() {
    let mut m = m();
    m.cpu_write(0x4100, 0x0F);
    assert_eq!(m.cpu_peek(0x8000), 0xA1);
    assert_eq!(m.ppu_read(0x0000), 0xC7);
}

#[test]
fn upper_bits_above_d3_are_ignored() {
    let mut m = m();
    m.cpu_write(0x4100, 0xF7);
    assert_eq!(m.cpu_peek(0x8000), 0xA0);
    assert_eq!(m.ppu_read(0x0000), 0xC7);
}

#[test]
fn write_decode_requires_a8_high() {
    let mut m = m();
    m.cpu_write(0x4000, 0x07);
    assert_eq!(m.ppu_read(0x0000), 0xC0);
    m.cpu_write(0x40FF, 0x07);
    assert_eq!(m.ppu_read(0x0000), 0xC0);
    m.cpu_write(0x4100, 0x07);
    assert_eq!(m.ppu_read(0x0000), 0xC7);
}

#[test]
fn write_decode_accepts_mirrors_through_5fff() {
    for addr in [0x4100u16, 0x4300, 0x45FF, 0x4F00, 0x5100, 0x5F00] {
        let mut m = m();
        m.cpu_write(addr, 0x05);
        assert_eq!(m.ppu_read(0x0000), 0xC5, "addr={addr:#06X}");
    }
}

#[test]
fn write_decode_rejects_addresses_with_a13_high_at_5_window() {
    let mut m = m();
    m.cpu_write(0x5200, 0x07);
    assert_eq!(m.ppu_read(0x0000), 0xC0);
}

#[test]
fn writes_above_6000_are_ignored() {
    let mut m = m();
    m.cpu_write(0x6000, 0x07);
    m.cpu_write(0x8100, 0x07);
    m.cpu_write(0xFFFF, 0x07);
    assert_eq!(m.ppu_read(0x0000), 0xC0);
}

#[test]
fn cpu_read_ex_returns_open_bus() {
    let mut m = m();
    assert_eq!(m.cpu_read_ex(0x4100), None);
    assert_eq!(m.cpu_read_ex(0x5000), None);
}

#[test]
fn ave_nina_chr_ram_round_trips_when_cart_has_no_chr_rom() {
    let mut cart = cart();
    cart.chr_rom = vec![];
    cart.chr_ram = true;
    let mut m = AveNina::new(cart);
    m.ppu_write(0x0123, 0x42);
    assert_eq!(m.ppu_read(0x0123), 0x42);
    m.cpu_write(0x4100, 0x07);
    assert_eq!(m.ppu_read(0x0123), 0x42);
}

#[test]
fn ave_nina_save_state_round_trip_preserves_reg_and_chr_ram() {
    let mut cart = cart();
    cart.chr_rom = vec![];
    cart.chr_ram = true;
    let mut a = AveNina::new(cart.clone());
    a.cpu_write(0x4100, 0x0F);
    a.ppu_write(0x0010, 0xAA);
    let snap = a.save_state_capture().unwrap();

    let mut b = AveNina::new(cart);
    b.save_state_apply(&snap).unwrap();
    assert_eq!(b.reg, a.reg);
    assert_eq!(b.ppu_read(0x0010), 0xAA);
}

#[test]
fn ave_nina_cross_variant_apply_rejected() {
    let mut m = m();
    let bogus = MapperState::Nrom(NromSnap::default());
    assert!(m.save_state_apply(&bogus).is_err());
}
