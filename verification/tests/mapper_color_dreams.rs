use nes::mapper::Mapper;
use nes::mapper::color_dreams::ColorDreams;
use nes::rom::{Cartridge, Mirroring, TvSystem};
use nes::save_state::mapper::{MapperState, NromSnap};

const PRG_BANK_32K: usize = 0x8000;
const CHR_BANK_8K: usize = 0x2000;

fn cart() -> Cartridge {
    let mut prg = vec![0xFFu8; 4 * PRG_BANK_32K];
    for b in 0..4 {
        prg[b * PRG_BANK_32K] = 0xA0 + b as u8;
    }
    let mut chr = vec![0u8; 8 * CHR_BANK_8K];
    for b in 0..8 {
        chr[b * CHR_BANK_8K] = 0xC0 + b as u8;
    }
    Cartridge {
        prg_rom: prg,
        chr_rom: chr,
        chr_ram: false,
        mapper_id: 11,
        submapper: 0,
        mirroring: Mirroring::Vertical,
        battery_backed: false,
        prg_ram_size: 0,
        prg_nvram_size: 0,
        tv_system: TvSystem::Ntsc,
        is_nes2: false,
        prg_chr_crc32: 0,
        db_matched: false,
        fds_data: None,
    }
}

fn m() -> ColorDreams {
    ColorDreams::new(cart())
}

#[test]
fn color_dreams_power_on_layout_is_bank_zero_for_both_planes() {
    let mut m = m();
    assert_eq!(m.cpu_peek(0x8000), 0xA0);
    assert_eq!(m.ppu_read(0x0000), 0xC0);
}

#[test]
fn low_nibble_picks_prg_bank() {
    let mut m = m();
    m.cpu_write(0x8001, 0x02);
    assert_eq!(m.cpu_peek(0x8000), 0xA2);
    m.cpu_write(0x8001, 0x03);
    assert_eq!(m.cpu_peek(0x8000), 0xA3);
}

#[test]
fn high_nibble_picks_chr_bank() {
    let mut m = m();
    m.cpu_write(0x8001, 0x50);
    assert_eq!(m.ppu_read(0x0000), 0xC5);
    m.cpu_write(0x8001, 0x70);
    assert_eq!(m.ppu_read(0x0000), 0xC7);
}

#[test]
fn nibble_combinations_select_independently() {
    let mut m = m();
    m.cpu_write(0x8001, 0x32);
    assert_eq!(m.cpu_peek(0x8000), 0xA2);
    assert_eq!(m.ppu_read(0x0000), 0xC3);
}

#[test]
fn bus_conflict_masks_value_at_tag_byte_address() {
    let mut m = m();
    m.cpu_write(0x8000, 0x03);
    assert_eq!(m.cpu_peek(0x8000), 0xA0);
}

#[test]
fn writes_below_8000_are_ignored() {
    let mut m = m();
    m.cpu_write(0x4020, 0xFF);
    m.cpu_write(0x6000, 0xFF);
    m.cpu_write(0x7FFF, 0xFF);
    assert_eq!(m.cpu_peek(0x8000), 0xA0);
    assert_eq!(m.ppu_read(0x0000), 0xC0);
}

#[test]
fn color_dreams_chr_ram_round_trips_when_cart_has_no_chr_rom() {
    let mut cart = cart();
    cart.chr_rom = vec![];
    cart.chr_ram = true;
    let mut m = ColorDreams::new(cart);
    m.ppu_write(0x0123, 0x42);
    assert_eq!(m.ppu_read(0x0123), 0x42);
    m.cpu_write(0x8001, 0xF0);
    assert_eq!(m.ppu_read(0x0123), 0x42);
}

#[test]
fn color_dreams_save_state_round_trip_preserves_reg_and_chr_ram() {
    let mut cart = cart();
    cart.chr_rom = vec![];
    cart.chr_ram = true;
    let mut a = ColorDreams::new(cart.clone());
    a.cpu_write(0x8001, 0x37);
    a.ppu_write(0x0010, 0xAA);
    let snap = a.save_state_capture().unwrap();

    let mut b = ColorDreams::new(cart);
    b.save_state_apply(&snap).unwrap();
    assert_eq!(b.reg, a.reg);
    assert_eq!(b.ppu_read(0x0010), 0xAA);
}

#[test]
fn color_dreams_cross_variant_apply_rejected() {
    let mut m = m();
    let bogus = MapperState::Nrom(NromSnap::default());
    assert!(m.save_state_apply(&bogus).is_err());
}
