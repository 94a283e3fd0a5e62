use nes::mapper::Mapper;
use nes::mapper::irem_g101::IremG101;
use nes::rom::{Cartridge, Mirroring, TvSystem};

const PRG_BANK_8K: usize = 0x2000;
const CHR_BANK_1K: usize = 0x400;

fn cart(submapper: u8) -> Cartridge {
    let mut prg = vec![0u8; 32 * PRG_BANK_8K];
    for bank in 0..32 {
        let base = bank * PRG_BANK_8K;
        prg[base..base + PRG_BANK_8K].fill(bank as u8);
    }
    Cartridge {
        prg_rom: prg,
        chr_rom: vec![],
        chr_ram: true,
        mapper_id: 32,
        submapper,
        mirroring: Mirroring::Vertical,
        battery_backed: false,
        prg_ram_size: 0x2000,
        prg_nvram_size: 0,
        tv_system: TvSystem::Ntsc,
        is_nes2: true,
        prg_chr_crc32: 0,
        db_matched: false,
        fds_data: None,
    }
}

#[test]
fn power_on_layout_is_mode0_with_fixed_last_two_banks() {
    let m = IremG101::new(cart(0));
    assert_eq!(m.cpu_peek(0x8000), 0);
    assert_eq!(m.cpu_peek(0xA000), 0);
    assert_eq!(m.cpu_peek(0xC000), 30);
    assert_eq!(m.cpu_peek(0xE000), 31);
    assert_eq!(m.cpu_peek(0xFFFF), 31);
}

#[test]
fn prg_reg0_and_reg1_swap_their_windows() {
    let mut m = IremG101::new(cart(0));
    m.cpu_write(0x8000, 0x05);
    m.cpu_write(0xA000, 0x09);
    assert_eq!(m.cpu_peek(0x8000), 5);
    assert_eq!(m.cpu_peek(0xA000), 9);
    assert_eq!(m.cpu_peek(0xC000), 30);
    assert_eq!(m.cpu_peek(0xE000), 31);
}

#[test]
fn prg_mode_1_swaps_first_and_third_slot() {
    let mut m = IremG101::new(cart(0));
    m.cpu_write(0x8000, 0x07);
    m.cpu_write(0x9000, 0b10);
    assert_eq!(m.cpu_peek(0x8000), 30);
    assert_eq!(m.cpu_peek(0xC000), 7);
    assert_eq!(m.cpu_peek(0xE000), 31);
}

#[test]
fn mirroring_bit_toggles_v_and_h() {
    let mut m = IremG101::new(cart(0));
    m.cpu_write(0x9000, 0x00);
    assert_eq!(m.mirroring(), Mirroring::Vertical);
    m.cpu_write(0x9000, 0x01);
    assert_eq!(m.mirroring(), Mirroring::Horizontal);
}

#[test]
fn register_decoded_by_a14_a13_a12_only() {
    let mut m = IremG101::new(cart(0));
    m.cpu_write(0x8007, 0x0A);
    assert_eq!(m.cpu_peek(0x8000), 10);
    m.cpu_write(0x9FFF, 0x01);
    assert_eq!(m.mirroring(), Mirroring::Horizontal);
}

#[test]
fn irem_g101_chr_regs_select_each_1k_slot_independently() {
    let mut chr_rom = vec![0u8; 32 * CHR_BANK_1K];
    for bank in 0..32 {
        let base = bank * CHR_BANK_1K;
        chr_rom[base..base + CHR_BANK_1K].fill(bank as u8);
    }
    let mut c = cart(0);
    c.chr_rom = chr_rom;
    c.chr_ram = false;
    let mut m = IremG101::new(c);

    for i in 0..8u8 {
        m.cpu_write(0xB000 | u16::from(i), 0x10 | i);
    }
    for slot in 0..8 {
        let addr = (slot as u16) * 0x0400;
        assert_eq!(m.ppu_read(addr), 0x10 + slot as u8);
    }
}

#[test]
fn major_league_submapper_locks_one_screen_and_ignores_9000() {
    let mut m = IremG101::new(cart(1));
    assert_eq!(m.mirroring(), Mirroring::SingleScreenUpper);
    m.cpu_write(0x9000, 0xFF);
    assert_eq!(m.mirroring(), Mirroring::SingleScreenUpper);
    m.cpu_write(0x8000, 0x05);
    assert_eq!(m.cpu_peek(0x8000), 5);
    assert_eq!(m.cpu_peek(0xC000), 30);
}

#[test]
fn chr_ram_round_trips_via_selected_bank() {
    let mut m = IremG101::new(cart(0));
    m.cpu_write(0xB000, 3);
    m.ppu_write(0x0010, 0x99);
    assert_eq!(m.ppu_read(0x0010), 0x99);
    m.cpu_write(0xB000, 4);
    assert_eq!(m.ppu_read(0x0010), 0x00);
    m.cpu_write(0xB000, 3);
    assert_eq!(m.ppu_read(0x0010), 0x99);
}

#[test]
fn prg_ram_round_trip_at_6000_window() {
    let mut m = IremG101::new(cart(0));
    m.cpu_write(0x6000, 0x42);
    m.cpu_write(0x7FFF, 0x55);
    assert_eq!(m.cpu_peek(0x6000), 0x42);
    assert_eq!(m.cpu_peek(0x7FFF), 0x55);
}
