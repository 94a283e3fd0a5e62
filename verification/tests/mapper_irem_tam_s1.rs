use nes::mapper::Mapper;
use nes::mapper::irem_tam_s1::IremTamS1;
use nes::rom::{Cartridge, Mirroring, TvSystem};

const PRG_BANK_16K: usize = 0x4000;

fn cart(submapper: u8) -> Cartridge {
    let mut prg = vec![0xFFu8; 16 * PRG_BANK_16K];
    for bank in 0..16 {
        prg[bank * PRG_BANK_16K] = bank as u8;
    }
    Cartridge {
        prg_rom: prg,
        chr_rom: Vec::new(),
        chr_ram: true,
        mapper_id: 97,
        submapper,
        mirroring: Mirroring::Horizontal,
        battery_backed: false,
        prg_ram_size: 0,
        prg_nvram_size: 0,
        tv_system: TvSystem::Ntsc,
        is_nes2: true,
        prg_chr_crc32: 0,
        db_matched: false,
        fds_data: None,
    }
}

#[test]
fn power_on_layout_has_last_at_8000_and_bank0_at_c000() {
    let m = IremTamS1::new(cart(0));
    assert_eq!(m.cpu_peek(0x8000), 15);
    assert_eq!(m.cpu_peek(0xC000), 0);
}

#[test]
fn switchable_bank_at_c000_uses_low_4_bits() {
    let mut m = IremTamS1::new(cart(0));
    m.cpu_write(0x8000, 0x07);
    assert_eq!(m.cpu_peek(0xC000), 7);
    assert_eq!(m.cpu_peek(0x8000), 15, "fixed slot unchanged");
    m.cpu_write(0xFFFF, 0x0E);
    assert_eq!(m.cpu_peek(0xC000), 14);
}

#[test]
fn submapper_0_two_mode_mirroring() {
    let mut m = IremTamS1::new(cart(0));
    assert_eq!(m.mirroring(), Mirroring::Horizontal);
    m.cpu_write(0xFFFF, 0x80);
    assert_eq!(m.mirroring(), Mirroring::Vertical);
    m.cpu_write(0xFFFF, 0x00);
    assert_eq!(m.mirroring(), Mirroring::Horizontal);
}

#[test]
fn submapper_1_four_mode_mirroring() {
    let mut m = IremTamS1::new(cart(1));
    assert_eq!(m.mirroring(), Mirroring::SingleScreenLower);
    m.cpu_write(0xFFFF, 0x40);
    assert_eq!(m.mirroring(), Mirroring::Horizontal);
    m.cpu_write(0xFFFF, 0x80);
    assert_eq!(m.mirroring(), Mirroring::Vertical);
    m.cpu_write(0xFFFF, 0xC0);
    assert_eq!(m.mirroring(), Mirroring::SingleScreenUpper);
    m.cpu_write(0xFFFF, 0x00);
    assert_eq!(m.mirroring(), Mirroring::SingleScreenLower);
}

#[test]
fn irem_tam_s1_writes_below_8000_are_noop() {
    let mut m = IremTamS1::new(cart(0));
    m.cpu_write(0x4020, 0x07);
    m.cpu_write(0x6000, 0x07);
    m.cpu_write(0x7FFF, 0x07);
    assert_eq!(m.cpu_peek(0xC000), 0);
}

#[test]
fn irem_tam_s1_save_state_rejects_cross_submapper_restore() {
    let two = IremTamS1::new(cart(0));
    let snap = two.save_state_capture().unwrap();
    let mut four = IremTamS1::new(cart(1));
    match four.save_state_apply(&snap) {
        Err(nes::save_state::SaveStateError::UnsupportedMapper(_)) => {}
        other => panic!("expected UnsupportedMapper, got {other:?}"),
    }
}

#[test]
fn chr_ram_round_trips() {
    let mut m = IremTamS1::new(cart(0));
    m.ppu_write(0x0010, 0x99);
    assert_eq!(m.ppu_read(0x0010), 0x99);
}
