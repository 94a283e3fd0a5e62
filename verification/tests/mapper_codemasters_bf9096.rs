use nes::mapper::Mapper;
use nes::mapper::codemasters_bf9096::CodemastersBf9096;
use nes::rom::{Cartridge, Mirroring, TvSystem};

const PRG_BANK_16K: usize = 0x4000;

fn cart(submapper: u8) -> Cartridge {
    let mut prg = vec![0xFFu8; 16 * PRG_BANK_16K];
    for bank in 0..16 {
        prg[bank * PRG_BANK_16K] = bank as u8;
    }
    Cartridge {
        prg_rom: prg,
        chr_rom: Vec::new(),
        chr_ram: true,
        mapper_id: 232,
        submapper,
        mirroring: Mirroring::Vertical,
        battery_backed: false,
        prg_ram_size: 0,
        prg_nvram_size: 0,
        tv_system: TvSystem::Ntsc,
        is_nes2: true,
        prg_chr_crc32: 0,
        db_matched: false,
        fds_data: None,
    }
}

#[test]
fn boot_state_block0_page0() {
    let m = CodemastersBf9096::new(cart(0));
    assert_eq!(m.cpu_peek(0x8000), 0);
    assert_eq!(m.cpu_peek(0xC000), 3);
}

#[test]
fn page_select_at_c000() {
    let mut m = CodemastersBf9096::new(cart(0));
    m.cpu_write(0xC000, 0x02);
    assert_eq!(m.cpu_peek(0x8000), 2);
    assert_eq!(m.cpu_peek(0xC000), 3);
    m.cpu_write(0xFFFF, 0xFF);
    assert_eq!(m.cpu_peek(0x8000), 3);
}

#[test]
fn quattro_block_select_at_8000() {
    let mut m = CodemastersBf9096::new(cart(0));
    m.cpu_write(0x8000, 0b0001_0000);
    assert_eq!(m.cpu_peek(0x8000), 8);
    assert_eq!(m.cpu_peek(0xC000), 11);
    m.cpu_write(0xC000, 0x01);
    assert_eq!(m.cpu_peek(0x8000), 9);
    m.cpu_write(0xBFFF, 0b0001_1000);
    m.cpu_write(0xC000, 0x02);
    assert_eq!(m.cpu_peek(0x8000), 14);
    assert_eq!(m.cpu_peek(0xC000), 15);
}

#[test]
fn aladdin_block_select_swaps_bits() {
    let mut m = CodemastersBf9096::new(cart(1));
    m.cpu_write(0x8000, 0b0000_1000);
    assert_eq!(m.cpu_peek(0x8000), 8);
    m.cpu_write(0x8000, 0b0001_0000);
    assert_eq!(m.cpu_peek(0x8000), 4);
    m.cpu_write(0x8000, 0b0001_1000);
    assert_eq!(m.cpu_peek(0x8000), 12);
}

#[test]
fn codemasters_bf9096_chr_ram_round_trip() {
    let mut m = CodemastersBf9096::new(cart(0));
    m.ppu_write(0x0042, 0xCD);
    assert_eq!(m.ppu_read(0x0042), 0xCD);
}

#[test]
fn save_state_rejects_cross_submapper_apply() {
    let m = CodemastersBf9096::new(cart(0));
    let snap = m.save_state_capture().unwrap();
    let mut alad = CodemastersBf9096::new(cart(1));
    match alad.save_state_apply(&snap) {
        Err(nes::save_state::SaveStateError::UnsupportedMapper(_)) => {}
        other => panic!("expected UnsupportedMapper, got {other:?}"),
    }
}

#[test]
fn save_state_round_trip_preserves_block_and_page() {
    let mut m = CodemastersBf9096::new(cart(0));
    m.cpu_write(0x8000, 0b0001_1000);
    m.cpu_write(0xC000, 0x02);
    let snap = m.save_state_capture().unwrap();
    let mut fresh = CodemastersBf9096::new(cart(0));
    fresh.save_state_apply(&snap).unwrap();
    assert_eq!(fresh.cpu_peek(0x8000), 14);
    assert_eq!(fresh.cpu_peek(0xC000), 15);
}
