use nes::mapper::Mapper;
use nes::mapper::bnrom::{Bnrom, Variant};
use nes::rom::{Cartridge, Mirroring, TvSystem};

const PRG_BANK_32K: usize = 0x8000;
const CHR_BANK_4K: usize = 0x1000;

fn cart(submapper: u8, with_chr_rom: bool) -> Cartridge {
    let mut prg = vec![0xFFu8; 8 * PRG_BANK_32K];
    for bank in 0..8 {
        prg[bank * PRG_BANK_32K] = bank as u8;
    }
    let (chr_rom, chr_ram) = if with_chr_rom {
        let mut chr = vec![0xFFu8; 16 * CHR_BANK_4K];
        for bank in 0..16 {
            chr[bank * CHR_BANK_4K] = bank as u8;
        }
        (chr, false)
    } else {
        (Vec::new(), true)
    };
    Cartridge {
        prg_rom: prg,
        chr_rom,
        chr_ram,
        mapper_id: 34,
        submapper,
        mirroring: Mirroring::Vertical,
        battery_backed: false,
        prg_ram_size: 0x2000,
        prg_nvram_size: 0,
        tv_system: TvSystem::Ntsc,
        is_nes2: true,
        prg_chr_crc32: 0,
        db_matched: false,
        fds_data: None,
    }
}

#[test]
fn auto_detect_bnrom_when_chr_ram() {
    let m = Bnrom::new(cart(0, false));
    assert_eq!(m.variant, Variant::Bnrom);
}

#[test]
fn auto_detect_nina001_when_chr_rom_present() {
    let m = Bnrom::new(cart(0, true));
    assert_eq!(m.variant, Variant::Nina001);
}

#[test]
fn explicit_submapper_overrides_heuristic() {
    let m = Bnrom::new(cart(1, false));
    assert_eq!(m.variant, Variant::Nina001);
    let m = Bnrom::new(cart(2, true));
    assert_eq!(m.variant, Variant::Bnrom);
}

#[test]
fn bnrom_writes_swap_32k_with_bus_conflict() {
    let mut m = Bnrom::new(cart(2, false));
    assert_eq!(m.cpu_peek(0x8000), 0);
    m.cpu_write(0xFFFF, 5);
    assert_eq!(m.cpu_peek(0x8000), 5);
    m.cpu_write(0x8000, 0x07);
    assert_eq!(m.cpu_peek(0x8000), 5);
}

#[test]
fn nina001_writes_to_7ffd_swap_prg() {
    let mut m = Bnrom::new(cart(1, true));
    assert_eq!(m.cpu_peek(0x8000), 0);
    m.cpu_write(0x7FFD, 3);
    assert_eq!(m.cpu_peek(0x8000), 3);
}

#[test]
fn nina001_writes_to_7ffe_and_7fff_swap_chr_slots() {
    let mut m = Bnrom::new(cart(1, true));
    assert_eq!(m.ppu_read(0x0000), 0);
    assert_eq!(m.ppu_read(0x1000), 1);
    m.cpu_write(0x7FFE, 5);
    m.cpu_write(0x7FFF, 9);
    assert_eq!(m.ppu_read(0x0000), 5);
    assert_eq!(m.ppu_read(0x1000), 9);
}

#[test]
fn nina001_writes_to_other_prg_ram_addresses_pass_through() {
    let mut m = Bnrom::new(cart(1, true));
    m.cpu_write(0x6000, 0x42);
    assert_eq!(m.cpu_peek(0x6000), 0x42);
    m.cpu_write(0x7FFC, 0x55);
    assert_eq!(m.cpu_peek(0x7FFC), 0x55);
}

#[test]
fn bnrom_writes_to_8000_dont_affect_prg_ram() {
    let mut m = Bnrom::new(cart(2, false));
    m.cpu_write(0x8000, 5);
    assert_eq!(m.cpu_peek(0x6000), 0);
}

#[test]
fn save_state_rejects_cross_variant_restore() {
    let bnrom = Bnrom::new(cart(2, false));
    let snap = bnrom.save_state_capture().unwrap();
    let mut nina = Bnrom::new(cart(1, true));
    match nina.save_state_apply(&snap) {
        Err(nes::save_state::SaveStateError::UnsupportedMapper(_)) => {}
        other => panic!("expected UnsupportedMapper, got {other:?}"),
    }
}
