use nes::mapper::{Mapper, NametableSource};
use nes::mapper::sunsoft4::Sunsoft4;
use nes::rom::{Cartridge, Mirroring, TvSystem};

const CHR_BANK_1K: usize = 0x400;

fn cart() -> Cartridge {
    Cartridge {
        prg_rom: vec![0u8; 0x20000],
        chr_rom: vec![0u8; 0x20000],
        chr_ram: false,
        mapper_id: 68,
        submapper: 0,
        mirroring: Mirroring::Vertical,
        battery_backed: false,
        prg_ram_size: 0x2000,
        prg_nvram_size: 0,
        tv_system: TvSystem::Ntsc,
        is_nes2: false,
        prg_chr_crc32: 0,
        db_matched: false,
        fds_data: None,
    }
}

#[test]
fn power_on_state_is_safe_default() {
    let m = Sunsoft4::new(cart());
    assert_eq!(m.prg_bank, 0);
    assert!(!m.use_chr_for_nametables);
    assert!(!m.prg_ram_enabled);
}

#[test]
fn nt_register_writes_force_bit7() {
    let mut m = Sunsoft4::new(cart());
    m.cpu_write(0xC000, 0x12);
    m.cpu_write(0xD000, 0x05);
    assert_eq!(m.nt_regs[0], 0x92);
    assert_eq!(m.nt_regs[1], 0x85);
}

#[test]
fn e000_decodes_mirror_and_ntram_enable() {
    let mut m = Sunsoft4::new(cart());
    m.cpu_write(0xE000, 0x10);
    assert!(m.use_chr_for_nametables);
    assert_eq!(m.mirroring, Mirroring::Vertical);
    m.cpu_write(0xE000, 0x01);
    assert!(!m.use_chr_for_nametables);
    assert_eq!(m.mirroring, Mirroring::Horizontal);
}

#[test]
fn f000_gates_prg_ram_and_selects_bank() {
    let mut m = Sunsoft4::new(cart());
    m.cpu_write(0xF000, 0x00);
    m.cpu_write(0x6000, 0xAB);
    assert_eq!(m.cpu_read(0x6000), 0);
    m.cpu_write(0xF000, 0x10);
    m.cpu_write(0x6000, 0xAB);
    assert_eq!(m.cpu_read(0x6000), 0xAB);
    m.cpu_write(0xF000, 0x13);
    assert_eq!(m.prg_bank, 0x03);
}

#[test]
fn nametable_routing_picks_correct_register_per_mirror() {
    let mut m = Sunsoft4::new(cart());
    m.cpu_write(0xC000, 0x00);
    m.cpu_write(0xD000, 0x01);
    m.cpu_write(0xE000, 0x10);
    m.chr[0] = 0xAA;
    m.chr[CHR_BANK_1K] = 0xBB;
    match m.ppu_nametable_read(0, 0) {
        NametableSource::Byte(b) => assert_eq!(b, 0xAA),
        other => panic!("expected Byte, got {other:?}"),
    }
    match m.ppu_nametable_read(1, 0) {
        NametableSource::Byte(b) => assert_eq!(b, 0xBB),
        other => panic!("expected Byte, got {other:?}"),
    }
}

#[test]
fn nametable_routing_off_returns_default() {
    let mut m = Sunsoft4::new(cart());
    m.cpu_write(0xE000, 0x01);
    assert_eq!(
        m.ppu_nametable_read(0, 0),
        NametableSource::Default,
    );
}
