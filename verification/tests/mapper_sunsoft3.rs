use nes::mapper::Mapper;
use nes::mapper::sunsoft3::Sunsoft3;
use nes::rom::{Cartridge, Mirroring, TvSystem};

fn cart() -> Cartridge {
    Cartridge {
        prg_rom: vec![0u8; 0x20000],
        chr_rom: vec![0u8; 0x10000],
        chr_ram: false,
        mapper_id: 67,
        submapper: 0,
        mirroring: Mirroring::Vertical,
        battery_backed: false,
        prg_ram_size: 0x2000,
        prg_nvram_size: 0,
        tv_system: TvSystem::Ntsc,
        is_nes2: false,
        prg_chr_crc32: 0,
        db_matched: false,
        fds_data: None,
    }
}

#[test]
fn power_on_state_matches_nrom() {
    let m = Sunsoft3::new(cart());
    assert_eq!(m.prg_bank, 0);
    assert_eq!(m.chr_banks, [0; 4]);
    assert!(!m.irq_enabled);
    assert!(!m.irq_line);
}

#[test]
fn c800_two_writes_high_then_low() {
    let mut m = Sunsoft3::new(cart());
    m.cpu_write(0xC800, 0x12);
    m.cpu_write(0xC800, 0x34);
    assert_eq!(m.irq_counter, 0x1234);
}

#[test]
fn d800_resets_toggle_and_line() {
    let mut m = Sunsoft3::new(cart());
    m.cpu_write(0xC800, 0xAA);
    assert!(m.irq_toggle);
    m.irq_line = true;
    m.cpu_write(0xD800, 0x10);
    assert!(!m.irq_toggle);
    assert!(!m.irq_line);
    assert!(m.irq_enabled);
}

#[test]
fn underflow_fires_irq_and_disables_counter() {
    let mut m = Sunsoft3::new(cart());
    m.cpu_write(0xC800, 0x00);
    m.cpu_write(0xC800, 0x01);
    m.cpu_write(0xD800, 0x10);
    m.on_cpu_cycle();
    assert!(!m.irq_line);
    assert!(m.irq_enabled);
    m.on_cpu_cycle();
    assert!(m.irq_line);
    assert!(!m.irq_enabled, "counter must disarm itself on underflow");
}

#[test]
fn mirroring_register_decodes_all_four_modes() {
    let mut m = Sunsoft3::new(cart());
    m.cpu_write(0xE800, 0);
    assert_eq!(m.mirroring, Mirroring::Vertical);
    m.cpu_write(0xE800, 1);
    assert_eq!(m.mirroring, Mirroring::Horizontal);
    m.cpu_write(0xE800, 2);
    assert_eq!(m.mirroring, Mirroring::SingleScreenLower);
    m.cpu_write(0xE800, 3);
    assert_eq!(m.mirroring, Mirroring::SingleScreenUpper);
}

#[test]
fn prg_c000_fixed_to_last_bank() {
    let mut prg = vec![0u8; 0x20000];
    prg[0x1FFFF] = 0xAB;
    let cart = Cartridge {
        prg_rom: prg,
        chr_rom: vec![0u8; 0x10000],
        chr_ram: false,
        mapper_id: 67,
        submapper: 0,
        mirroring: Mirroring::Vertical,
        battery_backed: false,
        prg_ram_size: 0x2000,
        prg_nvram_size: 0,
        tv_system: TvSystem::Ntsc,
        is_nes2: false,
        prg_chr_crc32: 0,
        db_matched: false,
        fds_data: None,
    };
    let mut m = Sunsoft3::new(cart);
    m.cpu_write(0xF800, 0);
    assert_eq!(m.cpu_read(0xFFFF), 0xAB);
}
