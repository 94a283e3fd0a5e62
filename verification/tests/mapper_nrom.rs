use nes::mapper::Mapper;
use nes::mapper::nrom::Nrom;
use nes::rom::{Cartridge, Mirroring, TvSystem};

fn cart(battery: bool) -> Cartridge {
    Cartridge {
        prg_rom: vec![0u8; 0x8000],
        chr_rom: vec![0u8; 0x2000],
        chr_ram: false,
        mapper_id: 0,
        submapper: 0,
        mirroring: Mirroring::Vertical,
        battery_backed: battery,
        prg_ram_size: if battery { 0 } else { 0x2000 },
        prg_nvram_size: if battery { 0x2000 } else { 0 },
        tv_system: TvSystem::Ntsc,
        is_nes2: false,
        prg_chr_crc32: 0,
        db_matched: false,
        fds_data: None,
    }
}

#[test]
fn non_battery_cart_has_no_save_data() {
    let m = Nrom::new(cart(false));
    assert!(m.save_data().is_none());
    assert!(!m.save_dirty());
}

#[test]
fn write_sets_dirty_and_save_roundtrip_restores_ram() {
    let mut m = Nrom::new(cart(true));
    assert!(m.save_data().is_some());
    assert!(!m.save_dirty());

    for i in 0..0x10 {
        m.cpu_write(0x6000 + i, 0xA0 ^ i as u8);
    }
    assert!(m.save_dirty());

    let snapshot = m.save_data().unwrap().to_vec();
    m.mark_saved();
    assert!(!m.save_dirty());

    let mut fresh = Nrom::new(cart(true));
    fresh.load_save_data(&snapshot);
    for i in 0..0x10 {
        assert_eq!(fresh.cpu_read(0x6000 + i), 0xA0 ^ i as u8);
    }
    assert!(!fresh.save_dirty());
}

#[test]
fn load_with_wrong_size_is_ignored() {
    let mut m = Nrom::new(cart(true));
    m.cpu_write(0x6000, 0x42);
    m.mark_saved();
    m.load_save_data(&[0xFF; 16]);
    assert_eq!(m.cpu_read(0x6000), 0x42, "short slice must not overwrite");
}

#[test]
fn redundant_write_does_not_set_dirty() {
    let mut m = Nrom::new(cart(true));
    m.cpu_write(0x6000, 0x77);
    m.mark_saved();
    assert!(!m.save_dirty());
    m.cpu_write(0x6000, 0x77);
    assert!(!m.save_dirty(), "same-value write must not re-dirty");
}
