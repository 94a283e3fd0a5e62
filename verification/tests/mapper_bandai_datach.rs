use nes::mapper::Mapper;
use nes::mapper::bandai_datach::BandaiDatach;
use nes::rom::{Cartridge, Mirroring, TvSystem};

const PRG_BANK_16K: usize = 0x4000;
const STANDARD_EEPROM_SIZE: usize = 256;
const EXTRA_EEPROM_SIZE: usize = 128;

fn cart() -> Cartridge {
    let mut prg = vec![0u8; 16 * PRG_BANK_16K];
    for b in 0..16 {
        prg[b * PRG_BANK_16K] = 0x10 + b as u8;
    }
    Cartridge {
        prg_rom: prg,
        chr_rom: vec![],
        chr_ram: true,
        mapper_id: 157,
        submapper: 0,
        mirroring: Mirroring::Horizontal,
        battery_backed: true,
        prg_ram_size: 0,
        prg_nvram_size: 0,
        tv_system: TvSystem::Ntsc,
        is_nes2: true,
        prg_chr_crc32: 0,
        db_matched: false,
        fds_data: None,
    }
}

fn cart_with_extra() -> Cartridge {
    let mut c = cart();
    c.prg_nvram_size = 128;
    c
}

#[test]
fn power_on_layout_fixes_last_bank() {
    let m = BandaiDatach::new(cart());
    assert_eq!(m.cpu_peek(0x8000), 0x10);
    assert_eq!(m.cpu_peek(0xC000), 0x10 + 15);
}

#[test]
fn x008_writes_select_prg_bank() {
    let mut m = BandaiDatach::new(cart());
    m.cpu_write(0x8008, 0x05);
    assert_eq!(m.cpu_peek(0x8000), 0x10 + 5);
    assert_eq!(m.cpu_peek(0xC000), 0x10 + 15);
}

#[test]
fn x009_writes_select_mirroring() {
    let mut m = BandaiDatach::new(cart());
    m.cpu_write(0x8009, 0);
    assert_eq!(m.mirroring(), Mirroring::Vertical);
    m.cpu_write(0x8009, 1);
    assert_eq!(m.mirroring(), Mirroring::Horizontal);
    m.cpu_write(0x8009, 2);
    assert_eq!(m.mirroring(), Mirroring::SingleScreenLower);
    m.cpu_write(0x8009, 3);
    assert_eq!(m.mirroring(), Mirroring::SingleScreenUpper);
}

#[test]
fn chr_reg_writes_do_not_bank_chr() {
    let mut m = BandaiDatach::new(cart());
    m.ppu_write(0x0000, 0x42);
    m.ppu_write(0x0400, 0x99);
    m.cpu_write(0x8000, 0xFF);
    m.cpu_write(0x8001, 0xFF);
    m.cpu_write(0x8004, 0xFF);
    m.cpu_write(0x8007, 0xFF);
    assert_eq!(m.ppu_read(0x0000), 0x42);
    assert_eq!(m.ppu_read(0x0400), 0x99);
}

#[test]
fn no_extra_eeprom_means_save_data_holds_only_256_bytes() {
    let m = BandaiDatach::new(cart());
    let mut m = m;
    m.mark_saved();
    let data = m.save_data().unwrap();
    assert_eq!(data.len(), STANDARD_EEPROM_SIZE);
}

#[test]
fn extra_eeprom_present_means_save_data_is_384_bytes() {
    let mut m = BandaiDatach::new(cart_with_extra());
    m.mark_saved();
    let data = m.save_data().unwrap();
    assert_eq!(data.len(), STANDARD_EEPROM_SIZE + EXTRA_EEPROM_SIZE);
}

#[test]
fn load_save_data_with_combined_blob_routes_into_both_eeproms() {
    let mut m = BandaiDatach::new(cart_with_extra());
    let blob_len = STANDARD_EEPROM_SIZE + EXTRA_EEPROM_SIZE;
    let mut blob = vec![0u8; blob_len];
    blob[0] = 0xDE;
    blob[STANDARD_EEPROM_SIZE - 1] = 0xAD;
    blob[STANDARD_EEPROM_SIZE] = 0xBE;
    blob[blob_len - 1] = 0xEF;
    m.load_save_data(&blob);
    let data = m.save_data().unwrap();
    let data_len = data.len();
    assert_eq!(data[0], 0xDE);
    assert_eq!(data[STANDARD_EEPROM_SIZE - 1], 0xAD);
    assert_eq!(data[STANDARD_EEPROM_SIZE], 0xBE);
    assert_eq!(data[data_len - 1], 0xEF);
}

#[test]
fn load_save_data_with_256_bytes_loads_only_standard() {
    let mut m = BandaiDatach::new(cart_with_extra());
    let mut blob = vec![0u8; STANDARD_EEPROM_SIZE];
    blob[0] = 0xAA;
    m.load_save_data(&blob);
    let data = m.save_data().unwrap();
    assert_eq!(data[0], 0xAA);
    assert_eq!(data[STANDARD_EEPROM_SIZE], 0);
}

#[test]
fn lz93d50_irq_fires_n_plus_1_cycles_after_enable() {
    let mut m = BandaiDatach::new(cart());
    m.cpu_write(0x800B, 3);
    m.cpu_write(0x800C, 0);
    m.cpu_write(0x800A, 1);
    for i in 1..=3 {
        m.on_cpu_cycle();
        assert!(!m.irq_line(), "fired early at {i}");
    }
    m.on_cpu_cycle();
    assert!(m.irq_line());
    assert_eq!(m.irq_counter, 0xFFFF);
}

#[test]
fn x00d_drives_standard_24c02_pins() {
    let mut m = BandaiDatach::new(cart());
    m.cpu_write(0x800D, 0b0110_0000);
    m.cpu_write(0x800D, 0b0100_0000);
    assert_eq!(m.cpu_peek(0x6000), 0x10);
}

#[test]
fn extra_eeprom_scl_driven_by_chr_reg_bit_3() {
    let mut m = BandaiDatach::new(cart_with_extra());
    m.cpu_write(0x8000, 0x08);
    assert!(m.save_dirty(), "extra EEPROM SCL drive should mark dirty");
}

#[test]
fn save_state_round_trips_full_mapper_state() {
    let mut a = BandaiDatach::new(cart_with_extra());
    a.cpu_write(0x8008, 0x07);
    a.cpu_write(0x8009, 2);
    a.cpu_write(0x800B, 0x40);
    a.cpu_write(0x800C, 0x02);
    a.cpu_write(0x800A, 1);
    let snap = a.save_state_capture().unwrap();

    let mut b = BandaiDatach::new(cart_with_extra());
    b.save_state_apply(&snap).unwrap();
    assert_eq!(b.cpu_peek(0x8000), 0x10 + 7);
    assert_eq!(b.mirroring(), Mirroring::SingleScreenLower);
    assert_eq!(b.irq_counter, 0x0240);
    assert!(b.irq_enabled);
}
