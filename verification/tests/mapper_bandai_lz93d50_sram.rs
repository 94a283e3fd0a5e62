use nes::mapper::Mapper;
use nes::mapper::bandai_lz93d50_sram::BandaiLz93d50Sram;
use nes::rom::{Cartridge, Mirroring, TvSystem};

const PRG_BANK_16K: usize = 0x4000;

fn cart() -> Cartridge {
    let mut prg = vec![0xFFu8; 32 * PRG_BANK_16K];
    for bank in 0..32 {
        prg[bank * PRG_BANK_16K] = bank as u8;
    }
    Cartridge {
        prg_rom: prg,
        chr_rom: Vec::new(),
        chr_ram: true,
        mapper_id: 153,
        submapper: 0,
        mirroring: Mirroring::Vertical,
        battery_backed: true,
        prg_ram_size: 0,
        prg_nvram_size: 0x2000,
        tv_system: TvSystem::Ntsc,
        is_nes2: true,
        prg_chr_crc32: 0,
        db_matched: false,
        fds_data: None,
    }
}

#[test]
fn boot_state_lower_half_first_bank_at_8000() {
    let m = BandaiLz93d50Sram::new(cart());
    assert_eq!(m.cpu_peek(0x8000), 0);
    assert_eq!(m.cpu_peek(0xC000), 15);
}

#[test]
fn x008_writes_set_inner_prg_page() {
    let mut m = BandaiLz93d50Sram::new(cart());
    m.cpu_write(0x8008, 0x05);
    assert_eq!(m.cpu_peek(0x8000), 5);
    m.cpu_write(0xE008, 0x0F);
    assert_eq!(m.cpu_peek(0x8000), 15);
    m.cpu_write(0x8008, 0xFC);
    assert_eq!(m.cpu_peek(0x8000), 12);
}

#[test]
fn chr_register_bit0_drives_prg_outer() {
    let mut m = BandaiLz93d50Sram::new(cart());
    m.cpu_write(0x8008, 0x03);
    assert_eq!(m.cpu_peek(0x8000), 3);
    m.cpu_write(0x8000, 0x01);
    assert_eq!(m.cpu_peek(0x8000), 19);
    assert_eq!(m.cpu_peek(0xC000), 31);
    for r in 0..8 {
        m.cpu_write(0x8000 + r, 0x00);
    }
    assert_eq!(m.cpu_peek(0x8000), 3);
    assert_eq!(m.cpu_peek(0xC000), 15);
    m.cpu_write(0x8003, 0x01);
    m.cpu_write(0x8005, 0x01);
    assert_eq!(m.cpu_peek(0x8000), 19);
    m.cpu_write(0x8003, 0x00);
    assert_eq!(m.cpu_peek(0x8000), 19);
    m.cpu_write(0x8005, 0x00);
    assert_eq!(m.cpu_peek(0x8000), 3);
}

#[test]
fn x009_drives_mirroring() {
    let mut m = BandaiLz93d50Sram::new(cart());
    m.cpu_write(0x8009, 0x00);
    assert_eq!(m.mirroring(), Mirroring::Vertical);
    m.cpu_write(0x8009, 0x01);
    assert_eq!(m.mirroring(), Mirroring::Horizontal);
    m.cpu_write(0x8009, 0x02);
    assert_eq!(m.mirroring(), Mirroring::SingleScreenLower);
    m.cpu_write(0x8009, 0x03);
    assert_eq!(m.mirroring(), Mirroring::SingleScreenUpper);
}

#[test]
fn irq_counter_reload_and_fire() {
    let mut m = BandaiLz93d50Sram::new(cart());
    m.cpu_write(0x800B, 0x05);
    m.cpu_write(0x800C, 0x00);
    m.cpu_write(0x800A, 0x01);
    assert_eq!(m.irq_counter, 5);
    for _ in 0..5 {
        assert!(!m.irq_line());
        m.on_cpu_cycle();
    }
    assert!(!m.irq_line());
    m.on_cpu_cycle();
    assert!(m.irq_line());
    m.cpu_write(0x800A, 0x00);
    assert!(!m.irq_line());
}

#[test]
fn x00d_gates_sram_access() {
    let mut m = BandaiLz93d50Sram::new(cart());
    m.cpu_write(0x6100, 0xAB);
    assert_eq!(m.cpu_peek(0x6100), 0xAB);
    m.cpu_write(0x800D, 0x00);
    assert_eq!(m.cpu_peek(0x6100), 0);
    m.cpu_write(0x6100, 0xCD);
    m.cpu_write(0x800D, 0x20);
    assert_eq!(m.cpu_peek(0x6100), 0xAB);
}

#[test]
fn save_data_round_trips_battery_sram() {
    let mut m = BandaiLz93d50Sram::new(cart());
    m.cpu_write(0x6000, 0x42);
    m.cpu_write(0x7FFF, 0x99);
    assert!(m.save_dirty());
    let saved = m.save_data().unwrap().to_vec();
    let mut fresh = BandaiLz93d50Sram::new(cart());
    fresh.load_save_data(&saved);
    assert_eq!(fresh.cpu_peek(0x6000), 0x42);
    assert_eq!(fresh.cpu_peek(0x7FFF), 0x99);
}

#[test]
fn bandai_lz93d50_sram_save_state_round_trip() {
    let mut m = BandaiLz93d50Sram::new(cart());
    m.cpu_write(0x8008, 0x07);
    m.cpu_write(0x8003, 0x01);
    m.cpu_write(0x8009, 0x01);
    m.cpu_write(0x800B, 0x10);
    m.cpu_write(0x800C, 0x20);
    m.cpu_write(0x800A, 0x01);
    m.cpu_write(0x6000, 0xAA);
    m.ppu_write(0x0042, 0xBB);
    let snap = m.save_state_capture().unwrap();
    let mut fresh = BandaiLz93d50Sram::new(cart());
    fresh.save_state_apply(&snap).unwrap();
    assert_eq!(fresh.cpu_peek(0x8000), 23);
    assert_eq!(fresh.mirroring(), Mirroring::Horizontal);
    assert_eq!(fresh.irq_counter, 0x2010);
    assert!(fresh.irq_enabled);
    assert_eq!(fresh.cpu_peek(0x6000), 0xAA);
    assert_eq!(fresh.ppu_read(0x0042), 0xBB);
}
