use nes::mapper::Mapper;
use nes::mapper::bandai_fcg::{BandaiFcg, Variant};
use nes::rom::{Cartridge, Mirroring, TvSystem};

const PRG_BANK_16K: usize = 0x4000;
const CHR_BANK_1K: usize = 0x400;

fn tagged_cart(is_nes2: bool, submapper: u8) -> Cartridge {
    let mut prg = vec![0u8; 8 * PRG_BANK_16K];
    for b in 0..8 {
        prg[b * PRG_BANK_16K..(b + 1) * PRG_BANK_16K].fill(b as u8);
    }
    let mut chr = vec![0u8; 64 * CHR_BANK_1K];
    for b in 0..64 {
        chr[b * CHR_BANK_1K..(b + 1) * CHR_BANK_1K].fill(b as u8);
    }
    Cartridge {
        prg_rom: prg,
        chr_rom: chr,
        chr_ram: false,
        mapper_id: 16,
        submapper,
        mirroring: Mirroring::Horizontal,
        battery_backed: false,
        prg_ram_size: 0,
        prg_nvram_size: 0,
        tv_system: TvSystem::Ntsc,
        is_nes2,
        prg_chr_crc32: 0,
        db_matched: false,
        fds_data: None,
    }
}

fn fcg12() -> BandaiFcg {
    BandaiFcg::new(tagged_cart(true, 4), None)
}
fn lz93d50() -> BandaiFcg {
    BandaiFcg::new(tagged_cart(true, 5), None)
}
fn legacy() -> BandaiFcg {
    BandaiFcg::new(tagged_cart(false, 0), None)
}
fn lz93d50_with_24c01() -> BandaiFcg {
    let mut cart = tagged_cart(true, 5);
    cart.battery_backed = true;
    cart.prg_nvram_size = 128;
    BandaiFcg::new(cart, None)
}
fn lz93d50_with_24c02() -> BandaiFcg {
    let mut cart = tagged_cart(true, 5);
    cart.battery_backed = true;
    cart.prg_nvram_size = 256;
    BandaiFcg::new(cart, None)
}
fn sub3_with_24c02() -> BandaiFcg {
    let mut cart = tagged_cart(true, 3);
    cart.battery_backed = true;
    BandaiFcg::new(cart, None)
}
fn legacy_battery() -> BandaiFcg {
    let mut cart = tagged_cart(false, 0);
    cart.battery_backed = true;
    BandaiFcg::new(cart, None)
}

fn mapper_159() -> BandaiFcg {
    let mut cart = tagged_cart(true, 0);
    cart.mapper_id = 159;
    cart.battery_backed = true;
    cart.prg_nvram_size = 128;
    BandaiFcg::new(cart, None)
}

#[test]
fn variant_detected_from_submapper() {
    assert_eq!(fcg12().variant, Variant::Fcg12);
    assert_eq!(lz93d50().variant, Variant::Lz93d50);
    assert_eq!(legacy().variant, Variant::Legacy);
    assert_eq!(sub3_with_24c02().variant, Variant::Lz93d50);
    assert_eq!(
        BandaiFcg::new(tagged_cart(true, 0), None).variant,
        Variant::Legacy
    );
}

#[test]
fn fcg12_never_has_eeprom() {
    let mut cart = tagged_cart(true, 4);
    cart.battery_backed = true;
    cart.prg_nvram_size = 256;
    let m = BandaiFcg::new(cart, None);
    assert!(m.eeprom.is_none());
}

#[test]
fn submapper_3_always_has_24c02() {
    let m = sub3_with_24c02();
    assert_eq!(m.save_data().map(|b| b.len()), Some(256));
}

#[test]
fn submapper_5_picks_chip_from_nvram_size() {
    assert_eq!(lz93d50_with_24c01().save_data().map(|b| b.len()), Some(128));
    assert_eq!(lz93d50_with_24c02().save_data().map(|b| b.len()), Some(256));
    assert!(lz93d50().save_data().is_none());
}

#[test]
fn mapper_159_always_has_24c01_and_lz93d50_variant() {
    let m = mapper_159();
    assert_eq!(m.variant, Variant::Lz93d50);
    assert_eq!(m.save_data().map(|b| b.len()), Some(128));
    let mut cart = tagged_cart(false, 0);
    cart.mapper_id = 159;
    let m2 = BandaiFcg::new(cart, None);
    assert_eq!(m2.save_data().map(|b| b.len()), Some(128));
}

#[test]
fn mapper_159_uses_8000_register_range() {
    let mut m = mapper_159();
    m.cpu_write(0x6008, 4);
    assert_eq!(m.cpu_peek(0x8000), 0);
    m.cpu_write(0x8008, 4);
    assert_eq!(m.cpu_peek(0x8000), 4);
}

#[test]
fn legacy_battery_defaults_to_24c02() {
    assert_eq!(legacy_battery().save_data().map(|b| b.len()), Some(256));
    assert!(legacy().save_data().is_none());
}

#[test]
fn bandai_fcg_prg_default_layout_fixes_last_bank() {
    let m = fcg12();
    assert_eq!(m.cpu_peek(0x8000), 0);
    assert_eq!(m.cpu_peek(0xBFFF), 0);
    assert_eq!(m.cpu_peek(0xC000), 7);
    assert_eq!(m.cpu_peek(0xFFFF), 7);
}

#[test]
fn prg_bank_switches_via_x008() {
    let mut m = fcg12();
    m.cpu_write(0x6008, 3);
    assert_eq!(m.cpu_peek(0x8000), 3);
    m.cpu_write(0x7FF8, 5);
    assert_eq!(m.cpu_peek(0x8000), 5);
}

#[test]
fn prg_bank_masks_and_wraps() {
    let mut m = fcg12();
    m.cpu_write(0x6008, 0xF5);
    assert_eq!(m.cpu_peek(0x8000), 5);
    m.cpu_write(0x6008, 0x0F);
    assert_eq!(m.cpu_peek(0x8000), 7);
}

#[test]
fn chr_regs_map_1kib_windows() {
    let mut m = fcg12();
    for i in 0..8u8 {
        m.cpu_write(0x6000 | i as u16, 10 + i);
    }
    for i in 0..8 {
        let addr = (i as u16) * CHR_BANK_1K as u16;
        assert_eq!(m.ppu_read(addr), 10 + i as u8);
        assert_eq!(m.ppu_read(addr + CHR_BANK_1K as u16 - 1), 10 + i as u8);
    }
}

#[test]
fn chr_bank_selector_is_8_bits() {
    let mut m = fcg12();
    m.cpu_write(0x6000, 0x3F);
    assert_eq!(m.ppu_read(0x0000), 63);
    m.cpu_write(0x6000, 0x7F);
    assert_eq!(m.ppu_read(0x0000), 63);
}

#[test]
fn x009_mirroring_all_four_modes() {
    let mut m = fcg12();
    m.cpu_write(0x6009, 0);
    assert_eq!(m.mirroring(), Mirroring::Vertical);
    m.cpu_write(0x6009, 1);
    assert_eq!(m.mirroring(), Mirroring::Horizontal);
    m.cpu_write(0x6009, 2);
    assert_eq!(m.mirroring(), Mirroring::SingleScreenLower);
    m.cpu_write(0x6009, 3);
    assert_eq!(m.mirroring(), Mirroring::SingleScreenUpper);
}

#[test]
fn fcg12_accepts_writes_at_6000_only() {
    let mut m = fcg12();
    m.cpu_write(0x8008, 4);
    assert_eq!(m.cpu_peek(0x8000), 0);
    m.cpu_write(0x6008, 4);
    assert_eq!(m.cpu_peek(0x8000), 4);
}

#[test]
fn lz93d50_accepts_writes_at_8000_only() {
    let mut m = lz93d50();
    m.cpu_write(0x6008, 4);
    assert_eq!(m.cpu_peek(0x8000), 0);
    m.cpu_write(0x8008, 4);
    assert_eq!(m.cpu_peek(0x8000), 4);
}

#[test]
fn legacy_accepts_writes_at_both_ranges() {
    let mut m = legacy();
    m.cpu_write(0x6008, 2);
    assert_eq!(m.cpu_peek(0x8000), 2);
    m.cpu_write(0x8008, 5);
    assert_eq!(m.cpu_peek(0x8000), 5);
}

#[test]
fn register_decodes_by_low_4_bits_of_address() {
    let mut m = fcg12();
    m.cpu_write(0x600A, 1);
    m.cpu_write(0x6ECB, 0x34);
    m.cpu_write(0x7FEC, 0x12);
    assert_eq!(m.irq_counter, 0x1234);
}

#[test]
fn irq_does_not_tick_when_disabled() {
    let mut m = fcg12();
    m.cpu_write(0x600B, 0x10);
    for _ in 0..100 {
        m.on_cpu_cycle();
    }
    assert_eq!(m.irq_counter, 0x0010);
    assert!(!m.irq_line());
}

#[test]
fn fcg12_irq_fires_n_plus_1_cycles_after_enable() {
    let mut m = fcg12();
    m.cpu_write(0x600B, 3);
    m.cpu_write(0x600C, 0);
    m.cpu_write(0x600A, 1);
    for i in 1..=3 {
        m.on_cpu_cycle();
        assert!(!m.irq_line(), "fired early at cycle {i}");
    }
    m.on_cpu_cycle();
    assert!(m.irq_line());
    assert_eq!(m.irq_counter, 0xFFFF);
}

#[test]
fn lz93d50_x00a_copies_latch_to_counter() {
    let mut m = lz93d50();
    m.cpu_write(0x800B, 0x05);
    m.cpu_write(0x800C, 0x00);
    assert_eq!(m.irq_counter, 0);
    m.cpu_write(0x800A, 1);
    assert_eq!(m.irq_counter, 5);
}

#[test]
fn fcg12_x00a_does_not_copy_latch() {
    let mut m = fcg12();
    m.cpu_write(0x600B, 0x05);
    m.cpu_write(0x600C, 0x00);
    assert_eq!(m.irq_counter, 5);
    m.cpu_write(0x600A, 1);
    assert_eq!(m.irq_counter, 5);
}

#[test]
fn x00a_write_acknowledges_pending_irq() {
    let mut m = fcg12();
    m.cpu_write(0x600B, 0);
    m.cpu_write(0x600A, 1);
    m.on_cpu_cycle();
    assert!(m.irq_line());
    m.cpu_write(0x600A, 1);
    assert!(!m.irq_line());
}

#[test]
fn x00a_disable_acknowledges_and_stops_ticking() {
    let mut m = fcg12();
    m.cpu_write(0x600B, 0);
    m.cpu_write(0x600A, 1);
    m.on_cpu_cycle();
    assert!(m.irq_line());
    m.cpu_write(0x600A, 0);
    assert!(!m.irq_line());
    for _ in 0..10 {
        m.on_cpu_cycle();
    }
    assert!(!m.irq_line());
}

#[test]
fn irq_does_not_refire_after_single_wrap() {
    let mut m = fcg12();
    m.cpu_write(0x600B, 1);
    m.cpu_write(0x600A, 1);
    m.on_cpu_cycle();
    m.on_cpu_cycle();
    assert!(m.irq_line());
    m.cpu_write(0x600A, 1);
    for _ in 0..100 {
        m.on_cpu_cycle();
        assert!(!m.irq_line());
    }
}

#[test]
fn non_eeprom_cart_reads_return_zero_at_6000() {
    let m = fcg12();
    assert_eq!(m.cpu_peek(0x6000), 0);
    assert_eq!(m.cpu_peek(0x7FFF), 0);
}

#[test]
fn eeprom_read_surfaces_sda_output_in_bit_4() {
    let mut m = lz93d50_with_24c02();
    assert_eq!(m.cpu_peek(0x6000), 0x10);
    m.cpu_write(0x800D, 0b0110_0000);
    m.cpu_write(0x800D, 0b0100_0000);
    assert_eq!(m.cpu_peek(0x6000), 0x10);
}

#[test]
fn eeprom_write_then_read_via_bus() {
    let mut m = lz93d50_with_24c02();

    fn pulse(m: &mut BandaiFcg, sda: u8) {
        m.cpu_write(0x800D, (sda << 6));
        m.cpu_write(0x800D, (1 << 5) | (sda << 6));
    }
    fn start(m: &mut BandaiFcg) {
        m.cpu_write(0x800D, 0);
        m.cpu_write(0x800D, 1 << 6);
        m.cpu_write(0x800D, (1 << 5) | (1 << 6));
        m.cpu_write(0x800D, 1 << 5);
    }
    fn stop(m: &mut BandaiFcg) {
        m.cpu_write(0x800D, 0);
        m.cpu_write(0x800D, 1 << 5);
        m.cpu_write(0x800D, (1 << 5) | (1 << 6));
    }
    fn send_byte(m: &mut BandaiFcg, b: u8) {
        for i in 0..8 {
            pulse(m, (b >> (7 - i)) & 1);
        }
    }

    start(&mut m);
    send_byte(&mut m, 0xA0);
    pulse(&mut m, 0);
    send_byte(&mut m, 0x40);
    pulse(&mut m, 0);
    send_byte(&mut m, 0x77);
    pulse(&mut m, 0);
    stop(&mut m);

    assert_eq!(m.save_data().unwrap()[0x40], 0x77);
    assert!(m.save_dirty());
}

#[test]
fn load_save_data_roundtrip() {
    let mut m = lz93d50_with_24c02();
    let mut snapshot = vec![0u8; 256];
    snapshot[0] = 0xDE;
    snapshot[255] = 0xAD;
    m.load_save_data(&snapshot);
    let read_back = m.save_data().unwrap();
    assert_eq!(read_back[0], 0xDE);
    assert_eq!(read_back[255], 0xAD);
}

#[test]
fn mark_saved_clears_dirty() {
    let mut m = lz93d50_with_24c02();
    m.cpu_write(0x800D, 0b0110_0000);
    assert!(m.save_dirty());
    m.mark_saved();
    assert!(!m.save_dirty());
}

#[test]
fn non_eeprom_cart_never_reports_dirty() {
    let mut m = fcg12();
    m.cpu_write(0x600D, 0x60);
    assert!(!m.save_dirty());
    assert!(m.save_data().is_none());
}

#[test]
fn cpu_writes_below_register_range_are_dropped() {
    let mut m = fcg12();
    m.cpu_write(0x4020, 0xFF);
    m.cpu_write(0x5FFF, 0xFF);
    assert_eq!(m.cpu_peek(0x8000), 0);
    assert_eq!(m.mirroring(), Mirroring::Horizontal);
}
