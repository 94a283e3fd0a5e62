use nes::mapper::Mapper;
use nes::mapper::jaleco_ss88006::JalecoSs88006;
use nes::rom::{Cartridge, Mirroring, TvSystem};

const PRG_BANK_8K: usize = 0x2000;
const CHR_BANK_1K: usize = 0x400;
const PRG_RAM_SIZE: usize = 0x2000;

fn tagged_cart() -> Cartridge {
    let mut prg = vec![0u8; 32 * PRG_BANK_8K];
    for b in 0..32 {
        prg[b * PRG_BANK_8K..(b + 1) * PRG_BANK_8K].fill(b as u8);
    }
    let mut chr = vec![0u8; 256 * CHR_BANK_1K];
    for b in 0..256 {
        chr[b * CHR_BANK_1K..(b + 1) * CHR_BANK_1K].fill(b as u8);
    }
    Cartridge {
        prg_rom: prg,
        chr_rom: chr,
        chr_ram: false,
        mapper_id: 18,
        submapper: 0,
        mirroring: Mirroring::Horizontal,
        battery_backed: false,
        prg_ram_size: 0,
        prg_nvram_size: 0,
        tv_system: TvSystem::Ntsc,
        is_nes2: false,
        prg_chr_crc32: 0,
        db_matched: false,
        fds_data: None,
    }
}

fn battery_cart() -> Cartridge {
    let mut cart = tagged_cart();
    cart.battery_backed = true;
    cart
}

#[test]
fn jaleco_ss88006_prg_default_layout_fixes_last_bank() {
    let m = JalecoSs88006::new(tagged_cart());
    assert_eq!(m.cpu_peek(0x8000), 0);
    assert_eq!(m.cpu_peek(0xA000), 0);
    assert_eq!(m.cpu_peek(0xC000), 0);
    assert_eq!(m.cpu_peek(0xE000), 31);
    assert_eq!(m.cpu_peek(0xFFFF), 31);
}

#[test]
fn prg_bank_0_assembled_from_two_nibble_writes() {
    let mut m = JalecoSs88006::new(tagged_cart());
    m.cpu_write(0x8000, 0x0A);
    m.cpu_write(0x8001, 0x01);
    assert_eq!(m.cpu_peek(0x8000), 26);
    assert_eq!(m.cpu_peek(0xA000), 0);
    assert_eq!(m.cpu_peek(0xC000), 0);
}

#[test]
fn prg_bank_1_and_2_independent() {
    let mut m = JalecoSs88006::new(tagged_cart());
    m.cpu_write(0x8002, 0x05);
    m.cpu_write(0x8003, 0x00);
    m.cpu_write(0x9000, 0x0C);
    m.cpu_write(0x9001, 0x00);
    assert_eq!(m.cpu_peek(0x8000), 0);
    assert_eq!(m.cpu_peek(0xA000), 5);
    assert_eq!(m.cpu_peek(0xC000), 12);
    assert_eq!(m.cpu_peek(0xE000), 31);
}

#[test]
fn prg_nibble_writes_only_use_low_4_bits_of_data() {
    let mut m = JalecoSs88006::new(tagged_cart());
    m.cpu_write(0x8000, 0xF5);
    m.cpu_write(0x8001, 0xFA);
    assert_eq!(m.cpu_peek(0x8000), 5);
}

#[test]
fn prg_register_decoded_by_f003_mask() {
    let mut m = JalecoSs88006::new(tagged_cart());
    m.cpu_write(0x8F00, 0x07);
    m.cpu_write(0x8FF1, 0x00);
    assert_eq!(m.cpu_peek(0x8000), 7);
}

#[test]
fn chr_banks_assembled_independently() {
    let mut m = JalecoSs88006::new(tagged_cart());
    let bank_reg_pairs = [
        (0xA000u16, 0xA001u16, 0),
        (0xA002, 0xA003, 1),
        (0xB000, 0xB001, 2),
        (0xB002, 0xB003, 3),
        (0xC000, 0xC001, 4),
        (0xC002, 0xC003, 5),
        (0xD000, 0xD001, 6),
        (0xD002, 0xD003, 7),
    ];
    for (i, &(lo, hi, bank_idx)) in bank_reg_pairs.iter().enumerate() {
        let value = 10 + i as u8;
        m.cpu_write(lo, value & 0x0F);
        m.cpu_write(hi, (value >> 4) & 0x0F);
        let addr = (bank_idx as u16) * CHR_BANK_1K as u16;
        assert_eq!(
            m.ppu_read(addr),
            value,
            "CHR bank {bank_idx} (regs ${:04X}/${:04X}) should read {value}",
            lo,
            hi
        );
    }
}

#[test]
fn chr_bank_selector_is_full_8_bits() {
    let mut m = JalecoSs88006::new(tagged_cart());
    m.cpu_write(0xA000, 0x0F);
    m.cpu_write(0xA001, 0x0F);
    assert_eq!(m.ppu_read(0x0000), 255);
}

#[test]
fn f002_mirroring_all_four_modes() {
    let mut m = JalecoSs88006::new(tagged_cart());
    m.cpu_write(0xF002, 0);
    assert_eq!(m.mirroring(), Mirroring::Horizontal);
    m.cpu_write(0xF002, 1);
    assert_eq!(m.mirroring(), Mirroring::Vertical);
    m.cpu_write(0xF002, 2);
    assert_eq!(m.mirroring(), Mirroring::SingleScreenLower);
    m.cpu_write(0xF002, 3);
    assert_eq!(m.mirroring(), Mirroring::SingleScreenUpper);
}

#[test]
fn irq_reload_value_assembled_from_four_nibbles() {
    let mut m = JalecoSs88006::new(tagged_cart());
    m.cpu_write(0xE000, 0x0D);
    m.cpu_write(0xE001, 0x0E);
    m.cpu_write(0xE002, 0x0A);
    m.cpu_write(0xE003, 0x0B);
    m.cpu_write(0xF000, 0);
    assert_eq!(m.irq_counter, 0xBAED);
}

#[test]
fn f001_does_not_reload_counter() {
    let mut m = JalecoSs88006::new(tagged_cart());
    m.cpu_write(0xE000, 3);
    m.cpu_write(0xF000, 0);
    assert_eq!(m.irq_counter, 3);
    m.cpu_write(0xF001, 0x01);
    assert_eq!(m.irq_counter, 3, "$F001 must not reload");
}

#[test]
fn irq_fires_exactly_n_cycles_after_enable() {
    let mut m = JalecoSs88006::new(tagged_cart());
    m.cpu_write(0xE000, 3);
    m.cpu_write(0xF000, 0);
    m.cpu_write(0xF001, 0x01);
    for i in 1..=2 {
        m.on_cpu_cycle();
        assert!(!m.irq_line(), "fired early at cycle {i}");
    }
    m.on_cpu_cycle();
    assert!(m.irq_line(), "must fire on cycle N");
}

#[test]
fn irq_disabled_does_not_tick_or_fire() {
    let mut m = JalecoSs88006::new(tagged_cart());
    m.cpu_write(0xE000, 1);
    m.cpu_write(0xF000, 0);
    for _ in 0..100 {
        m.on_cpu_cycle();
    }
    assert_eq!(m.irq_counter, 1);
    assert!(!m.irq_line());
}

#[test]
fn irq_8_bit_counter_wraps_within_low_byte() {
    let mut m = JalecoSs88006::new(tagged_cart());
    m.cpu_write(0xE000, 0x05);
    m.cpu_write(0xE001, 0x00);
    m.cpu_write(0xE002, 0x0B);
    m.cpu_write(0xE003, 0x0A);
    m.cpu_write(0xF000, 0);
    m.cpu_write(0xF001, 0x01 | 0x04);

    for _ in 0..4 {
        m.on_cpu_cycle();
    }
    assert_eq!(m.irq_counter & 0x00FF, 1);
    assert_eq!(m.irq_counter & 0xFF00, 0xAB00);
    assert!(!m.irq_line());
    m.on_cpu_cycle();
    assert!(m.irq_line());
    assert_eq!(m.irq_counter & 0xFF00, 0xAB00);
}

#[test]
fn irq_4_bit_counter_mode() {
    let mut m = JalecoSs88006::new(tagged_cart());
    m.cpu_write(0xE000, 0x02);
    m.cpu_write(0xF000, 0);
    m.cpu_write(0xF001, 0x01 | 0x08);
    m.on_cpu_cycle();
    assert!(!m.irq_line());
    m.on_cpu_cycle();
    assert!(m.irq_line());
}

#[test]
fn irq_12_bit_counter_mode() {
    let mut m = JalecoSs88006::new(tagged_cart());
    m.cpu_write(0xE000, 0x03);
    m.cpu_write(0xF000, 0);
    m.cpu_write(0xF001, 0x01 | 0x02);
    for _ in 0..2 {
        m.on_cpu_cycle();
    }
    assert!(!m.irq_line());
    m.on_cpu_cycle();
    assert!(m.irq_line());
}

#[test]
fn irq_smallest_counter_wins_when_multiple_size_bits_set() {
    let mut m = JalecoSs88006::new(tagged_cart());
    m.cpu_write(0xE000, 0x01);
    m.cpu_write(0xF000, 0);
    m.cpu_write(0xF001, 0x01 | 0x02 | 0x04 | 0x08);
    m.on_cpu_cycle();
    assert!(m.irq_line());
}

#[test]
fn f000_write_acknowledges_pending_irq() {
    let mut m = JalecoSs88006::new(tagged_cart());
    m.cpu_write(0xE000, 1);
    m.cpu_write(0xF000, 0);
    m.cpu_write(0xF001, 0x01);
    m.on_cpu_cycle();
    assert!(m.irq_line());
    m.cpu_write(0xF000, 0);
    assert!(!m.irq_line());
}

#[test]
fn f001_write_acknowledges_pending_irq() {
    let mut m = JalecoSs88006::new(tagged_cart());
    m.cpu_write(0xE000, 1);
    m.cpu_write(0xF000, 0);
    m.cpu_write(0xF001, 0x01);
    m.on_cpu_cycle();
    assert!(m.irq_line());
    m.cpu_write(0xF001, 0x00);
    assert!(!m.irq_line());
}

#[test]
fn irq_wraps_and_keeps_counting_at_zero() {
    let mut m = JalecoSs88006::new(tagged_cart());
    m.cpu_write(0xE000, 1);
    m.cpu_write(0xF000, 0);
    m.cpu_write(0xF001, 0x01 | 0x08);
    m.on_cpu_cycle();
    assert!(m.irq_line());
    m.cpu_write(0xF001, 0x01 | 0x08);
    assert!(!m.irq_line());
    for _ in 0..15 {
        m.on_cpu_cycle();
    }
    assert!(!m.irq_line(), "mid-wrap should not fire");
    m.on_cpu_cycle();
    assert!(m.irq_line(), "fires again after full wrap");
}

#[test]
fn prg_ram_roundtrip_at_6000_7fff() {
    let mut m = JalecoSs88006::new(tagged_cart());
    m.cpu_write(0x6000, 0xAB);
    m.cpu_write(0x7FFF, 0xCD);
    assert_eq!(m.cpu_peek(0x6000), 0xAB);
    assert_eq!(m.cpu_peek(0x7FFF), 0xCD);
}

#[test]
fn non_battery_cart_exposes_no_save_data() {
    let m = JalecoSs88006::new(tagged_cart());
    assert!(m.save_data().is_none());
    assert!(!m.save_dirty());
}

#[test]
fn battery_cart_exposes_8kib_save_data() {
    let mut m = JalecoSs88006::new(battery_cart());
    assert_eq!(m.save_data().map(|s| s.len()), Some(PRG_RAM_SIZE));
    assert!(!m.save_dirty());
    m.cpu_write(0x6000, 0x42);
    assert!(m.save_dirty());
    m.mark_saved();
    assert!(!m.save_dirty());
}

#[test]
fn battery_load_save_data_roundtrip() {
    let mut m = JalecoSs88006::new(battery_cart());
    let mut snapshot = vec![0u8; PRG_RAM_SIZE];
    snapshot[0] = 0x11;
    snapshot[PRG_RAM_SIZE - 1] = 0x22;
    m.load_save_data(&snapshot);
    assert_eq!(m.cpu_peek(0x6000), 0x11);
    assert_eq!(m.cpu_peek(0x7FFF), 0x22);
}

#[test]
fn non_battery_write_does_not_dirty_save() {
    let mut m = JalecoSs88006::new(tagged_cart());
    m.cpu_write(0x6000, 0xAA);
    assert_eq!(m.cpu_peek(0x6000), 0xAA);
    assert!(!m.save_dirty());
}

#[test]
fn cpu_writes_below_6000_are_dropped() {
    let mut m = JalecoSs88006::new(tagged_cart());
    m.cpu_write(0x4020, 0xFF);
    m.cpu_write(0x5FFF, 0xFF);
    assert_eq!(m.cpu_peek(0x8000), 0);
    assert_eq!(m.mirroring(), Mirroring::Horizontal);
}

#[test]
fn f003_expansion_audio_is_silently_dropped() {
    let mut m = JalecoSs88006::new(tagged_cart());
    m.cpu_write(0xE000, 5);
    m.cpu_write(0xF003, 0xFF);
    assert_eq!(m.irq_reload[0], 5);
    assert!(!m.irq_enabled);
}
