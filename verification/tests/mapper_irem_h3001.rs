use nes::mapper::Mapper;
use nes::mapper::irem_h3001::IremH3001;
use nes::rom::{Cartridge, Mirroring, TvSystem};

const PRG_BANK_8K: usize = 0x2000;
const CHR_BANK_1K: usize = 0x400;

fn cart() -> Cartridge {
    let mut prg = vec![0u8; 32 * PRG_BANK_8K];
    for bank in 0..32 {
        let base = bank * PRG_BANK_8K;
        prg[base..base + PRG_BANK_8K].fill(bank as u8);
    }
    let mut chr = vec![0u8; 256 * CHR_BANK_1K];
    for bank in 0..256 {
        let base = bank * CHR_BANK_1K;
        chr[base..base + CHR_BANK_1K].fill(bank as u8);
    }
    Cartridge {
        prg_rom: prg,
        chr_rom: chr,
        chr_ram: false,
        mapper_id: 65,
        submapper: 0,
        mirroring: Mirroring::Vertical,
        battery_backed: false,
        prg_ram_size: 0,
        prg_nvram_size: 0,
        tv_system: TvSystem::Ntsc,
        is_nes2: true,
        prg_chr_crc32: 0,
        db_matched: false,
        fds_data: None,
    }
}

#[test]
fn power_on_layout_has_first_two_banks_then_zero_then_last() {
    let m = IremH3001::new(cart());
    assert_eq!(m.cpu_peek(0x8000), 0);
    assert_eq!(m.cpu_peek(0xA000), 1);
    assert_eq!(m.cpu_peek(0xC000), 0);
    assert_eq!(m.cpu_peek(0xE000), 31);
    assert_eq!(m.cpu_peek(0xFFFF), 31);
}

#[test]
fn prg_slot_writes_take_effect() {
    let mut m = IremH3001::new(cart());
    m.cpu_write(0x8000, 0x05);
    m.cpu_write(0xA000, 0x09);
    m.cpu_write(0xC000, 0x10);
    assert_eq!(m.cpu_peek(0x8000), 5);
    assert_eq!(m.cpu_peek(0xA000), 9);
    assert_eq!(m.cpu_peek(0xC000), 16);
    assert_eq!(m.cpu_peek(0xE000), 31);
}

#[test]
fn irem_h3001_chr_regs_select_each_1k_slot_independently() {
    let mut m = IremH3001::new(cart());
    for i in 0..8u8 {
        m.cpu_write(0xB000 | u16::from(i), 0x10 | i);
    }
    for slot in 0..8 {
        let addr = (slot as u16) * 0x0400;
        assert_eq!(m.ppu_read(addr), 0x10 + slot as u8);
    }
}

#[test]
fn mirroring_bit_7_toggles_v_and_h() {
    let mut m = IremH3001::new(cart());
    m.cpu_write(0x9001, 0x00);
    assert_eq!(m.mirroring(), Mirroring::Vertical);
    m.cpu_write(0x9001, 0x80);
    assert_eq!(m.mirroring(), Mirroring::Horizontal);
    m.cpu_write(0x9001, 0x00);
    assert_eq!(m.mirroring(), Mirroring::Vertical);
}

#[test]
fn irq_fires_after_latch_count_cycles() {
    let mut m = IremH3001::new(cart());
    m.cpu_write(0x9005, 0x00);
    m.cpu_write(0x9006, 100);
    m.cpu_write(0x9004, 0);
    m.cpu_write(0x9003, 0x80);
    for _ in 0..99 {
        m.on_cpu_cycle();
        assert!(!m.irq_line());
    }
    m.on_cpu_cycle();
    assert!(m.irq_line(), "IRQ should fire on the 100th cycle");
}

#[test]
fn writing_9003_or_9004_acknowledges_irq() {
    let mut m = IremH3001::new(cart());
    m.cpu_write(0x9006, 1);
    m.cpu_write(0x9004, 0);
    m.cpu_write(0x9003, 0x80);
    m.on_cpu_cycle();
    assert!(m.irq_line());
    m.cpu_write(0x9003, 0x00);
    assert!(!m.irq_line());
    m.cpu_write(0x9006, 1);
    m.cpu_write(0x9004, 0);
    m.cpu_write(0x9003, 0x80);
    m.on_cpu_cycle();
    assert!(m.irq_line());
    m.cpu_write(0x9004, 0);
    assert!(!m.irq_line());
}

#[test]
fn irq_self_disables_after_firing() {
    let mut m = IremH3001::new(cart());
    m.cpu_write(0x9006, 1);
    m.cpu_write(0x9004, 0);
    m.cpu_write(0x9003, 0x80);
    m.on_cpu_cycle();
    assert!(m.irq_line());
    for _ in 0..1000 {
        m.on_cpu_cycle();
    }
    m.cpu_write(0x9003, 0x80);
    assert!(!m.irq_line());
    for _ in 0..1000 {
        m.on_cpu_cycle();
    }
    assert!(!m.irq_line());
}

#[test]
fn irq_latch_split_high_low_writes() {
    let mut m = IremH3001::new(cart());
    m.cpu_write(0x9005, 0x12);
    m.cpu_write(0x9006, 0x34);
    m.cpu_write(0x9004, 0);
    m.cpu_write(0x9003, 0x80);
    for _ in 0..0x1233 {
        m.on_cpu_cycle();
    }
    assert!(!m.irq_line());
    m.on_cpu_cycle();
    assert!(m.irq_line());
}

#[test]
fn disabled_counter_does_not_tick() {
    let mut m = IremH3001::new(cart());
    m.cpu_write(0x9006, 5);
    m.cpu_write(0x9004, 0);
    for _ in 0..100 {
        m.on_cpu_cycle();
    }
    assert!(!m.irq_line());
}

#[test]
fn cpu_write_register_decode_is_strict() {
    let mut m = IremH3001::new(cart());
    m.cpu_write(0x8001, 0x05);
    assert_eq!(m.cpu_peek(0x8000), 0);
    m.cpu_write(0x8000, 0x05);
    assert_eq!(m.cpu_peek(0x8000), 5);
}
