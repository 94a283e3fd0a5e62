use nes::mapper::Mapper;
use nes::mapper::jaleco_jf17::JalecoJf17;
use nes::rom::{Cartridge, Mirroring, TvSystem};

const PRG_BANK_16K: usize = 0x4000;
const CHR_BANK_8K: usize = 0x2000;

fn cart() -> Cartridge {
    let mut prg = vec![0xFFu8; 16 * PRG_BANK_16K];
    for bank in 0..16 {
        prg[bank * PRG_BANK_16K] = bank as u8;
    }
    let mut chr = vec![0xFFu8; 16 * CHR_BANK_8K];
    for bank in 0..16 {
        chr[bank * CHR_BANK_8K] = bank as u8;
    }
    Cartridge {
        prg_rom: prg,
        chr_rom: chr,
        chr_ram: false,
        mapper_id: 72,
        submapper: 0,
        mirroring: Mirroring::Horizontal,
        battery_backed: false,
        prg_ram_size: 0,
        prg_nvram_size: 0,
        tv_system: TvSystem::Ntsc,
        is_nes2: true,
        prg_chr_crc32: 0,
        db_matched: false,
        fds_data: None,
    }
}

#[test]
fn jf17_power_on_layout_is_bank0_then_last() {
    let m = JalecoJf17::new_72(cart());
    assert_eq!(m.cpu_peek(0x8000), 0);
    assert_eq!(m.cpu_peek(0xC000), 15);
}

#[test]
fn jf19_power_on_layout_is_bank0_at_8000_with_switchable_at_c000() {
    let m = JalecoJf17::new_92(cart());
    assert_eq!(m.cpu_peek(0x8000), 0);
    assert_eq!(m.cpu_peek(0xC000), 0);
}

#[test]
fn rising_edge_on_bit_7_latches_new_prg_bank() {
    let mut m = JalecoJf17::new_72(cart());
    m.cpu_write(0xFFFF, 0x85);
    assert_eq!(m.cpu_peek(0x8000), 5);
    m.cpu_write(0xFFFF, 0x83);
    assert_eq!(m.cpu_peek(0x8000), 5, "no rising edge -> no swap");
    m.cpu_write(0xFFFF, 0x03);
    assert_eq!(m.cpu_peek(0x8000), 5, "low gate doesn't change anything");
    m.cpu_write(0xFFFF, 0x87);
    assert_eq!(m.cpu_peek(0x8000), 7);
}

#[test]
fn rising_edge_on_bit_6_latches_new_chr_bank() {
    let mut m = JalecoJf17::new_72(cart());
    m.cpu_write(0xFFFF, 0x46);
    assert_eq!(m.ppu_read(0x0000), 6);
    m.cpu_write(0xFFFF, 0x42);
    assert_eq!(m.ppu_read(0x0000), 6);
    m.cpu_write(0xFFFF, 0x02);
    m.cpu_write(0xFFFF, 0x4B);
    assert_eq!(m.ppu_read(0x0000), 11);
}

#[test]
fn jf19_writes_change_high_slot_only() {
    let mut m = JalecoJf17::new_92(cart());
    m.cpu_write(0xFFFF, 0x83);
    assert_eq!(m.cpu_peek(0x8000), 0);
    assert_eq!(m.cpu_peek(0xC000), 3);
}

#[test]
fn jaleco_jf17_bus_conflict_ands_value_with_rom_byte() {
    let mut m = JalecoJf17::new_72(cart());
    m.cpu_write(0xFFFF, 0x85);
    assert_eq!(m.cpu_peek(0x8000), 5);
    m.cpu_write(0xFFFF, 0x05);
    m.cpu_write(0x8000, 0xC7);
    assert_eq!(m.cpu_peek(0x8000), 5, "AND killed bit 7, no rising edge");
}

#[test]
fn jf19_save_state_rejects_cross_variant_restore() {
    let m92 = JalecoJf17::new_92(cart());
    let snap = m92.save_state_capture().unwrap();
    let mut m72 = JalecoJf17::new_72(cart());
    match m72.save_state_apply(&snap) {
        Err(nes::save_state::SaveStateError::UnsupportedMapper(_)) => {}
        other => panic!("expected UnsupportedMapper, got {other:?}"),
    }
}

#[test]
fn jaleco_jf17_writes_below_8000_are_noop() {
    let mut m = JalecoJf17::new_72(cart());
    m.cpu_write(0x4020, 0xFF);
    m.cpu_write(0x6000, 0x85);
    m.cpu_write(0x7FFF, 0x85);
    assert_eq!(m.cpu_peek(0x8000), 0);
}

#[test]
fn jaleco_jf17_chr_ram_round_trips_when_no_chr_rom() {
    let mut c = cart();
    c.chr_rom = Vec::new();
    c.chr_ram = true;
    let mut m = JalecoJf17::new_72(c);
    m.ppu_write(0x0010, 0x99);
    assert_eq!(m.ppu_read(0x0010), 0x99);
}
