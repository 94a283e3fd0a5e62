use nes::mapper::Mapper;
use nes::mapper::nes_event::Mapper105;
use nes::rom::{Cartridge, Mirroring, TvSystem};

const PRG_BANK_16K: usize = 0x4000;

fn cart() -> Cartridge {
    let mut prg = vec![0u8; 16 * PRG_BANK_16K];
    for b in 0..16 {
        prg[b * PRG_BANK_16K] = 0x10 + b as u8;
    }
    Cartridge {
        prg_rom: prg,
        chr_rom: vec![],
        chr_ram: true,
        mapper_id: 105,
        submapper: 0,
        mirroring: Mirroring::Horizontal,
        battery_backed: false,
        prg_ram_size: 0x2000,
        prg_nvram_size: 0,
        tv_system: TvSystem::Ntsc,
        is_nes2: false,
        prg_chr_crc32: 0,
        db_matched: false,
        fds_data: None,
    }
}

fn m() -> Mapper105 {
    Mapper105::new(cart())
}

fn shift_in(m: &mut Mapper105, addr: u16, value: u8) {
    for i in 0..5 {
        let bit = (value >> i) & 1;
        m.cpu_write(addr, bit);
        m.on_cpu_cycle();
        m.on_cpu_cycle();
    }
}

#[test]
fn power_on_locks_prg_to_first_32k_with_i_bit_set() {
    let m = m();
    assert_eq!(m.init_state, 0);
    assert_eq!(m.cpu_peek(0x8000), 0x10);
    assert_eq!(m.cpu_peek(0xC000), 0x11);
    assert!(!m.irq_enabled);
}

#[test]
fn first_i_clear_advances_to_state_1_but_keeps_prg_locked() {
    let mut m = m();
    shift_in(&mut m, 0xA000, 0x00);
    assert_eq!(m.init_state, 1);
    assert!(m.irq_enabled, "IRQ counter should be running in state 1");
    assert_eq!(m.cpu_peek(0x8000), 0x10);
    assert_eq!(m.cpu_peek(0xC000), 0x11);
}

#[test]
fn second_i_set_advances_to_state_2_and_unlocks_prg() {
    let mut m = m();
    shift_in(&mut m, 0xA000, 0x00);
    shift_in(&mut m, 0xA000, 0x10);
    assert_eq!(m.init_state, 2);
    assert!(!m.irq_enabled);
    assert_eq!(m.irq_counter, 0);
}

#[test]
fn block_a_direct_picks_one_of_four_32k_banks_via_chr0_bits_1_and_2() {
    let mut m = m();
    shift_in(&mut m, 0xA000, 0x00);
    shift_in(&mut m, 0xA000, 0x10);
    assert_eq!(m.cpu_peek(0x8000), 0x10);
    assert_eq!(m.cpu_peek(0xC000), 0x11);

    shift_in(&mut m, 0xA000, 0x12);
    assert_eq!(m.cpu_peek(0x8000), 0x12);
    assert_eq!(m.cpu_peek(0xC000), 0x13);

    shift_in(&mut m, 0xA000, 0x16);
    assert_eq!(m.cpu_peek(0x8000), 0x16);
    assert_eq!(m.cpu_peek(0xC000), 0x17);
}

#[test]
fn block_b_mode0_32k_switch_within_second_128k() {
    let mut m = m();
    shift_in(&mut m, 0xA000, 0x00);
    shift_in(&mut m, 0xA000, 0x18);
    shift_in(&mut m, 0x8000, 0x00);
    shift_in(&mut m, 0xE000, 0x05);
    assert_eq!(m.cpu_peek(0x8000), 0x10 + 0x0C);
    assert_eq!(m.cpu_peek(0xC000), 0x10 + 0x0D);
}

#[test]
fn block_b_mode2_fixes_first_then_switches_c000() {
    let mut m = m();
    shift_in(&mut m, 0xA000, 0x00);
    shift_in(&mut m, 0xA000, 0x18);
    shift_in(&mut m, 0x8000, 0x08);
    shift_in(&mut m, 0xE000, 0x05);
    assert_eq!(m.cpu_peek(0x8000), 0x10 + 0x08);
    assert_eq!(m.cpu_peek(0xC000), 0x10 + 0x0D);
}

#[test]
fn block_b_mode3_switches_8000_fixes_last_at_0f() {
    let mut m = m();
    shift_in(&mut m, 0xA000, 0x00);
    shift_in(&mut m, 0xA000, 0x18);
    shift_in(&mut m, 0x8000, 0x0C);
    shift_in(&mut m, 0xE000, 0x05);
    assert_eq!(m.cpu_peek(0x8000), 0x10 + 0x0D);
    assert_eq!(m.cpu_peek(0xC000), 0x10 + 0x0F);
}

#[test]
fn irq_counter_fires_at_dip_zero_cap() {
    let mut m = m();
    shift_in(&mut m, 0xA000, 0x00);
    assert!(m.irq_enabled);
    let cap = m.irq_cap();
    let needed = cap.saturating_sub(m.irq_counter);
    for _ in 0..needed.saturating_sub(1) {
        m.on_cpu_cycle();
    }
    assert!(!m.irq_line, "must not fire before cap");
    m.on_cpu_cycle();
    assert!(m.irq_line, "must fire at cap");
    assert!(!m.irq_enabled);
}

#[test]
fn writing_i_bit_set_resets_counter_and_clears_irq() {
    let mut m = m();
    shift_in(&mut m, 0xA000, 0x00);
    for _ in 0..1_000 {
        m.on_cpu_cycle();
    }
    assert!(m.irq_counter > 0);

    shift_in(&mut m, 0xA000, 0x10);
    assert_eq!(m.irq_counter, 0);
    assert!(!m.irq_enabled);
    assert!(!m.irq_line);
}

#[test]
fn dip_switch_scales_the_cap() {
    let mut m = m();
    m.set_dip(0);
    assert_eq!(m.irq_cap(), 0x2000_0000);
    m.set_dip(15);
    assert_eq!(m.irq_cap(), 0x3E00_0000);
}

#[test]
fn save_state_round_trips_init_state_irq_and_registers() {
    let mut a = m();
    shift_in(&mut a, 0xA000, 0x00);
    shift_in(&mut a, 0xA000, 0x18);
    shift_in(&mut a, 0x8000, 0x0C);
    shift_in(&mut a, 0xE000, 0x05);
    a.set_dip(7);
    for _ in 0..50 {
        a.on_cpu_cycle();
    }
    let snap = a.save_state_capture().unwrap();

    let mut b = m();
    b.save_state_apply(&snap).unwrap();
    assert_eq!(b.init_state, 2);
    assert_eq!(b.dip, 7);
    assert_eq!(b.cpu_peek(0x8000), a.cpu_peek(0x8000));
    assert_eq!(b.cpu_peek(0xC000), a.cpu_peek(0xC000));
}
