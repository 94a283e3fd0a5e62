use nes::mapper::Mapper;
use nes::mapper::mmc2::Mmc2;
use nes::rom::{Cartridge, Mirroring, TvSystem};

const PRG_BANK_8K: usize = 0x2000;
const CHR_BANK_4K: usize = 0x1000;

fn tagged_cart() -> Cartridge {
    let mut prg = vec![0u8; 16 * PRG_BANK_8K];
    for b in 0..16 {
        prg[b * PRG_BANK_8K..(b + 1) * PRG_BANK_8K].fill(b as u8);
    }
    let mut chr = vec![0u8; 32 * CHR_BANK_4K];
    for b in 0..32 {
        chr[b * CHR_BANK_4K..(b + 1) * CHR_BANK_4K].fill(b as u8);
    }
    Cartridge {
        prg_rom: prg,
        chr_rom: chr,
        chr_ram: false,
        mapper_id: 9,
        submapper: 0,
        mirroring: Mirroring::Vertical,
        battery_backed: false,
        prg_ram_size: 0,
        prg_nvram_size: 0,
        tv_system: TvSystem::Ntsc,
        is_nes2: false,
        prg_chr_crc32: 0,
        db_matched: false,
        fds_data: None,
    }
}

#[test]
fn prg_default_layout_fixes_last_three_banks() {
    let m = Mmc2::new(tagged_cart());
    assert_eq!(m.cpu_peek(0x8000), 0);
    assert_eq!(m.cpu_peek(0x9FFF), 0);
    assert_eq!(m.cpu_peek(0xA000), 13);
    assert_eq!(m.cpu_peek(0xC000), 14);
    assert_eq!(m.cpu_peek(0xE000), 15);
}

#[test]
fn prg_a000_switches_low_window_only() {
    let mut m = Mmc2::new(tagged_cart());
    m.cpu_write(0xA000, 7);
    assert_eq!(m.cpu_peek(0x8000), 7);
    assert_eq!(m.cpu_peek(0x9FFF), 7);
    assert_eq!(m.cpu_peek(0xA000), 13);
    assert_eq!(m.cpu_peek(0xC000), 14);
    assert_eq!(m.cpu_peek(0xE000), 15);
}

#[test]
fn prg_a000_masks_to_4_bits() {
    let mut m = Mmc2::new(tagged_cart());
    m.cpu_write(0xA000, 0xF7);
    assert_eq!(m.cpu_peek(0x8000), 7);
}

#[test]
fn prg_register_decoded_by_top_nibble() {
    let mut m = Mmc2::new(tagged_cart());
    m.cpu_write(0xA123, 5);
    assert_eq!(m.cpu_peek(0x8000), 5);
    m.cpu_write(0xAFFF, 9);
    assert_eq!(m.cpu_peek(0x8000), 9);
}

#[test]
fn chr_power_on_latch_selects_fe_side() {
    let mut m = Mmc2::new(tagged_cart());
    m.cpu_write(0xB000, 4);
    m.cpu_write(0xC000, 5);
    m.cpu_write(0xD000, 6);
    m.cpu_write(0xE000, 7);
    assert_eq!(m.ppu_read(0x0000), 5);
    assert_eq!(m.ppu_read(0x1000), 7);
}

#[test]
fn chr_left_latch_triggers_exactly_at_0fd8_and_0fe8() {
    let mut m = Mmc2::new(tagged_cart());
    m.cpu_write(0xB000, 10);
    m.cpu_write(0xC000, 20);
    assert_eq!(m.ppu_read(0x0000), 20);
    assert_eq!(m.ppu_read(0x0FD8), 20);
    assert_eq!(m.ppu_read(0x0000), 10);
    assert_eq!(m.ppu_read(0x0FE8), 10);
    assert_eq!(m.ppu_read(0x0000), 20);
}

#[test]
fn chr_left_trigger_is_single_address_not_range() {
    let mut m = Mmc2::new(tagged_cart());
    m.cpu_write(0xB000, 10);
    m.cpu_write(0xC000, 20);
    m.ppu_read(0x0FD8);
    assert_eq!(m.ppu_read(0x0000), 10);
    m.ppu_read(0x0FD9);
    assert_eq!(m.ppu_read(0x0000), 10);
    m.ppu_read(0x0FDF);
    assert_eq!(m.ppu_read(0x0000), 10);
    m.ppu_read(0x0FE9);
    assert_eq!(m.ppu_read(0x0000), 10);
}

#[test]
fn chr_right_latch_triggers_across_fd8_to_fdf_range() {
    let mut m = Mmc2::new(tagged_cart());
    m.cpu_write(0xD000, 14);
    m.cpu_write(0xE000, 21);
    assert_eq!(m.ppu_read(0x1000), 21);

    for trigger in 0x1FD8..=0x1FDF {
        m.ppu_read(0x1FE8);
        assert_eq!(m.ppu_read(0x1000), 21);
        m.ppu_read(trigger);
        assert_eq!(m.ppu_read(0x1000), 14, "addr ${:04X} failed", trigger);
    }
    for trigger in 0x1FE8..=0x1FEF {
        m.ppu_read(0x1FD8);
        assert_eq!(m.ppu_read(0x1000), 14);
        m.ppu_read(trigger);
        assert_eq!(m.ppu_read(0x1000), 21, "addr ${:04X} failed", trigger);
    }
}

#[test]
fn chr_right_trigger_ignores_out_of_range_addresses() {
    let mut m = Mmc2::new(tagged_cart());
    m.cpu_write(0xD000, 14);
    m.cpu_write(0xE000, 21);
    m.ppu_read(0x1FD8);
    assert_eq!(m.ppu_read(0x1000), 14);
    m.ppu_read(0x1FD7);
    assert_eq!(m.ppu_read(0x1000), 14);
    m.ppu_read(0x1FE0);
    assert_eq!(m.ppu_read(0x1000), 14);
    m.ppu_read(0x1FF0);
    assert_eq!(m.ppu_read(0x1000), 14);
}

#[test]
fn chr_left_and_right_latches_are_independent() {
    let mut m = Mmc2::new(tagged_cart());
    m.cpu_write(0xB000, 1);
    m.cpu_write(0xC000, 2);
    m.cpu_write(0xD000, 3);
    m.cpu_write(0xE000, 4);

    m.ppu_read(0x0FD8);
    assert_eq!(m.ppu_read(0x0000), 1);
    assert_eq!(m.ppu_read(0x1000), 4);

    m.ppu_read(0x1FD8);
    assert_eq!(m.ppu_read(0x0000), 1);
    assert_eq!(m.ppu_read(0x1000), 3);
}

#[test]
fn chr_bank_regs_mask_to_5_bits() {
    let mut m = Mmc2::new(tagged_cart());
    m.cpu_write(0xC000, 0xFF);
    assert_eq!(m.ppu_read(0x0000), 31);
}

#[test]
fn chr_register_decoded_by_top_nibble() {
    let mut m = Mmc2::new(tagged_cart());
    m.cpu_write(0xBABC, 9);
    m.ppu_read(0x0FD8);
    assert_eq!(m.ppu_read(0x0000), 9);
}

#[test]
fn f000_toggles_mirroring() {
    let mut m = Mmc2::new(tagged_cart());
    m.cpu_write(0xF000, 0);
    assert_eq!(m.mirroring(), Mirroring::Vertical);
    m.cpu_write(0xF000, 1);
    assert_eq!(m.mirroring(), Mirroring::Horizontal);
    m.cpu_write(0xFFFE, 0);
    assert_eq!(m.mirroring(), Mirroring::Vertical);
}

#[test]
fn cpu_writes_below_8000_are_dropped() {
    let mut m = Mmc2::new(tagged_cart());
    m.cpu_write(0x6000, 0xFF);
    m.cpu_write(0x7FFF, 0xFF);
    assert_eq!(m.cpu_peek(0x8000), 0);
    assert_eq!(m.mirroring(), Mirroring::Vertical);
}

#[test]
fn cpu_reads_outside_prg_return_zero() {
    let m = Mmc2::new(tagged_cart());
    assert_eq!(m.cpu_peek(0x0000), 0);
    assert_eq!(m.cpu_peek(0x4020), 0);
    assert_eq!(m.cpu_peek(0x7FFF), 0);
}
