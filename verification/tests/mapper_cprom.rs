use nes::mapper::Mapper;
use nes::mapper::cprom::Cprom;
use nes::rom::{Cartridge, Mirroring, TvSystem};

fn cart() -> Cartridge {
    let mut prg = vec![0xAAu8; 32 * 1024];
    prg[0] = 0x55;
    prg[0x4000] = 0x33;
    Cartridge {
        prg_rom: prg,
        chr_rom: Vec::new(),
        chr_ram: true,
        mapper_id: 13,
        submapper: 0,
        mirroring: Mirroring::Horizontal,
        battery_backed: false,
        prg_ram_size: 0,
        prg_nvram_size: 0,
        tv_system: TvSystem::Ntsc,
        is_nes2: true,
        prg_chr_crc32: 0,
        db_matched: false,
        fds_data: None,
    }
}

#[test]
fn prg_is_fixed_at_8000() {
    let m = Cprom::new(cart());
    assert_eq!(m.cpu_peek(0x8000), 0x55);
    assert_eq!(m.cpu_peek(0xC000), 0x33);
}

#[test]
fn lower_chr_window_is_fixed_to_bank_0() {
    let mut m = Cprom::new(cart());
    m.ppu_write(0x0010, 0x11);
    m.ppu_write(0x0FFF, 0x22);
    m.cpu_write(0x8000, 0x03);
    assert_eq!(m.ppu_read(0x0010), 0x11);
    assert_eq!(m.ppu_read(0x0FFF), 0x22);
}

#[test]
fn upper_chr_window_swaps_among_4_banks() {
    let mut m = Cprom::new(cart());
    for bank in 0..=3 {
        m.cpu_write(0x8000, bank);
        m.ppu_write(0x1000, 0x40 | bank);
        m.ppu_write(0x1FFF, 0x80 | bank);
    }
    for bank in 0..=3 {
        m.cpu_write(0x8000, bank);
        assert_eq!(m.ppu_read(0x1000), 0x40 | bank);
        assert_eq!(m.ppu_read(0x1FFF), 0x80 | bank);
    }
}

#[test]
fn high_bits_of_register_are_masked() {
    let mut m = Cprom::new(cart());
    m.ppu_write(0x1000, 0xAA);
    m.cpu_write(0x8000, 0xFC);
    assert_eq!(m.ppu_read(0x1000), 0xAA);
    m.cpu_write(0x8000, 0xFE);
    assert_eq!(m.ppu_read(0x1000), 0);
}

#[test]
fn mirroring_is_hardwired_vertical_even_when_header_says_otherwise() {
    let m = Cprom::new(cart());
    assert_eq!(m.mirroring(), Mirroring::Vertical);
}

#[test]
fn save_state_round_trip_preserves_chr_ram_and_bank() {
    let mut m = Cprom::new(cart());
    m.cpu_write(0x8000, 0x02);
    m.ppu_write(0x1500, 0xCD);
    m.ppu_write(0x0500, 0xEF);
    let snap = m.save_state_capture().unwrap();
    let mut fresh = Cprom::new(cart());
    fresh.save_state_apply(&snap).unwrap();
    assert_eq!(fresh.upper_bank, 2);
    assert_eq!(fresh.ppu_read(0x1500), 0xCD);
    assert_eq!(fresh.ppu_read(0x0500), 0xEF);
}
