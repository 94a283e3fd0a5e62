use nes::mapper::bandai_datach::BandaiDatach;
use nes::mapper::cnrom_protect::CnromProtect;
use nes::mapper::eeprom_24c0x::{Eeprom24C0X, EepromChip, Mode};
use nes::mapper::namco_118::Namco118;
use nes::mapper::Mapper;
use nes::rom::{Cartridge, Mirroring, TvSystem};

fn cart(chr_rom: Vec<u8>) -> Cartridge {
    Cartridge {
        chr_ram: chr_rom.is_empty(),
        prg_rom: vec![0xFFu8; 0x8000],
        chr_rom,
        mapper_id: 0,
        submapper: 0,
        mirroring: Mirroring::Vertical,
        battery_backed: true,
        prg_ram_size: 0,
        prg_nvram_size: 0,
        tv_system: TvSystem::Ntsc,
        is_nes2: true,
        prg_chr_crc32: 0,
        db_matched: false,
        fds_data: None,
    }
}

fn send(e: &mut Eeprom24C0X, byte: u8) {
    for i in 0..8 {
        let bit = (byte >> (7 - i)) & 1;
        e.write(0, bit);
        e.write(1, bit);
    }
    e.write(0, 0);
    e.write(1, 0);
}

#[test]
fn a_24c02_answers_to_its_own_address_only() {
    for address in 0..=255u8 {
        let mut e = Eeprom24C0X::new(EepromChip::C24C02);
        e.write(1, 1);
        e.write(1, 0);
        send(&mut e, address);
        if address == 0xA0 || address == 0xA1 {
            assert_eq!(e.read(), 0, "{:02X}", address);
        } else {
            assert_eq!(e.read(), 1, "{:02X}", address);
            assert_eq!(e.mode, Mode::Idle);
        }
    }
}

#[test]
fn a_fresh_datach_saves_zeros() {
    let plain = BandaiDatach::new(cart(Vec::new()));
    assert_eq!(plain.save_data(), Some(vec![0u8; 256].as_slice()));
    let mut with_extra = cart(Vec::new());
    with_extra.prg_nvram_size = 128;
    let extra = BandaiDatach::new(with_extra);
    assert_eq!(extra.save_data(), Some(vec![0u8; 384].as_slice()));
}

fn pins(m: &mut BandaiDatach, scl: u8, sda: u8) {
    m.cpu_write(0x800D, scl << 5 | sda << 6);
}

fn send_through(m: &mut BandaiDatach, byte: u8) {
    for i in 0..8 {
        let bit = (byte >> (7 - i)) & 1;
        pins(m, 0, bit);
        pins(m, 1, bit);
    }
    pins(m, 0, 0);
    pins(m, 1, 0);
}

#[test]
fn datach_save_data_follows_the_chip() {
    let mut m = BandaiDatach::new(cart(Vec::new()));
    pins(&mut m, 1, 1);
    pins(&mut m, 1, 0);
    send_through(&mut m, 0xA0);
    send_through(&mut m, 0x12);
    send_through(&mut m, 0x5A);
    assert_eq!(m.save_data().unwrap()[0x12], 0x5A);
    assert!(m.save_dirty());
    let saved = m.save_data().unwrap().to_vec();
    m.mark_saved();
    assert!(!m.save_dirty());
    let mut other = BandaiDatach::new(cart(Vec::new()));
    other.load_save_data(&saved);
    assert_eq!(other.save_data(), Some(saved.as_slice()));
}

#[test]
fn protected_patterns_are_hidden_at_power_on() {
    for submapper in 0..=15u8 {
        let mut c = cart(vec![0xAA; 0x2000]);
        c.submapper = submapper;
        let mut m = CnromProtect::new(c);
        assert_eq!(m.ppu_read(0x0000), 0xFF, "submapper {}", submapper);
        assert_eq!(m.ppu_read(0x1FFF), 0xFF, "submapper {}", submapper);
        m.cpu_write(0x6000, 0x00);
        assert_eq!(m.ppu_read(0x0000), 0xFF, "submapper {}", submapper);
    }
    let mut c = cart(vec![0xAA; 0x2000]);
    c.submapper = 4;
    let mut m = CnromProtect::new(c);
    m.cpu_write(0x8000, 0x00);
    assert_eq!(m.ppu_read(0x0000), 0xAA);
}

fn numbered(kib: usize) -> Cartridge {
    cart((0..kib * 0x400).map(|i| (i / 0x400) as u8).collect())
}

fn set(m: &mut Namco118, reg: u8, value: u8) {
    m.cpu_write(0x8000, reg);
    m.cpu_write(0x8001, value);
}

#[test]
fn split_patterns_keep_to_their_halves() {
    for mut m in [Namco118::new_88(numbered(64)), Namco118::new_154(numbered(64))] {
        assert_eq!(m.ppu_read(0x0000), 0);
        assert_eq!(m.ppu_read(0x1000), 32);
        set(&mut m, 0, 0xFF);
        assert_eq!((m.ppu_read(0x0000), m.ppu_read(0x0400)), (30, 31));
        set(&mut m, 5, 0x1F);
        assert_eq!(m.ppu_read(0x1C00), 63);
        for value in 0..=255u8 {
            set(&mut m, 1, value);
            set(&mut m, 3, value);
            assert!(m.ppu_read(0x0800) < 32);
            assert!(m.ppu_read(0x1400) >= 32);
        }
    }
}

#[test]
fn split_patterns_on_a_full_sized_cart() {
    let mut m = Namco118::new_88(numbered(128));
    set(&mut m, 0, 0x3E);
    set(&mut m, 2, 0x3F);
    assert_eq!(m.ppu_read(0x0000), 0x3E);
    assert_eq!(m.ppu_read(0x1000), 0x7F);
    let mut plain = Namco118::new_206(numbered(64));
    set(&mut plain, 2, 3);
    assert_eq!(plain.ppu_read(0x1000), 3);
}
