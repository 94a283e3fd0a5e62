use nes::mapper::{Mapper, NametableSource};
use nes::mapper::namco_118::Namco118;
use nes::rom::{Cartridge, Mirroring, TvSystem};

const PRG_BANK_8K: usize = 0x2000;

fn cart_with(prg_kib: usize, chr_kib: usize, mirror: Mirroring) -> Cartridge {
    Cartridge {
        prg_rom: vec![0u8; prg_kib * 1024],
        chr_rom: vec![0u8; chr_kib * 1024],
        chr_ram: false,
        mapper_id: 206,
        submapper: 0,
        mirroring: mirror,
        battery_backed: false,
        prg_ram_size: 0x2000,
        prg_nvram_size: 0,
        tv_system: TvSystem::Ntsc,
        is_nes2: false,
        prg_chr_crc32: 0,
        db_matched: false,
        fds_data: None,
    }
}

#[test]
fn power_on_state_uses_cart_mirroring() {
    let m = Namco118::new_206(cart_with(64, 32, Mirroring::Vertical));
    assert_eq!(m.mirroring, Mirroring::Vertical);
    assert_eq!(m.bank_regs, [0; 8]);
    assert_eq!(m.bank_select, 0);
}

#[test]
fn bank_select_then_data_writes_target_register() {
    let mut m = Namco118::new_206(cart_with(128, 64, Mirroring::Vertical));
    m.cpu_write(0x8000, 0x06);
    m.cpu_write(0x8001, 0x05);
    assert_eq!(m.bank_regs[6], 0x05);
    m.cpu_write(0x8000, 0x07);
    m.cpu_write(0x8001, 0x09);
    assert_eq!(m.bank_regs[7], 0x09);
}

#[test]
fn writes_above_9fff_are_ignored() {
    let mut m = Namco118::new_206(cart_with(64, 32, Mirroring::Vertical));
    m.cpu_write(0x8000, 0x06);
    m.cpu_write(0xA001, 0x55);
    m.cpu_write(0xC000, 0xAA);
    assert_eq!(m.bank_regs[6], 0);
}

#[test]
fn prg_c000_and_e000_fixed_to_last_two_banks() {
    let mut prg = vec![0u8; 64 * 1024];
    prg[6 * PRG_BANK_8K] = 0xCD;
    prg[7 * PRG_BANK_8K] = 0xEF;
    let cart = Cartridge {
        prg_rom: prg,
        chr_rom: vec![0u8; 32 * 1024],
        chr_ram: false,
        mapper_id: 206,
        submapper: 0,
        mirroring: Mirroring::Vertical,
        battery_backed: false,
        prg_ram_size: 0x2000,
        prg_nvram_size: 0,
        tv_system: TvSystem::Ntsc,
        is_nes2: false,
        prg_chr_crc32: 0,
        db_matched: false,
        fds_data: None,
    };
    let mut m = Namco118::new_206(cart);
    assert_eq!(m.cpu_read(0xC000), 0xCD);
    assert_eq!(m.cpu_read(0xE000), 0xEF);
}

#[test]
fn mapper88_chr_widening_partitions_low_high_halves() {
    let mut m = Namco118::new_88(cart_with(32, 64, Mirroring::Vertical));
    m.cpu_write(0x8000, 0x00);
    m.cpu_write(0x8001, 0xFF);
    assert_eq!(m.chr_reg(0), 0x3F);
    m.cpu_write(0x8000, 0x02);
    m.cpu_write(0x8001, 0x00);
    assert_eq!(m.chr_reg(2), 0x40);
}

#[test]
fn mapper95_dragon_buster_per_slot_mirroring_via_r0_r1_bit5() {
    let mut m = Namco118::new_95(cart_with(64, 16, Mirroring::Horizontal));
    m.cpu_write(0x8000, 0x00);
    m.cpu_write(0x8001, 0x00);
    m.cpu_write(0x8000, 0x01);
    m.cpu_write(0x8001, 0x20);
    assert_eq!(m.ppu_nametable_read(0, 0), NametableSource::CiramA);
    assert_eq!(m.ppu_nametable_read(1, 0), NametableSource::CiramA);
    assert_eq!(m.ppu_nametable_read(2, 0), NametableSource::CiramB);
    assert_eq!(m.ppu_nametable_read(3, 0), NametableSource::CiramB);
    m.cpu_write(0x8000, 0x00);
    m.cpu_write(0x8001, 0x20);
    m.cpu_write(0x8000, 0x01);
    m.cpu_write(0x8001, 0x00);
    assert_eq!(m.ppu_nametable_read(0, 0), NametableSource::CiramB);
    assert_eq!(m.ppu_nametable_read(2, 0), NametableSource::CiramA);
}

#[test]
fn mapper154_devil_world_mirroring_toggles_on_8000_writes() {
    let mut m = Namco118::new_154(cart_with(128, 64, Mirroring::Horizontal));
    m.cpu_write(0x8000, 0x40);
    assert_eq!(m.mirroring, Mirroring::SingleScreenUpper);
    m.cpu_write(0x8001, 0x00);
    assert_eq!(m.mirroring, Mirroring::SingleScreenLower);
    m.cpu_write(0x9123, 0x40);
    assert_eq!(m.mirroring, Mirroring::SingleScreenUpper);
}

#[test]
fn mapper154_inherits_mapper88_chr_widening() {
    let mut m = Namco118::new_154(cart_with(128, 64, Mirroring::Horizontal));
    m.cpu_write(0x8000, 0x00);
    m.cpu_write(0x8001, 0xFF);
    assert_eq!(m.chr_reg(0), 0x3F);
    m.cpu_write(0x8000, 0x05);
    m.cpu_write(0x8001, 0x00);
    assert_eq!(m.chr_reg(5), 0x40);
}

#[test]
fn mapper206_no_mirroring_or_chr_quirks() {
    let mut m = Namco118::new_206(cart_with(64, 32, Mirroring::Vertical));
    m.cpu_write(0x8000, 0x40);
    assert_eq!(m.mirroring, Mirroring::Vertical);
    m.cpu_write(0x8000, 0x00);
    m.cpu_write(0x8001, 0xFF);
    assert_eq!(m.chr_reg(0), 0xFF);
}
