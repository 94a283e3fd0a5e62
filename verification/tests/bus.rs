use nes::bus::Bus;
use nes::clock::Region;
use nes::mapper::nrom::Nrom;
use nes::ppu::HeadlessPpu;
use nes::rom::{Cartridge, Mirroring, TvSystem};

fn build_bus() -> Bus<Nrom, HeadlessPpu> {
    let cart = Cartridge {
        prg_rom: vec![0u8; 0x8000],
        chr_rom: vec![0u8; 0x2000],
        chr_ram: false,
        mapper_id: 0,
        submapper: 0,
        mirroring: Mirroring::Vertical,
        battery_backed: false,
        prg_ram_size: 0x2000,
        prg_nvram_size: 0,
        tv_system: TvSystem::Ntsc,
        is_nes2: false,
        prg_chr_crc32: 0,
        db_matched: false,
        fds_data: None,
    };
    Bus::new(Nrom::new(cart), Region::Ntsc, 0)
}

#[test]
fn oam_dma_halt_on_get_runs_513_beyond_sta() {
    let mut bus = build_bus();
    let before = bus.clock.cpu_cycles();
    bus.write(0x4014, 0x00);
    let dma_cycles = bus.clock.cpu_cycles() - before;
    assert_eq!(
        dma_cycles, 514,
        "STA + 1 halt + 512 pairs = 514 ticks (513-cycle DMA branch)"
    );
}

#[test]
fn oam_dma_halt_on_put_runs_514_beyond_sta() {
    let mut bus = build_bus();
    let _ = bus.read(0x0000);
    let before = bus.clock.cpu_cycles();
    bus.write(0x4014, 0x00);
    let dma_cycles = bus.clock.cpu_cycles() - before;
    assert_eq!(
        dma_cycles, 515,
        "STA + 1 halt + 1 align + 512 pairs = 515 ticks (514-cycle DMA branch)"
    );
}
