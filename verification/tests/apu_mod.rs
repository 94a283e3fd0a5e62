use nes::apu::Apu;
use nes::clock::Region;

fn ntsc() -> Apu {
    Apu::new(Region::Ntsc)
}

#[test]
fn read_status_clears_frame_irq_not_dmc_irq() {
    let mut apu = ntsc();
    apu.frame_irq = true;
    apu.dmc_irq = true;

    let s = apu.read_status();

    assert_eq!(s & 0x40, 0x40, "frame IRQ bit must be set in returned value");
    assert_eq!(s & 0x80, 0x80, "DMC IRQ bit must be set in returned value");
    assert!(!apu.frame_irq, "frame IRQ cleared after read");
    assert!(apu.dmc_irq, "DMC IRQ preserved across $4015 read");
}

#[test]
fn write_4015_clears_dmc_irq_not_frame_irq() {
    let mut apu = ntsc();
    apu.frame_irq = true;
    apu.dmc_irq = true;

    apu.write_reg(0x4015, 0x00);

    assert!(apu.frame_irq, "frame IRQ survives $4015 write");
    assert!(!apu.dmc_irq, "DMC IRQ cleared by any $4015 write");
}

#[test]
fn write_4010_with_irq_disabled_clears_dmc_irq() {
    let mut apu = ntsc();
    apu.dmc_irq = true;

    apu.write_reg(0x4010, 0x00);

    assert!(!apu.dmc_irq, "$4010 with I=0 must clear DMC IRQ");
}

#[test]
fn write_4010_with_irq_enabled_preserves_dmc_irq() {
    let mut apu = ntsc();
    apu.dmc_irq = true;

    apu.write_reg(0x4010, 0x80);

    assert!(apu.dmc_irq, "$4010 with I=1 leaves latched DMC IRQ intact");
}

#[test]
fn dmc_enable_via_4015_arms_dma_request_after_transfer_start_delay() {
    let mut apu = ntsc();
    apu.write_reg(0x4013, 0x00);
    apu.write_reg(0x4012, 0x00);
    apu.write_reg(0x4015, 0x10);

    assert!(apu.take_dmc_dma_request().is_none());
    for _ in 0..3 {
        apu.tick_cpu_cycle();
    }
    assert!(
        apu.take_dmc_dma_request().is_some(),
        "enabling DMC with bytes_remaining==0 must arm a DMA fetch \
         once the transfer-start delay elapses"
    );
}

#[test]
fn dmc_disable_via_4015_mid_sample_discards_pending_dma() {
    let mut apu = ntsc();
    apu.write_reg(0x4013, 0x01);
    apu.write_reg(0x4015, 0x10);

    apu.write_reg(0x4015, 0x00);

    assert!(
        apu.take_dmc_dma_request().is_none(),
        "pending DMA must be dropped when DMC is disabled"
    );
}
