use nes::mapper::flash_sst39sf040::{ChipMode, DEVICE_ID, FlashSst39sf040, MANUFACTURER_ID};

fn buf() -> Vec<u8> {
    vec![0xFFu8; 16 * 1024]
}

fn program(chip: &mut FlashSst39sf040, addr: u32, value: u8, data: &mut [u8]) {
    chip.write(0x5555, 0xAA, data);
    chip.write(0x2AAA, 0x55, data);
    chip.write(0x5555, 0xA0, data);
    chip.write(addr, value, data);
}

#[test]
fn fresh_chip_is_idle_with_software_id_off() {
    let chip = FlashSst39sf040::new();
    assert_eq!(chip.mode, ChipMode::WaitingForCommand);
    assert_eq!(chip.cycle, 0);
    assert!(!chip.software_id);
    assert_eq!(chip.read(0x0000), None);
}

#[test]
fn program_clears_bits_via_and() {
    let mut chip = FlashSst39sf040::new();
    let mut data = buf();
    program(&mut chip, 0x0100, 0xC3, &mut data);
    assert_eq!(data[0x0100], 0xC3);
    program(&mut chip, 0x0100, 0x81, &mut data);
    assert_eq!(data[0x0100], 0x81);
    program(&mut chip, 0x0100, 0x40, &mut data);
    assert_eq!(data[0x0100], 0x00);
}

#[test]
fn program_returns_to_idle() {
    let mut chip = FlashSst39sf040::new();
    let mut data = buf();
    program(&mut chip, 0x0100, 0xC3, &mut data);
    assert_eq!(chip.mode, ChipMode::WaitingForCommand);
    assert_eq!(chip.cycle, 0);
}

#[test]
fn sector_erase_resets_4kib_block_to_ff() {
    let mut chip = FlashSst39sf040::new();
    let mut data = buf();
    for b in &mut data[0x1000..0x2000] {
        *b = 0x00;
    }
    chip.write(0x5555, 0xAA, &mut data);
    chip.write(0x2AAA, 0x55, &mut data);
    chip.write(0x5555, 0x80, &mut data);
    chip.write(0x5555, 0xAA, &mut data);
    chip.write(0x2AAA, 0x55, &mut data);
    chip.write(0x1234, 0x30, &mut data);
    for (i, &b) in data[0x1000..0x2000].iter().enumerate() {
        assert_eq!(b, 0xFF, "byte 0x{:04X} not erased", 0x1000 + i);
    }
    assert_eq!(data[0x0FFF], 0xFF);
    assert_eq!(data[0x2000], 0xFF);
}

#[test]
fn chip_erase_resets_entire_buffer() {
    let mut chip = FlashSst39sf040::new();
    let mut data = vec![0x00u8; 8 * 1024];
    chip.write(0x5555, 0xAA, &mut data);
    chip.write(0x2AAA, 0x55, &mut data);
    chip.write(0x5555, 0x80, &mut data);
    chip.write(0x5555, 0xAA, &mut data);
    chip.write(0x2AAA, 0x55, &mut data);
    chip.write(0x5555, 0x10, &mut data);
    assert!(data.iter().all(|&b| b == 0xFF));
}

#[test]
fn software_id_returns_chip_identification() {
    let mut chip = FlashSst39sf040::new();
    let mut data = buf();
    chip.write(0x5555, 0xAA, &mut data);
    chip.write(0x2AAA, 0x55, &mut data);
    chip.write(0x5555, 0x90, &mut data);
    assert!(chip.software_id);
    assert_eq!(chip.read(0x0000), Some(MANUFACTURER_ID));
    assert_eq!(chip.read(0x0001), Some(DEVICE_ID));
    assert_eq!(chip.read(0x0002), Some(0xFF));
    assert_eq!(chip.read(0x0200), Some(MANUFACTURER_ID));
    assert_eq!(chip.read(0x0201), Some(DEVICE_ID));
}

#[test]
fn software_id_exit_via_three_cycle_f0() {
    let mut chip = FlashSst39sf040::new();
    let mut data = buf();
    chip.write(0x5555, 0xAA, &mut data);
    chip.write(0x2AAA, 0x55, &mut data);
    chip.write(0x5555, 0x90, &mut data);
    assert!(chip.software_id);
    chip.write(0x5555, 0xAA, &mut data);
    chip.write(0x2AAA, 0x55, &mut data);
    chip.write(0x5555, 0xF0, &mut data);
    assert!(!chip.software_id);
    assert_eq!(chip.read(0x0000), None);
}

#[test]
fn software_id_exit_via_single_f0_at_cycle_zero() {
    let mut chip = FlashSst39sf040::new();
    let mut data = buf();
    chip.write(0x5555, 0xAA, &mut data);
    chip.write(0x2AAA, 0x55, &mut data);
    chip.write(0x5555, 0x90, &mut data);
    assert!(chip.software_id);
    chip.write(0x0000, 0xF0, &mut data);
    assert!(!chip.software_id);
}

#[test]
fn aborted_unlock_returns_to_cycle_zero() {
    let mut chip = FlashSst39sf040::new();
    let mut data = buf();
    chip.write(0x5555, 0xAA, &mut data);
    chip.write(0x1234, 0x55, &mut data);
    assert_eq!(chip.cycle, 0);
    assert_eq!(chip.mode, ChipMode::WaitingForCommand);
    chip.write(0x5555, 0xAA, &mut data);
    chip.write(0x2AAA, 0x42, &mut data);
    assert_eq!(chip.cycle, 0);
}

#[test]
fn write_outside_buffer_does_not_panic() {
    let mut chip = FlashSst39sf040::new();
    let mut data = vec![0xFFu8; 0x100];
    program(&mut chip, 0x10000, 0x00, &mut data);
    assert!(data.iter().all(|&b| b == 0xFF));
}
