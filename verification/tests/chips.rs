use nes::mapper::eeprom_24c0x::{Eeprom24C0X, EepromChip, Mode};
use nes::mapper::flash_sst39sf040::{ChipMode, FlashSst39sf040};
use nes::mapper::n163_audio::N163Audio;

fn poke(audio: &mut N163Audio, at: u8, byte: u8) {
    audio.set_address_latch(at);
    audio.write_4800(byte);
}

fn one_channel() -> N163Audio {
    let mut audio = N163Audio::new();
    poke(&mut audio, 0x00, 0xA5);
    poke(&mut audio, 0x01, 0x3C);
    poke(&mut audio, 0x7C, 0xFD);
    poke(&mut audio, 0x7F, 0x0F);
    audio
}

#[test]
fn n163_plays_its_wave() {
    let mut audio = one_channel();
    assert_eq!(audio.frequency(7), 0x1_0000);
    assert_eq!(audio.wave_length(7), 4);
    assert_eq!(audio.volume(7), 15);
    let mut heard = Vec::new();
    for _ in 0..5 {
        for _ in 0..15 {
            audio.clock();
        }
        heard.push(audio.mix_level());
    }
    assert_eq!(heard, vec![30, 60, -75, -45, 30]);
}

#[test]
fn n163_changes_only_at_the_fifteenth_cycle() {
    let mut audio = one_channel();
    for _ in 0..14 {
        audio.clock();
    }
    assert_eq!(audio.mix_level(), 0);
    assert_eq!(audio.phase(7), 0);
    audio.clock();
    assert_eq!(audio.mix_level(), 30);
    assert_eq!(audio.phase(7), 0x1_0000);
}

#[test]
fn n163_snapshot_resumes_in_the_middle() {
    let mut audio = one_channel();
    for _ in 0..22 {
        audio.clock();
    }
    let mut other = N163Audio::default();
    other.save_state_apply(audio.save_state_capture());
    for _ in 0..8 {
        audio.clock();
        other.clock();
    }
    assert_eq!(audio.mix_level(), 60);
    assert_eq!(other.mix_level(), 60);
    assert_eq!(audio.internal_ram(), other.internal_ram());
}

#[test]
fn n163_loads_its_ram() {
    let mut audio = N163Audio::new();
    audio.load_internal_ram(&[7u8; 0x80]);
    assert_eq!(audio.ram_byte(0x7F), 7);
    assert_eq!(audio.active_count(), 1);
    audio.set_address_latch(0x85);
    assert_eq!(audio.read_4800(), 7);
    assert_eq!(audio.current_address(), 6);
    assert!(audio.auto_increment());
}

fn unlock(chip: &mut FlashSst39sf040, data: &mut [u8], command: u8) {
    chip.write(0x5555, 0xAA, data);
    chip.write(0x2AAA, 0x55, data);
    chip.write(0x5555, command, data);
}

#[test]
fn flash_programming_only_clears_bits() {
    let mut chip = FlashSst39sf040::new();
    let mut data = vec![0xFFu8; 0x8000];
    unlock(&mut chip, &mut data, 0xA0);
    assert!(chip.write(0x1234, 0x0F, &mut data));
    unlock(&mut chip, &mut data, 0xA0);
    chip.write(0x1234, 0xF8, &mut data);
    assert_eq!(data[0x1234], 0x08);
    assert_eq!(chip, FlashSst39sf040::default());
}

#[test]
fn flash_erases_only_whole_sectors() {
    let mut chip = FlashSst39sf040::new();
    let mut data = vec![0u8; 0x1800];
    unlock(&mut chip, &mut data, 0x80);
    chip.write(0x5555, 0xAA, &mut data);
    chip.write(0x2AAA, 0x55, &mut data);
    assert!(!chip.write(0x1000, 0x30, &mut data));
    assert!(data.iter().all(|b| *b == 0));
    unlock(&mut chip, &mut data, 0x80);
    chip.write(0x5555, 0xAA, &mut data);
    chip.write(0x2AAA, 0x55, &mut data);
    assert!(chip.write(0x0FFF, 0x30, &mut data));
    assert!(data[..0x1000].iter().all(|b| *b == 0xFF));
    assert!(data[0x1000..].iter().all(|b| *b == 0));
}

#[test]
fn flash_reset_keeps_identification() {
    let mut chip = FlashSst39sf040::new();
    let mut data = vec![0u8; 0x8000];
    unlock(&mut chip, &mut data, 0x90);
    unlock(&mut chip, &mut data, 0x80);
    assert_eq!(chip.mode, ChipMode::Erase);
    chip.reset_state();
    assert_eq!((chip.mode, chip.cycle), (ChipMode::WaitingForCommand, 0));
    assert_eq!(chip.read(0x200), Some(0xBF));
    assert_eq!(chip.read(0x201), Some(0xB7));
    assert_eq!(chip.read(0x202), Some(0xFF));
}

#[test]
fn eeprom_lines_can_be_driven_one_at_a_time() {
    let mut both = Eeprom24C0X::new(EepromChip::C24C02);
    let mut single = Eeprom24C0X::new(EepromChip::C24C02);
    let lines = [(0u8, 1u8), (1, 1), (1, 0), (0, 0), (0, 1), (1, 1), (0, 1), (0, 0), (1, 0)];
    let mut scl = 0u8;
    let mut sda = 0u8;
    both.write(0, 0);
    single.write(0, 0);
    for (c, d) in lines {
        if c != scl {
            single.write_scl(c);
        }
        if d != sda {
            single.write_sda(d);
        }
        both.write(c, d);
        scl = c;
        sda = d;
        assert_eq!(both.mode, single.mode);
        assert_eq!(both.read(), single.read());
        assert_eq!((both.counter, both.chip_address), (single.counter, single.chip_address));
    }
    assert_eq!(both.mode, Mode::ChipAddress);
}

#[test]
fn eeprom_chips_differ_in_size_and_framing() {
    assert_eq!(EepromChip::C24C01.size(), 128);
    assert_eq!(EepromChip::C24C02.size(), 256);
    assert_eq!(EepromChip::C24C01.addr_mask(), 0x7F);
    assert_eq!(EepromChip::C24C02.addr_mask(), 0xFF);
    assert!(!EepromChip::C24C01.msb_first());
    assert!(EepromChip::C24C02.msb_first());
    assert!(!EepromChip::C24C01.has_chip_address());
    assert!(EepromChip::C24C02.has_chip_address());
}

#[test]
fn eeprom_snapshot_brings_contents_back() {
    let mut chip = Eeprom24C0X::new(EepromChip::C24C01);
    let bytes: Vec<u8> = (0..128).collect();
    chip.load(&bytes);
    chip.write(1, 1);
    chip.write(1, 0);
    let snap = chip.save_state_capture();
    let mut other = Eeprom24C0X::new(EepromChip::C24C01);
    other.save_state_apply(&snap);
    assert_eq!(other.bytes(), bytes.as_slice());
    assert_eq!(other.mode, chip.mode);
    assert_eq!((other.prev_scl, other.prev_sda), (1, 0));
}

#[test]
fn n163_cursor_stays_in_ram() {
    let mut audio = N163Audio::new();
    for byte in 0..=255u8 {
        audio.set_address_latch(byte);
        assert!(audio.current_address() < 0x80);
        audio.read_4800();
        assert!(audio.current_address() < 0x80);
        audio.write_4800(byte);
        audio.clock();
        assert!(audio.current_address() < 0x80);
    }
}

#[test]
fn eeprom_output_is_a_bit() {
    let mut chip = Eeprom24C0X::new(EepromChip::C24C02);
    assert_eq!(chip.read(), 1);
    let mut seed: u32 = 1;
    for _ in 0..10_000 {
        seed = seed.wrapping_mul(1_664_525).wrapping_add(1_013_904_223);
        chip.write((seed >> 30) as u8 & 1, (seed >> 28) as u8 & 1);
        assert!(chip.read() <= 1);
    }
}
