use nes::mapper::eeprom_24c0x::{Eeprom24C0X, EepromChip, Mode};

fn pulse_clock(e: &mut Eeprom24C0X, sda: u8) {
    e.write(0, sda);
    e.write(1, sda);
}

fn start(e: &mut Eeprom24C0X) {
    e.write(0, 0);
    e.write(0, 1);
    e.write(1, 1);
    e.write(1, 0);
}

fn stop(e: &mut Eeprom24C0X) {
    e.write(0, 0);
    e.write(1, 0);
    e.write(1, 1);
}

fn send_byte_msb(e: &mut Eeprom24C0X, byte: u8) {
    for i in 0..8 {
        let bit = (byte >> (7 - i)) & 1;
        pulse_clock(e, bit);
    }
}

fn send_byte_lsb(e: &mut Eeprom24C0X, byte: u8) {
    for i in 0..8 {
        let bit = (byte >> i) & 1;
        pulse_clock(e, bit);
    }
}

fn ack(e: &mut Eeprom24C0X) {
    pulse_clock(e, 0);
}

fn nack(e: &mut Eeprom24C0X) {
    pulse_clock(e, 1);
}

fn read_byte_msb(e: &mut Eeprom24C0X) -> u8 {
    let mut byte = 0u8;
    for i in 0..8 {
        e.write(0, 1);
        e.write(1, 1);
        byte |= (e.read() & 1) << (7 - i);
    }
    byte
}

fn read_byte_lsb(e: &mut Eeprom24C0X) -> u8 {
    let mut byte = 0u8;
    for i in 0..8 {
        e.write(0, 1);
        e.write(1, 1);
        byte |= (e.read() & 1) << i;
    }
    byte
}

#[test]
fn c24c01_sized_128() {
    let e = Eeprom24C0X::new(EepromChip::C24C01);
    assert_eq!(e.bytes().len(), 128);
}

#[test]
fn c24c02_sized_256() {
    let e = Eeprom24C0X::new(EepromChip::C24C02);
    assert_eq!(e.bytes().len(), 256);
}

#[test]
fn load_rejects_wrong_size() {
    let mut e = Eeprom24C0X::new(EepromChip::C24C02);
    e.bytes[0] = 0x42;
    e.load(&[0; 128]);
    assert_eq!(e.bytes[0], 0x42, "mismatched-size load must not overwrite");
    e.load(&[0xAA; 256]);
    assert_eq!(e.bytes[0], 0xAA);
}

#[test]
fn c24c02_write_then_read_single_byte() {
    let mut e = Eeprom24C0X::new(EepromChip::C24C02);

    start(&mut e);
    send_byte_msb(&mut e, 0xA0);
    ack(&mut e);
    send_byte_msb(&mut e, 0x10);
    ack(&mut e);
    send_byte_msb(&mut e, 0x5A);
    ack(&mut e);
    stop(&mut e);

    start(&mut e);
    send_byte_msb(&mut e, 0xA0);
    ack(&mut e);
    send_byte_msb(&mut e, 0x10);
    ack(&mut e);
    start(&mut e);
    send_byte_msb(&mut e, 0xA1);
    ack(&mut e);
    let byte = read_byte_msb(&mut e);
    nack(&mut e);
    stop(&mut e);

    assert_eq!(byte, 0x5A);
    assert_eq!(e.bytes()[0x10], 0x5A);
}

#[test]
fn c24c02_ignores_non_matching_slave_address() {
    let mut e = Eeprom24C0X::new(EepromChip::C24C02);
    start(&mut e);
    send_byte_msb(&mut e, 0x80);
    e.write(0, 1);
    assert_eq!(e.mode, Mode::Idle);
    e.write(1, 1);
    assert_eq!(e.read(), 1);
}

#[test]
fn c24c01_write_then_read_single_byte() {
    let mut e = Eeprom24C0X::new(EepromChip::C24C01);

    start(&mut e);
    send_byte_lsb(&mut e, 0x05);
    ack(&mut e);
    send_byte_lsb(&mut e, 0x33);
    ack(&mut e);
    stop(&mut e);

    start(&mut e);
    send_byte_lsb(&mut e, 0x85);
    ack(&mut e);
    let byte = read_byte_lsb(&mut e);

    assert_eq!(byte, 0x33);
    assert_eq!(e.bytes()[0x05], 0x33);
}

#[test]
fn c24c01_address_wraps_at_7_bits() {
    let mut e = Eeprom24C0X::new(EepromChip::C24C01);
    start(&mut e);
    send_byte_lsb(&mut e, 0x85 & 0xFE);
    stop(&mut e);

    assert_eq!(EepromChip::C24C01.addr_mask(), 0x7F);
    assert_eq!(EepromChip::C24C02.addr_mask(), 0xFF);
}

#[test]
fn c24c02_sequential_read_walks_address() {
    let mut e = Eeprom24C0X::new(EepromChip::C24C02);
    e.bytes[0x20] = 0x11;
    e.bytes[0x21] = 0x22;
    e.bytes[0x22] = 0x33;

    start(&mut e);
    send_byte_msb(&mut e, 0xA0);
    ack(&mut e);
    send_byte_msb(&mut e, 0x20);
    ack(&mut e);
    start(&mut e);
    send_byte_msb(&mut e, 0xA1);
    ack(&mut e);

    let a = read_byte_msb(&mut e);
    ack(&mut e);
    let b = read_byte_msb(&mut e);
    ack(&mut e);
    let c = read_byte_msb(&mut e);
    nack(&mut e);
    stop(&mut e);

    assert_eq!((a, b, c), (0x11, 0x22, 0x33));
}
