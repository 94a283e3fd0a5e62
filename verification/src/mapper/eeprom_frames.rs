//! Whole frames on the wires of a serial EEPROM: what a host that follows the protocol stores
//! and gets back.
use vstd::prelude::*;

use crate::mapper::eeprom_24c0x::{with_bit, EepromChip, EepromState, FieldKind, Mode};

verus! {

/// One bit sent by the host: SCL low, then high, with SDA held.
pub open spec fn pulsed(s: EepromState, bit: u8) -> EepromState {
    s.wrote(0, bit).wrote(1, bit)
}

/// Start of a frame, from any pin levels: both lines released, then SDA pulled down.
pub open spec fn started(s: EepromState) -> EepromState {
    s.wrote(0, 0).wrote(0, 1).wrote(1, 1).wrote(1, 0)
}

/// End of a frame: SDA released while SCL is high.
pub open spec fn stopped(s: EepromState) -> EepromState {
    s.wrote(0, 0).wrote(1, 0).wrote(1, 1)
}

/// Bit `i` of a byte, in the order the chip takes them.
pub open spec fn sent_bit(chip: EepromChip, byte: u8, i: nat) -> u8 {
    if chip.highest_first() {
        (byte >> ((7 - i) as u8)) & 1
    } else {
        (byte >> (i as u8)) & 1
    }
}

/// The first `n` bits of a byte sent by the host.
pub open spec fn sent(s: EepromState, byte: u8, n: nat) -> EepromState
    decreases n,
{
    if n == 0 {
        s
    } else {
        pulsed(sent(s, byte, (n - 1) as nat), sent_bit(s.chip, byte, (n - 1) as nat))
    }
}

/// A whole byte, and the pulse in which the chip acknowledges it.
pub open spec fn sent_acked(s: EepromState, byte: u8) -> EepromState {
    pulsed(sent(s, byte, 8), 0)
}

/// The chip after the host has clocked `n` bits out of it, SDA released.
pub open spec fn drained(s: EepromState, n: nat) -> EepromState
    decreases n,
{
    if n == 0 {
        s
    } else {
        pulsed(drained(s, (n - 1) as nat), 1)
    }
}

/// A frame that writes `data` at `address` to a 24C02.
pub open spec fn c02_write_frame(s: EepromState, address: u8, data: u8) -> EepromState {
    stopped(sent_acked(sent_acked(sent_acked(started(s), 0xA0), address), data))
}

/// A frame that sets the address of a 24C02 and then starts over to read: after it the chip is
/// about to send.
pub open spec fn c02_read_frame(s: EepromState, address: u8) -> EepromState {
    sent_acked(started(sent_acked(sent_acked(started(s), 0xA0), address)), 0xA1)
}

/// A frame that writes `data` at `address` to a 24C01: the direction bit comes last.
pub open spec fn c01_write_frame(s: EepromState, address: u8, data: u8) -> EepromState {
    stopped(sent_acked(sent_acked(started(s), address & 0x7F), data))
}

/// A frame that asks a 24C01 for the byte at `address`.
pub open spec fn c01_read_frame(s: EepromState, address: u8) -> EepromState {
    sent_acked(started(s), address | 0x80)
}

/// The register that a mode fills.
pub open spec fn field_of(mode: Mode) -> FieldKind {
    match mode {
        Mode::ChipAddress => FieldKind::ChipAddress,
        Mode::Address => FieldKind::Address,
        _ => FieldKind::Data,
    }
}

/// The chip is about to take the first bit of a byte in `mode`: it has just acknowledged, or a
/// frame has just started.
spec fn expects(s: EepromState, mode: Mode) -> bool {
    &&& s.ok()
    &&& s.prev_scl == 1
    &&& mode == Mode::ChipAddress || mode == Mode::Address || mode == Mode::Write
    &&& (s.mode == Mode::SendAck && s.next_mode == mode) || (s.mode == mode && s.counter == 0)
    &&& mode == Mode::ChipAddress ==> s.chip.is_addressed()
}

/// The chip when it has taken `n` bits of `byte` in `mode`, having started from `s`.
spec fn taken(s: EepromState, mode: Mode, byte: u8, n: nat, value: u8) -> EepromState {
    EepromState {
        mode,
        counter: n as u8,
        output: if s.mode == Mode::SendAck { 1 } else { s.output },
        prev_scl: 1,
        prev_sda: sent_bit(s.chip, byte, (n - 1) as nat),
        ..s.with_field(field_of(mode), value)
    }
}

proof fn lemma_low_bit(x: u8)
    by (bit_vector)
    ensures
        x & 1 <= 1,
        (x & 1) & 1 == x & 1,
{
}

/// The two chip addresses, and what seven-bit addresses keep of a byte.
proof fn lemma_frame_bits(x: u8)
    by (bit_vector)
    ensures
        0xA0u8 & 0xFE == 0xA0,
        0xA0u8 & 0x01 == 0,
        0xA1u8 & 0xFE == 0xA0,
        0xA1u8 & 0x01 != 0,
        x & 0xFF == x,
        (x & 0x7F) | (0u8 & 0x80) == x & 0x7F,
        (x & 0x7F) & 0x7F == x & 0x7F,
        (x & 0x7F) & 0x80 == 0,
        (x >> 7u8) & 1 == 1 <==> x & 0x80 != 0,
        (x | 0x80) & 0x80 != 0,
        (x | 0x80) & 0x7F == x & 0x7F,
        x & 0x7F < 128,
{
}

proof fn lemma_sent_bit(chip: EepromChip, byte: u8, i: nat)
    requires
        i < 8,
    ensures
        sent_bit(chip, byte, i) <= 1,
        sent_bit(chip, byte, i) & 1 == sent_bit(chip, byte, i),
{
    lemma_low_bit(byte >> ((7 - i) as u8));
    lemma_low_bit(byte >> (i as u8));
}

/// One more bit taken. `value` is the register before it.
proof fn lemma_take_bit(s: EepromState, mode: Mode, byte: u8, n: nat, value: u8)
    requires
        expects(s, mode),
        n < 8,
        s.chip.is_addressed() || mode != Mode::Address || n < 7,
        n == 0 ==> value == s.field(field_of(mode)),
    ensures
        ({
            let before = if n == 0 { s } else { taken(s, mode, byte, n, value) };
            let pos = if s.chip.highest_first() { (7 - n) as u8 } else { n as u8 };
            let bit = sent_bit(s.chip, byte, n);
            pulsed(before, bit) == taken(s, mode, byte, n + 1, with_bit(value, pos, bit))
        }),
{
    lemma_sent_bit(s.chip, byte, n);
}

/// The register after the first `n` bits.
spec fn gathered(chip: EepromChip, start: u8, byte: u8, n: nat) -> u8
    decreases n,
{
    if n == 0 {
        start
    } else {
        let i = (n - 1) as nat;
        let pos = if chip.highest_first() { (7 - i) as u8 } else { i as u8 };
        with_bit(gathered(chip, start, byte, i), pos, sent_bit(chip, byte, i))
    }
}

proof fn lemma_sent(s: EepromState, mode: Mode, byte: u8, n: nat)
    requires
        expects(s, mode),
        1 <= n <= 8,
        s.chip.is_addressed() || mode != Mode::Address || n < 8,
    ensures
        sent(s, byte, n) == taken(
            s,
            mode,
            byte,
            n,
            gathered(s.chip, s.field(field_of(mode)), byte, n),
        ),
    decreases n,
{
    let start = s.field(field_of(mode));
    let i = (n - 1) as nat;
    if n > 1 {
        lemma_sent(s, mode, byte, i);
    }
    lemma_take_bit(s, mode, byte, i, gathered(s.chip, start, byte, i));
    assert(sent(s, byte, n) == pulsed(sent(s, byte, i), sent_bit(s.chip, byte, i)));
}

/// Eight bits make the byte, whatever the register held; seven leave the eighth.
proof fn lemma_gathered(chip: EepromChip, start: u8, byte: u8)
    ensures
        gathered(chip, start, byte, 8) == byte,
        !chip.highest_first() ==> gathered(chip, start, byte, 7) == (byte & 0x7F) | (start & 0x80),
{
    reveal_with_fuel(gathered, 9);
    let x = start;
    if chip.highest_first() {
        let a1 = with_bit(x, 7, (byte >> 7u8) & 1);
        let a2 = with_bit(a1, 6, (byte >> 6u8) & 1);
        let a3 = with_bit(a2, 5, (byte >> 5u8) & 1);
        let a4 = with_bit(a3, 4, (byte >> 4u8) & 1);
        let a5 = with_bit(a4, 3, (byte >> 3u8) & 1);
        let a6 = with_bit(a5, 2, (byte >> 2u8) & 1);
        let a7 = with_bit(a6, 1, (byte >> 1u8) & 1);
        let a8 = with_bit(a7, 0, (byte >> 0u8) & 1);
        assert(a8 == byte) by (bit_vector)
            requires
                a1 == (x & !(1u8 << 7u8)) | ((((byte >> 7u8) & 1) & 1) << 7u8),
                a2 == (a1 & !(1u8 << 6u8)) | ((((byte >> 6u8) & 1) & 1) << 6u8),
                a3 == (a2 & !(1u8 << 5u8)) | ((((byte >> 5u8) & 1) & 1) << 5u8),
                a4 == (a3 & !(1u8 << 4u8)) | ((((byte >> 4u8) & 1) & 1) << 4u8),
                a5 == (a4 & !(1u8 << 3u8)) | ((((byte >> 3u8) & 1) & 1) << 3u8),
                a6 == (a5 & !(1u8 << 2u8)) | ((((byte >> 2u8) & 1) & 1) << 2u8),
                a7 == (a6 & !(1u8 << 1u8)) | ((((byte >> 1u8) & 1) & 1) << 1u8),
                a8 == (a7 & !(1u8 << 0u8)) | ((((byte >> 0u8) & 1) & 1) << 0u8),
        ;
    } else {
        let a1 = with_bit(x, 0, (byte >> 0u8) & 1);
        let a2 = with_bit(a1, 1, (byte >> 1u8) & 1);
        let a3 = with_bit(a2, 2, (byte >> 2u8) & 1);
        let a4 = with_bit(a3, 3, (byte >> 3u8) & 1);
        let a5 = with_bit(a4, 4, (byte >> 4u8) & 1);
        let a6 = with_bit(a5, 5, (byte >> 5u8) & 1);
        let a7 = with_bit(a6, 6, (byte >> 6u8) & 1);
        let a8 = with_bit(a7, 7, (byte >> 7u8) & 1);
        assert(a8 == byte && a7 == (byte & 0x7F) | (x & 0x80)) by (bit_vector)
            requires
                a1 == (x & !(1u8 << 0u8)) | ((((byte >> 0u8) & 1) & 1) << 0u8),
                a2 == (a1 & !(1u8 << 1u8)) | ((((byte >> 1u8) & 1) & 1) << 1u8),
                a3 == (a2 & !(1u8 << 2u8)) | ((((byte >> 2u8) & 1) & 1) << 2u8),
                a4 == (a3 & !(1u8 << 3u8)) | ((((byte >> 3u8) & 1) & 1) << 3u8),
                a5 == (a4 & !(1u8 << 4u8)) | ((((byte >> 4u8) & 1) & 1) << 4u8),
                a6 == (a5 & !(1u8 << 5u8)) | ((((byte >> 5u8) & 1) & 1) << 5u8),
                a7 == (a6 & !(1u8 << 6u8)) | ((((byte >> 6u8) & 1) & 1) << 6u8),
                a8 == (a7 & !(1u8 << 7u8)) | ((((byte >> 7u8) & 1) & 1) << 7u8),
        ;
    }
}

/// A whole byte taken.
proof fn lemma_byte_sent(s: EepromState, mode: Mode, byte: u8)
    requires
        expects(s, mode),
        s.chip.is_addressed() || mode != Mode::Address,
    ensures
        sent(s, byte, 8) == taken(s, mode, byte, 8, byte),
{
    lemma_sent(s, mode, byte, 8);
    lemma_gathered(s.chip, s.field(field_of(mode)), byte);
}

/// The 24C01's address byte: seven address bits, then the direction.
proof fn lemma_c01_address_sent(s: EepromState, byte: u8)
    requires
        expects(s, Mode::Address),
        !s.chip.is_addressed(),
        s.address == 0,
    ensures
        ({
            let t = sent(s, byte, 8);
            &&& t.ok()
            &&& t.mode == Mode::Address
            &&& t.counter == 8
            &&& t.address == byte & 0x7F
            &&& t.prev_scl == 1
            &&& t.chip == s.chip
            &&& t.bytes == s.bytes
            &&& byte & 0x80 != 0 ==> t.next_mode == Mode::Read && t.data == s.bytes[(byte & 0x7F) as int]
            &&& byte & 0x80 == 0 ==> t.next_mode == Mode::Write
        }),
{
    lemma_sent(s, Mode::Address, byte, 7);
    lemma_gathered(s.chip, 0, byte);
    lemma_sent_bit(s.chip, byte, 7);
    lemma_sent_bit(s.chip, byte, 6);
    lemma_frame_bits(byte);
    assert(sent(s, byte, 8) == pulsed(sent(s, byte, 7), sent_bit(s.chip, byte, 7)));
}

/// What the host reads when it clocks a byte out: its bits, in the chip's order.
proof fn lemma_drained(s: EepromState, n: nat)
    requires
        s.ok(),
        s.prev_scl == 1,
        s.mode == Mode::SendAck,
        s.next_mode == Mode::Read,
        1 <= n <= 8,
    ensures
        ({
            let t = drained(s, n);
            &&& t.output == sent_bit(s.chip, s.data, (n - 1) as nat)
            &&& t.mode == Mode::Read
            &&& t.counter == n
            &&& t.prev_scl == 1
            &&& t.chip == s.chip
            &&& t.data == s.data
            &&& t.bytes == s.bytes
            &&& t.address == s.address
            &&& t.ok()
        }),
    decreases n,
{
    let i = (n - 1) as nat;
    if n > 1 {
        lemma_drained(s, i);
    }
    let d = s.data;
    let pos = if s.chip.highest_first() { (7 - i) as u8 } else { i as u8 };
    assert(d & (1u8 << pos) != 0 <==> (d >> pos) & 1 == 1) by (bit_vector)
        requires
            pos < 8,
    ;
    lemma_low_bit(d >> pos);
    assert(drained(s, n) == pulsed(drained(s, i), 1));
}

/// A started 24C02 that has been given its own chip address and then a byte address.
proof fn lemma_c02_addressed(s: EepromState, address: u8)
    requires
        s.ok(),
        s.chip == EepromChip::C24C02,
        s.mode == Mode::Idle,
    ensures
        ({
            let t = sent_acked(sent_acked(started(s), 0xA0), address);
            &&& t.ok()
            &&& t.chip == s.chip
            &&& t.bytes == s.bytes
            &&& t.address == address
            &&& t.mode == Mode::SendAck
            &&& t.next_mode == Mode::Write
            &&& t.prev_scl == 1
            &&& t.prev_sda == 0
            &&& t.output == 0
        }),
{
    let a = started(s);
    lemma_byte_sent(a, Mode::ChipAddress, 0xA0);
    lemma_frame_bits(0xA0);
    let b = sent_acked(a, 0xA0);
    lemma_sent_bit(s.chip, 0xA0, 7);
    assert(expects(b, Mode::Address));
    lemma_byte_sent(b, Mode::Address, address);
    lemma_sent_bit(s.chip, address, 7);
}

/// Writing a byte to an idle 24C02 stores it at its address, changes no other byte, and leaves
/// the chip idle.
pub proof fn lemma_c02_write(s: EepromState, address: u8, data: u8)
    requires
        s.ok(),
        s.chip == EepromChip::C24C02,
        s.mode == Mode::Idle,
    ensures
        c02_write_frame(s, address, data).bytes == s.bytes.update(address as int, data),
        c02_write_frame(s, address, data).mode == Mode::Idle,
        c02_write_frame(s, address, data).chip == s.chip,
        c02_write_frame(s, address, data).ok(),
{
    lemma_c02_addressed(s, address);
    let t = sent_acked(sent_acked(started(s), 0xA0), address);
    lemma_byte_sent(t, Mode::Write, data);
    lemma_sent_bit(s.chip, data, 7);
    lemma_frame_bits(address);
}

/// Reading an idle 24C02 gives the bits of the byte at the address, highest first, and changes
/// nothing that is stored.
pub proof fn lemma_c02_read(s: EepromState, address: u8, i: nat)
    requires
        s.ok(),
        s.chip == EepromChip::C24C02,
        s.mode == Mode::Idle,
        i < 8,
    ensures
        drained(c02_read_frame(s, address), i + 1).output == (s.bytes[address as int] >> ((7 - i) as u8)) & 1,
        drained(c02_read_frame(s, address), i + 1).bytes == s.bytes,
{
    lemma_c02_addressed(s, address);
    let t = sent_acked(sent_acked(started(s), 0xA0), address);
    let a = started(t);
    assert(a.mode == Mode::ChipAddress && a.counter == 0 && a.address == address);
    lemma_byte_sent(a, Mode::ChipAddress, 0xA1);
    lemma_sent_bit(s.chip, 0xA1, 7);
    lemma_frame_bits(0xA1);
    let b = sent_acked(a, 0xA1);
    assert(b.data == s.bytes[address as int]);
    lemma_drained(b, i + 1);
}

/// A byte written to an idle 24C02 is what a later read of its address gives.
pub proof fn lemma_c02_reads_back(s: EepromState, address: u8, data: u8, i: nat)
    requires
        s.ok(),
        s.chip == EepromChip::C24C02,
        s.mode == Mode::Idle,
        i < 8,
    ensures
        drained(c02_read_frame(c02_write_frame(s, address, data), address), i + 1).output
            == (data >> ((7 - i) as u8)) & 1,
{
    lemma_c02_write(s, address, data);
    lemma_c02_read(c02_write_frame(s, address, data), address, i);
}

/// The address of the byte after one sent is ready when the host acknowledges: reads walk on.
#[verifier::rlimit(40)]
pub proof fn lemma_c02_read_walks(s: EepromState, address: u8)
    requires
        s.ok(),
        s.chip == EepromChip::C24C02,
        s.mode == Mode::Idle,
    ensures
        ({
            let t = pulsed(drained(c02_read_frame(s, address), 8), 0);
            &&& t.mode == Mode::WaitAck
            &&& t.next_mode == Mode::Read
            &&& t.data == s.bytes[(address + 1) % 256]
        }),
{
    lemma_c02_addressed(s, address);
    let t = sent_acked(sent_acked(started(s), 0xA0), address);
    let a = started(t);
    lemma_byte_sent(a, Mode::ChipAddress, 0xA1);
    lemma_sent_bit(s.chip, 0xA1, 7);
    lemma_frame_bits(0xA1);
    let b = sent_acked(a, 0xA1);
    lemma_drained(b, 8);
    let next = ((address + 1) % 256) as u8;
    lemma_frame_bits(next);
}

/// A second byte in the same frame goes to the next address of a 24C02, around after the last.
pub proof fn lemma_c02_writes_walk(s: EepromState, address: u8, first: u8, second: u8)
    requires
        s.ok(),
        s.chip == EepromChip::C24C02,
        s.mode == Mode::Idle,
    ensures
        ({
            let addressed = sent_acked(sent_acked(started(s), 0xA0), address);
            let both = sent_acked(sent_acked(addressed, first), second);
            both.bytes == s.bytes.update(address as int, first).update((address + 1) % 256, second)
        }),
{
    lemma_c02_addressed(s, address);
    let t = sent_acked(sent_acked(started(s), 0xA0), address);
    lemma_byte_sent(t, Mode::Write, first);
    lemma_sent_bit(s.chip, first, 7);
    lemma_frame_bits(address);
    let u = sent_acked(t, first);
    let next = ((address + 1) % 256) as u8;
    lemma_frame_bits(next);
    assert(expects(u, Mode::Write));
    assert(u.address == next);
    lemma_byte_sent(u, Mode::Write, second);
    lemma_sent_bit(s.chip, second, 7);
}

/// A start condition begins a frame and an end condition ends one, whatever the chip was doing; either
/// releases the data line and stores nothing. A chip remembers the levels of its pins, where anything
/// but zero is high.
pub proof fn lemma_start_and_stop(s: EepromState, scl: u8, sda: u8)
    requires
        s.prev_scl == 1,
        scl != 0,
    ensures
        s.prev_sda == 1 && sda == 0 ==> ({
            let t = s.wrote(scl, sda);
            &&& t.mode == (if s.chip == EepromChip::C24C02 { Mode::ChipAddress } else { Mode::Address })
            &&& t.counter == 0 && t.output == 1 && t.bytes == s.bytes
        }),
        s.prev_sda == 0 && sda != 0 ==> ({
            let t = s.wrote(scl, sda);
            t.mode == Mode::Idle && t.output == 1 && t.bytes == s.bytes
        }),
        s.wrote(scl, sda).prev_scl == 1,
        s.wrote(0, sda).prev_scl == 0,
        s.wrote(scl, sda).prev_sda == (if sda != 0 { 1u8 } else { 0u8 }),
{
}

/// The two chips: 128 bytes addressed by seven bits, lowest bit first and without a chip address, and
/// 256 bytes addressed by eight, highest bit first and with one. Both power on blank and idle.
pub proof fn lemma_two_chips(i: int)
    requires
        0 <= i < 128,
    ensures
        EepromChip::C24C01.capacity() == 128,
        EepromChip::C24C02.capacity() == 256,
        EepromChip::C24C01.mask() == 0x7F,
        EepromChip::C24C02.mask() == 0xFF,
        !EepromChip::C24C01.highest_first() && EepromChip::C24C02.highest_first(),
        !EepromChip::C24C01.is_addressed() && EepromChip::C24C02.is_addressed(),
        EepromState::power_on(EepromChip::C24C01).bytes.len() == 128,
        EepromState::power_on(EepromChip::C24C02).bytes.len() == 256,
        EepromState::power_on(EepromChip::C24C01).bytes[i] == 0,
        EepromState::power_on(EepromChip::C24C01).mode == Mode::Idle,
        EepromState::power_on(EepromChip::C24C02).mode == Mode::Idle,
{
}

/// A frame for any other chip address leaves a 24C02 idle and SDA released.
pub proof fn lemma_c02_ignores_other_chips(s: EepromState, chip_address: u8)
    requires
        s.ok(),
        s.chip == EepromChip::C24C02,
        s.mode == Mode::Idle,
        chip_address != 0xA0,
        chip_address != 0xA1,
    ensures
        sent_acked(started(s), chip_address).mode == Mode::Idle,
        sent_acked(started(s), chip_address).output == 1,
        sent_acked(started(s), chip_address).bytes == s.bytes,
{
    lemma_byte_sent(started(s), Mode::ChipAddress, chip_address);
    lemma_sent_bit(s.chip, chip_address, 7);
    assert(chip_address & 0xFE == 0xA0 ==> chip_address == 0xA0 || chip_address == 0xA1) by (bit_vector);
}

/// Writing a byte to an idle 24C01 stores it at its seven-bit address, changes no other byte,
/// and leaves the chip idle.
pub proof fn lemma_c01_write(s: EepromState, address: u8, data: u8)
    requires
        s.ok(),
        s.chip == EepromChip::C24C01,
        s.mode == Mode::Idle,
    ensures
        c01_write_frame(s, address, data).bytes == s.bytes.update((address & 0x7F) as int, data),
        c01_write_frame(s, address, data).mode == Mode::Idle,
        c01_write_frame(s, address, data).chip == s.chip,
        c01_write_frame(s, address, data).ok(),
{
    let a = started(s);
    let byte = address & 0x7F;
    lemma_frame_bits(address);
    lemma_c01_address_sent(a, byte);
    let b = sent_acked(a, byte);
    assert(expects(b, Mode::Write));
    lemma_byte_sent(b, Mode::Write, data);
    lemma_sent_bit(s.chip, data, 7);
}

/// Reading an idle 24C01 gives the bits of the byte at the address, lowest first, and changes
/// nothing that is stored.
pub proof fn lemma_c01_read(s: EepromState, address: u8, i: nat)
    requires
        s.ok(),
        s.chip == EepromChip::C24C01,
        s.mode == Mode::Idle,
        i < 8,
    ensures
        drained(c01_read_frame(s, address), i + 1).output == (s.bytes[(address & 0x7F) as int] >> (i as u8)) & 1,
        drained(c01_read_frame(s, address), i + 1).bytes == s.bytes,
{
    let a = started(s);
    let byte = address | 0x80;
    lemma_frame_bits(address);
    lemma_c01_address_sent(a, byte);
    lemma_drained(sent_acked(a, byte), i + 1);
}

/// A byte written to an idle 24C01 is what a later read of its address gives.
pub proof fn lemma_c01_reads_back(s: EepromState, address: u8, data: u8, i: nat)
    requires
        s.ok(),
        s.chip == EepromChip::C24C01,
        s.mode == Mode::Idle,
        i < 8,
    ensures
        drained(c01_read_frame(c01_write_frame(s, address, data), address), i + 1).output
            == (data >> (i as u8)) & 1,
{
    lemma_c01_write(s, address, data);
    lemma_c01_read(c01_write_frame(s, address, data), address, i);
    lemma_frame_bits(address);
}

} // verus!
