//! Serial EEPROMs 24C01 (128 bytes) and 24C02 (256 bytes), spoken to over two wires.
//!
//! The host drives the clock SCL and the data line SDA; the chip pulls SDA low to acknowledge
//! and to send. SDA falling while SCL is high starts a frame, SDA rising while SCL is high ends
//! it. Bits are taken on the rising edge of SCL, and the chip changes mode on the falling edge.
//!
//! | | 24C01 | 24C02 |
//! |---|---|---|
//! | bit order | lowest first | highest first |
//! | frame | address and direction bit, data | chip address and direction bit, address, data |
//! | chip address | none | `$A0` to write, `$A1` to read |
//! | address | 7 bits | 8 bits |
use vstd::prelude::*;

use crate::mem::{copied, reload, reloaded, zeroed, zeros};
use crate::save_state::mapper::EepromSnap;

verus! {

#[derive(Debug, Clone, Copy, PartialEq, Eq, Structural)]
pub enum EepromChip {
    C24C01,
    C24C02,
}

impl EepromChip {
    pub open spec fn capacity(self) -> nat {
        match self {
            EepromChip::C24C01 => 128,
            EepromChip::C24C02 => 256,
        }
    }

    pub fn size(self) -> (n: usize)
        ensures
            n == self.capacity(),
    {
        match self {
            EepromChip::C24C01 => 128,
            EepromChip::C24C02 => 256,
        }
    }

    pub open spec fn mask(self) -> u8 {
        match self {
            EepromChip::C24C01 => 0x7F,
            EepromChip::C24C02 => 0xFF,
        }
    }

    pub fn addr_mask(self) -> (mask: u8)
        ensures
            mask == self.mask(),
    {
        match self {
            EepromChip::C24C01 => 0x7F,
            EepromChip::C24C02 => 0xFF,
        }
    }

    /// Whether bytes travel with their highest bit first.
    pub open spec fn highest_first(self) -> bool {
        self == EepromChip::C24C02
    }

    pub fn msb_first(self) -> (yes: bool)
        ensures
            yes == self.highest_first(),
    {
        match self {
            EepromChip::C24C01 => false,
            EepromChip::C24C02 => true,
        }
    }

    /// Whether a frame starts with a chip address.
    pub open spec fn is_addressed(self) -> bool {
        self == EepromChip::C24C02
    }

    pub fn has_chip_address(self) -> (yes: bool)
        ensures
            yes == self.is_addressed(),
    {
        match self {
            EepromChip::C24C01 => false,
            EepromChip::C24C02 => true,
        }
    }
}

#[derive(Debug, Clone, Copy, PartialEq, Eq, Structural)]
pub enum Mode {
    Idle,
    /// Taking the chip address and direction bit; 24C02 only.
    ChipAddress,
    /// Taking the address, on the 24C01 with the direction bit.
    Address,
    /// Sending a byte.
    Read,
    /// Taking a byte to store.
    Write,
    /// Acknowledging what was taken.
    SendAck,
    /// Waiting for the host to acknowledge what was sent.
    WaitAck,
}

/// The register that a received bit goes to.
#[derive(Debug, Clone, Copy, PartialEq, Eq, Structural)]
pub enum FieldKind {
    ChipAddress,
    Address,
    Data,
}

pub struct Eeprom24C0X {
    pub chip: EepromChip,
    pub bytes: Vec<u8>,
    pub mode: Mode,
    /// The mode that follows an acknowledgement.
    pub next_mode: Mode,
    pub chip_address: u8,
    pub address: u8,
    /// Shift register of the current byte.
    pub data: u8,
    /// Bits of the current byte done.
    pub counter: u8,
    /// The level the chip leaves on SDA; it is pulled up where the chip lets go.
    pub output: u8,
    pub prev_scl: u8,
    pub prev_sda: u8,
}

/// The state of an [`Eeprom24C0X`].
pub struct EepromState {
    pub chip: EepromChip,
    pub bytes: Seq<u8>,
    pub mode: Mode,
    pub next_mode: Mode,
    pub chip_address: u8,
    pub address: u8,
    pub data: u8,
    pub counter: u8,
    pub output: u8,
    pub prev_scl: u8,
    pub prev_sda: u8,
}

impl View for Eeprom24C0X {
    type V = EepromState;

    open spec fn view(&self) -> EepromState {
        EepromState {
            chip: self.chip,
            bytes: self.bytes@,
            mode: self.mode,
            next_mode: self.next_mode,
            chip_address: self.chip_address,
            address: self.address,
            data: self.data,
            counter: self.counter,
            output: self.output,
            prev_scl: self.prev_scl,
            prev_sda: self.prev_sda,
        }
    }
}

/// A pin's level: anything but zero is high.
pub open spec fn level(pin: u8) -> u8 {
    if pin != 0 {
        1
    } else {
        0
    }
}

/// `x` with bit `pos` set to `bit`.
pub open spec fn with_bit(x: u8, pos: u8, bit: u8) -> u8 {
    (x & !(1u8 << pos)) | ((bit & 1) << pos)
}

/// Chip addresses are for the chip that has one.
pub open spec fn mode_fits(chip: EepromChip, mode: Mode) -> bool {
    mode == Mode::ChipAddress ==> chip.is_addressed()
}

impl EepromState {
    pub open spec fn ok(self) -> bool {
        &&& self.bytes.len() == self.chip.capacity()
        &&& mode_fits(self.chip, self.mode)
        &&& mode_fits(self.chip, self.next_mode)
    }

    pub open spec fn power_on(chip: EepromChip) -> EepromState {
        EepromState {
            chip,
            bytes: zeros(chip.capacity()),
            mode: Mode::Idle,
            next_mode: Mode::Idle,
            chip_address: 0,
            address: 0,
            data: 0,
            counter: 0,
            output: 1,
            prev_scl: 0,
            prev_sda: 0,
        }
    }

    /// The cell that the address register points at.
    pub open spec fn cell(self) -> int {
        (self.address & self.chip.mask()) as int
    }

    /// The address after the current one.
    pub open spec fn next_address(self) -> u8 {
        ((self.address + 1) % 256) as u8 & self.chip.mask()
    }

    /// The position of the next bit in its byte.
    pub open spec fn bit_pos(self) -> u8 {
        if self.chip.highest_first() {
            (7 - self.counter) as u8
        } else {
            self.counter
        }
    }

    pub open spec fn field(self, field: FieldKind) -> u8 {
        match field {
            FieldKind::ChipAddress => self.chip_address,
            FieldKind::Address => self.address,
            FieldKind::Data => self.data,
        }
    }

    pub open spec fn with_field(self, field: FieldKind, value: u8) -> EepromState {
        match field {
            FieldKind::ChipAddress => EepromState { chip_address: value, ..self },
            FieldKind::Address => EepromState { address: value, ..self },
            FieldKind::Data => EepromState { data: value, ..self },
        }
    }

    /// One received bit shifted in; after eight the rest is ignored.
    pub open spec fn bit_taken(self, sda: u8, field: FieldKind) -> EepromState {
        if self.counter >= 8 {
            self
        } else {
            EepromState {
                counter: (self.counter + 1) as u8,
                ..self.with_field(field, with_bit(self.field(field), self.bit_pos(), sda))
            }
        }
    }

    /// One bit of the shift register put on SDA.
    pub open spec fn bit_sent(self) -> EepromState {
        if self.counter >= 8 {
            self
        } else {
            EepromState {
                counter: (self.counter + 1) as u8,
                output: if self.data & (1u8 << self.bit_pos()) != 0 { 1 } else { 0 },
                ..self
            }
        }
    }

    pub open spec fn clock_risen(self, sda: u8) -> EepromState {
        match self.mode {
            Mode::ChipAddress => self.bit_taken(sda, FieldKind::ChipAddress),
            Mode::Address => if self.chip.is_addressed() || self.counter < 7 {
                self.bit_taken(sda, FieldKind::Address)
            } else if self.counter > 7 {
                self
            } else if sda == 1 {
                EepromState { counter: 8, next_mode: Mode::Read, data: self.bytes[self.cell()], ..self }
            } else {
                EepromState { counter: 8, next_mode: Mode::Write, ..self }
            },
            Mode::SendAck => EepromState { output: 0, ..self },
            Mode::Read => self.bit_sent(),
            Mode::Write => self.bit_taken(sda, FieldKind::Data),
            Mode::WaitAck => if self.chip.is_addressed() {
                if sda == 0 {
                    EepromState { next_mode: Mode::Read, data: self.bytes[self.cell()], ..self }
                } else {
                    self
                }
            } else if sda != 0 {
                EepromState { next_mode: Mode::Idle, ..self }
            } else {
                self
            },
            Mode::Idle => self,
        }
    }

    pub open spec fn clock_fallen(self) -> EepromState {
        match self.mode {
            Mode::ChipAddress => if self.counter != 8 {
                self
            } else if self.chip_address & 0xFE != 0xA0 {
                EepromState { mode: Mode::Idle, counter: 0, output: 1, ..self }
            } else if self.chip_address & 0x01 != 0 {
                EepromState {
                    mode: Mode::SendAck,
                    next_mode: Mode::Read,
                    counter: 0,
                    output: 1,
                    data: self.bytes[self.address as int],
                    ..self
                }
            } else {
                EepromState { mode: Mode::SendAck, next_mode: Mode::Address, counter: 0, output: 1, ..self }
            },
            Mode::Address => if self.counter != 8 {
                self
            } else if self.chip.is_addressed() {
                EepromState { mode: Mode::SendAck, next_mode: Mode::Write, counter: 0, output: 1, ..self }
            } else {
                EepromState { mode: Mode::SendAck, output: 1, ..self }
            },
            Mode::SendAck => EepromState { mode: self.next_mode, counter: 0, output: 1, ..self },
            Mode::Read => if self.counter == 8 {
                EepromState { mode: Mode::WaitAck, address: self.next_address(), ..self }
            } else {
                self
            },
            Mode::Write => if self.counter == 8 {
                EepromState {
                    mode: Mode::SendAck,
                    next_mode: if self.chip.is_addressed() { Mode::Write } else { Mode::Idle },
                    counter: 0,
                    bytes: self.bytes.update(self.cell(), self.data),
                    address: self.next_address(),
                    ..self
                }
            } else {
                self
            },
            Mode::WaitAck => if self.chip.is_addressed() {
                EepromState { mode: self.next_mode, counter: 0, output: 1, ..self }
            } else {
                self
            },
            Mode::Idle => self,
        }
    }

    /// The chip after the host has set the two pins.
    pub open spec fn wrote(self, scl_pin: u8, sda_pin: u8) -> EepromState {
        let scl = level(scl_pin);
        let sda = level(sda_pin);
        let reacted = if self.prev_scl == 1 && scl == 1 && sda < self.prev_sda {
            // Start of a frame.
            if self.chip.is_addressed() {
                EepromState { mode: Mode::ChipAddress, counter: 0, output: 1, ..self }
            } else {
                EepromState { mode: Mode::Address, address: 0, counter: 0, output: 1, ..self }
            }
        } else if self.prev_scl == 1 && scl == 1 && sda > self.prev_sda {
            // End of a frame.
            EepromState { mode: Mode::Idle, output: 1, ..self }
        } else if scl > self.prev_scl {
            self.clock_risen(sda)
        } else if scl < self.prev_scl {
            self.clock_fallen()
        } else {
            self
        };
        EepromState { prev_scl: scl, prev_sda: sda, ..reacted }
    }

    /// The chip with what `snap` holds; which chip it is stays the board's.
    pub open spec fn restored(self, snap: EepromSnap) -> EepromState {
        EepromState {
            chip: self.chip,
            bytes: reloaded(self.bytes, snap.bytes@),
            mode: snap.mode,
            next_mode: snap.next_mode,
            chip_address: snap.chip_address,
            address: snap.address,
            data: snap.data,
            counter: snap.counter,
            output: snap.output,
            prev_scl: snap.prev_scl,
            prev_sda: snap.prev_sda,
        }
    }

    /// Whether `snap` was taken in this state.
    pub open spec fn captured(self, snap: EepromSnap) -> bool {
        &&& snap.chip == self.chip
        &&& snap.bytes@ == self.bytes
        &&& snap.mode == self.mode
        &&& snap.next_mode == self.next_mode
        &&& snap.chip_address == self.chip_address
        &&& snap.address == self.address
        &&& snap.data == self.data
        &&& snap.counter == self.counter
        &&& snap.output == self.output
        &&& snap.prev_scl == self.prev_scl
        &&& snap.prev_sda == self.prev_sda
    }
}

/// Whether a snapshot's modes are ones that `chip` has.
pub open spec fn eeprom_snap_fits(chip: EepromChip, snap: EepromSnap) -> bool {
    mode_fits(chip, snap.mode) && mode_fits(chip, snap.next_mode)
}

impl Eeprom24C0X {
    pub fn new(chip: EepromChip) -> (eeprom: Self)
        ensures
            eeprom@ == EepromState::power_on(chip),
            eeprom@.ok(),
    {
        Eeprom24C0X {
            chip,
            bytes: zeroed(chip.size()),
            mode: Mode::Idle,
            next_mode: Mode::Idle,
            chip_address: 0,
            address: 0,
            data: 0,
            counter: 0,
            output: 1,
            prev_scl: 0,
            prev_sda: 0,
        }
    }

    /// The level on SDA.
    pub fn read(&self) -> (output: u8)
        ensures
            output == self@.output,
    {
        self.output
    }

    /// The stored bytes.
    pub fn bytes(&self) -> (bytes: &[u8])
        ensures
            bytes@ == self@.bytes,
    {
        self.bytes.as_slice()
    }

    /// Replaces the stored bytes; data of another length is ignored.
    pub fn load(&mut self, data: &[u8])
        requires
            old(self)@.ok(),
        ensures
            final(self)@ == (EepromState { bytes: reloaded(old(self)@.bytes, data@), ..old(self)@ }),
            final(self)@.ok(),
    {
        reload(&mut self.bytes, data);
    }

    /// Sets both pins.
    pub fn write(&mut self, scl: u8, sda: u8)
        requires
            old(self)@.ok(),
        ensures
            final(self)@ == old(self)@.wrote(scl, sda),
            final(self)@.ok(),
    {
        let scl: u8 = if scl != 0 { 1 } else { 0 };
        let sda: u8 = if sda != 0 { 1 } else { 0 };
        if self.prev_scl == 1 && scl == 1 && sda < self.prev_sda {
            if self.chip.has_chip_address() {
                self.mode = Mode::ChipAddress;
            } else {
                self.mode = Mode::Address;
                self.address = 0;
            }
            self.counter = 0;
            self.output = 1;
        } else if self.prev_scl == 1 && scl == 1 && sda > self.prev_sda {
            self.mode = Mode::Idle;
            self.output = 1;
        } else if scl > self.prev_scl {
            self.on_clock_rise(sda);
        } else if scl < self.prev_scl {
            self.on_clock_fall();
        }
        self.prev_scl = scl;
        self.prev_sda = sda;
    }

    /// Sets the clock pin and leaves the data pin as it was.
    pub fn write_scl(&mut self, scl: u8)
        requires
            old(self)@.ok(),
        ensures
            final(self)@ == old(self)@.wrote(scl, old(self)@.prev_sda),
            final(self)@.ok(),
    {
        let sda: u8 = self.prev_sda;
        self.write(scl, sda);
    }

    /// Sets the data pin and leaves the clock pin as it was.
    pub fn write_sda(&mut self, sda: u8)
        requires
            old(self)@.ok(),
        ensures
            final(self)@ == old(self)@.wrote(old(self)@.prev_scl, sda),
            final(self)@.ok(),
    {
        let scl: u8 = self.prev_scl;
        self.write(scl, sda);
    }

    /// The byte at the address register.
    fn addressed_byte(&self) -> (byte: u8)
        requires
            self@.ok(),
        ensures
            byte == self@.bytes[self@.cell()],
    {
        let mask: u8 = self.chip.addr_mask();
        proof {
            crate::bits::lemma_mask_u8(self.address, mask);
        }
        self.bytes[(self.address & mask) as usize]
    }

    fn advance_address(&mut self)
        requires
            old(self)@.ok(),
        ensures
            final(self)@ == (EepromState { address: old(self)@.next_address(), ..old(self)@ }),
            final(self)@.ok(),
    {
        self.address = self.address.wrapping_add(1) & self.chip.addr_mask();
    }

    fn on_clock_rise(&mut self, sda: u8)
        requires
            old(self)@.ok(),
        ensures
            final(self)@ == old(self)@.clock_risen(sda),
            final(self)@.ok(),
    {
        match self.mode {
            Mode::ChipAddress => self.write_bit(sda, FieldKind::ChipAddress),
            Mode::Address => {
                if self.chip.has_chip_address() {
                    self.write_bit(sda, FieldKind::Address);
                } else if self.counter < 7 {
                    self.write_bit(sda, FieldKind::Address);
                } else if self.counter == 7 {
                    self.counter = 8;
                    if sda == 1 {
                        self.next_mode = Mode::Read;
                        self.data = self.addressed_byte();
                    } else {
                        self.next_mode = Mode::Write;
                    }
                }
            }
            Mode::SendAck => {
                self.output = 0;
            }
            Mode::Read => self.read_bit(),
            Mode::Write => self.write_bit(sda, FieldKind::Data),
            Mode::WaitAck => {
                if self.chip.has_chip_address() {
                    if sda == 0 {
                        self.next_mode = Mode::Read;
                        self.data = self.addressed_byte();
                    }
                } else if sda != 0 {
                    self.next_mode = Mode::Idle;
                }
            }
            Mode::Idle => {}
        }
    }

    fn on_clock_fall(&mut self)
        requires
            old(self)@.ok(),
        ensures
            final(self)@ == old(self)@.clock_fallen(),
            final(self)@.ok(),
    {
        match self.mode {
            Mode::ChipAddress => {
                if self.counter == 8 {
                    if (self.chip_address & 0xFE) == 0xA0 {
                        self.mode = Mode::SendAck;
                        self.counter = 0;
                        self.output = 1;
                        if self.chip_address & 0x01 != 0 {
                            self.next_mode = Mode::Read;
                            self.data = self.bytes[self.address as usize];
                        } else {
                            self.next_mode = Mode::Address;
                        }
                    } else {
                        self.mode = Mode::Idle;
                        self.counter = 0;
                        self.output = 1;
                    }
                }
            }
            Mode::Address => {
                if self.counter == 8 {
                    if self.chip.has_chip_address() {
                        self.counter = 0;
                        self.next_mode = Mode::Write;
                    }
                    self.mode = Mode::SendAck;
                    self.output = 1;
                }
            }
            Mode::SendAck => {
                self.mode = self.next_mode;
                self.counter = 0;
                self.output = 1;
            }
            Mode::Read => {
                if self.counter == 8 {
                    self.mode = Mode::WaitAck;
                    self.advance_address();
                }
            }
            Mode::Write => {
                if self.counter == 8 {
                    self.counter = 0;
                    self.mode = Mode::SendAck;
                    self.next_mode = if self.chip.has_chip_address() { Mode::Write } else { Mode::Idle };
                    let mask: u8 = self.chip.addr_mask();
                    proof {
                        crate::bits::lemma_mask_u8(self.address, mask);
                    }
                    let cell: usize = (self.address & mask) as usize;
                    self.bytes[cell] = self.data;
                    self.advance_address();
                }
            }
            Mode::WaitAck => {
                if self.chip.has_chip_address() {
                    self.mode = self.next_mode;
                    self.counter = 0;
                    self.output = 1;
                }
            }
            Mode::Idle => {}
        }
    }

    fn write_bit(&mut self, sda: u8, field: FieldKind)
        requires
            old(self)@.ok(),
        ensures
            final(self)@ == old(self)@.bit_taken(sda, field),
            final(self)@.ok(),
    {
        if self.counter >= 8 {
            return;
        }
        let bit_pos: u8 = if self.chip.msb_first() { 7 - self.counter } else { self.counter };
        let mask: u8 = !(1u8 << bit_pos);
        let set: u8 = (sda & 1) << bit_pos;
        match field {
            FieldKind::ChipAddress => {
                self.chip_address = (self.chip_address & mask) | set;
            }
            FieldKind::Address => {
                self.address = (self.address & mask) | set;
            }
            FieldKind::Data => {
                self.data = (self.data & mask) | set;
            }
        }
        self.counter = self.counter + 1;
    }

    fn read_bit(&mut self)
        requires
            old(self)@.ok(),
        ensures
            final(self)@ == old(self)@.bit_sent(),
            final(self)@.ok(),
    {
        if self.counter >= 8 {
            return;
        }
        let bit_pos: u8 = if self.chip.msb_first() { 7 - self.counter } else { self.counter };
        self.output = if self.data & (1u8 << bit_pos) != 0 { 1 } else { 0 };
        self.counter = self.counter + 1;
    }

    pub fn save_state_capture(&self) -> (snap: EepromSnap)
        ensures
            self@.captured(snap),
    {
        EepromSnap {
            chip: self.chip,
            bytes: copied(&self.bytes),
            mode: self.mode,
            next_mode: self.next_mode,
            chip_address: self.chip_address,
            address: self.address,
            data: self.data,
            counter: self.counter,
            output: self.output,
            prev_scl: self.prev_scl,
            prev_sda: self.prev_sda,
        }
    }

    pub fn save_state_apply(&mut self, snap: &EepromSnap)
        requires
            old(self)@.ok(),
            eeprom_snap_fits(old(self)@.chip, *snap),
        ensures
            final(self)@ == old(self)@.restored(*snap),
            final(self)@.ok(),
    {
        reload(&mut self.bytes, snap.bytes.as_slice());
        self.mode = snap.mode;
        self.next_mode = snap.next_mode;
        self.chip_address = snap.chip_address;
        self.address = snap.address;
        self.data = snap.data;
        self.counter = snap.counter;
        self.output = snap.output;
        self.prev_scl = snap.prev_scl;
        self.prev_sda = snap.prev_sda;
    }
}

/// A snapshot brings back the chip it was taken from, whatever happened to it since.
pub proof fn lemma_eeprom_round_trip(s: EepromState, later: EepromState, snap: EepromSnap)
    requires
        s.ok(),
        later.ok(),
        s.captured(snap),
        later.chip == s.chip,
    ensures
        eeprom_snap_fits(later.chip, snap),
        later.restored(snap) == s,
{
}

/// The chip drives SDA to one of two levels: it powers on with the line released, and no change of
/// the pins leaves anything but a bit on it.
pub proof fn lemma_output_is_a_bit(s: EepromState, chip: EepromChip, scl: u8, sda: u8)
    requires
        s.output <= 1,
    ensures
        EepromState::power_on(chip).output == 1,
        s.wrote(scl, sda).output <= 1,
{
}

} // verus!
