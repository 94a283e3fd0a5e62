//! SST39SF040 flash memory: the command sequencer between the CPU's writes and the bytes.
//!
//! A command is three writes: `$AA` to `$5555`, `$55` to `$2AAA`, then the command byte to
//! `$5555`. `$A0` programs the next byte written, `$80` leads to an erase after the same unlock
//! again, `$90` enters and `$F0` leaves the mode in which the chip identifies itself.
//! Programming can only clear bits; erasing sets every bit of a sector or of the chip.
use vstd::prelude::*;

verus! {

pub const MANUFACTURER_ID: u8 = 0xBF;

pub const DEVICE_ID: u8 = 0xB7;

/// Bytes of a sector, the least that can be erased.
pub const SECTOR_SIZE: usize = 0x1000;

#[derive(Debug, Clone, Copy, PartialEq, Eq, Structural)]
pub enum ChipMode {
    /// Idle, or inside the unlock sequence of a command.
    WaitingForCommand,
    /// The next write is programmed.
    Write,
    /// The next three writes may complete an erase.
    Erase,
}

/// The command sequencer. The bytes themselves belong to the board.
#[derive(Debug, Clone, Copy, PartialEq, Eq, Structural)]
pub struct FlashSst39sf040 {
    pub mode: ChipMode,
    /// Writes of the current sequence done.
    pub cycle: u8,
    pub software_id: bool,
}

/// Where a command write goes: only the low 15 address bits are decoded.
pub open spec fn command_addr(addr: u32) -> int {
    addr as int % 0x8000
}

/// First byte of the sector that holds `addr`, in a chip of half a megabyte.
pub open spec fn sector_base(addr: u32) -> int {
    addr as int % 0x8_0000 / 0x1000 * 0x1000
}

/// The number of bytes as the chip counts them, in 32 bits.
pub open spec fn chip_size(data: Seq<u8>) -> int {
    data.len() as int % 0x1_0000_0000
}

/// `data` with `n` bytes from `start` on erased.
pub open spec fn erased(data: Seq<u8>, start: int, n: int) -> Seq<u8> {
    Seq::new(data.len(), |i: int| if start <= i < start + n { 0xFFu8 } else { data[i] })
}

/// `data` with `value` programmed at `addr`: bits that are clear stay clear.
pub open spec fn programmed(data: Seq<u8>, addr: u32, value: u8) -> Seq<u8> {
    if addr < chip_size(data) {
        data.update(addr as int, data[addr as int] & value)
    } else {
        data
    }
}

impl FlashSst39sf040 {
    pub open spec fn power_on() -> FlashSst39sf040 {
        FlashSst39sf040 { mode: ChipMode::WaitingForCommand, cycle: 0, software_id: false }
    }

    /// The sequencer back at its start; whether the chip identifies itself is kept.
    pub open spec fn rewound(self) -> FlashSst39sf040 {
        FlashSst39sf040 { mode: ChipMode::WaitingForCommand, cycle: 0, ..self }
    }

    /// The byte that the chip answers with in place of its contents.
    pub open spec fn id_byte(self, addr: u32) -> Option<u8> {
        if !self.software_id {
            None
        } else if addr % 0x200 == 0 {
            Some(MANUFACTURER_ID)
        } else if addr % 0x200 == 1 {
            Some(DEVICE_ID)
        } else {
            Some(0xFF)
        }
    }

    /// The sequencer after one write of an unlock sequence.
    pub open spec fn after_command(self, addr: int, value: u8) -> FlashSst39sf040 {
        if self.cycle == 0 {
            if addr == 0x5555 && value == 0xAA {
                FlashSst39sf040 { cycle: 1, ..self }
            } else if value == 0xF0 {
                FlashSst39sf040 { software_id: false, ..self.rewound() }
            } else {
                self
            }
        } else if self.cycle == 1 && addr == 0x2AAA && value == 0x55 {
            FlashSst39sf040 { cycle: 2, ..self }
        } else if self.cycle == 2 && addr == 0x5555 {
            if value == 0x80 {
                FlashSst39sf040 { cycle: 3, mode: ChipMode::Erase, ..self }
            } else if value == 0x90 {
                FlashSst39sf040 { software_id: true, ..self.rewound() }
            } else if value == 0xA0 {
                FlashSst39sf040 { cycle: 3, mode: ChipMode::Write, ..self }
            } else if value == 0xF0 {
                FlashSst39sf040 { software_id: false, ..self.rewound() }
            } else {
                FlashSst39sf040 { cycle: 3, ..self }
            }
        } else {
            FlashSst39sf040 { cycle: 0, ..self }
        }
    }

    /// The sequencer after one write of an erase.
    pub open spec fn after_erase(self, addr: int, value: u8) -> FlashSst39sf040 {
        if self.cycle == 3 && addr == 0x5555 && value == 0xAA {
            FlashSst39sf040 { cycle: 4, ..self }
        } else if self.cycle == 4 && addr == 0x2AAA && value == 0x55 {
            FlashSst39sf040 { cycle: 5, ..self }
        } else {
            self.rewound()
        }
    }

    /// The sequencer after a write.
    pub open spec fn after_write(self, addr: u32, value: u8) -> FlashSst39sf040 {
        match self.mode {
            ChipMode::WaitingForCommand => self.after_command(command_addr(addr), value),
            ChipMode::Write => self.rewound(),
            ChipMode::Erase => self.after_erase(command_addr(addr), value),
        }
    }

    /// The bytes after a write. A sector that is not wholly in the chip is not erased.
    pub open spec fn contents_after(self, addr: u32, value: u8, data: Seq<u8>) -> Seq<u8> {
        match self.mode {
            ChipMode::WaitingForCommand => data,
            ChipMode::Write => programmed(data, addr, value),
            ChipMode::Erase => if self.cycle != 5 {
                data
            } else if command_addr(addr) == 0x5555 && value == 0x10 {
                erased(data, 0, data.len() as int)
            } else if value == 0x30 && sector_base(addr) + SECTOR_SIZE <= chip_size(data) {
                erased(data, sector_base(addr), SECTOR_SIZE as int)
            } else {
                data
            },
        }
    }

    pub fn new() -> (flash: Self)
        ensures
            flash == FlashSst39sf040::power_on(),
    {
        FlashSst39sf040 { mode: ChipMode::WaitingForCommand, cycle: 0, software_id: false }
    }

    /// The chip's answer while it identifies itself; `None` leaves the read to the board.
    pub fn read(&self, addr: u32) -> (byte: Option<u8>)
        ensures
            byte == self.id_byte(addr),
    {
        if !self.software_id {
            return None;
        }
        match addr % 0x200 {
            0x00 => Some(MANUFACTURER_ID),
            0x01 => Some(DEVICE_ID),
            _ => Some(0xFF),
        }
    }

    pub fn reset_state(&mut self)
        ensures
            *final(self) == old(self).rewound(),
    {
        self.mode = ChipMode::WaitingForCommand;
        self.cycle = 0;
    }

    /// A write at a chip address, with the chip's bytes. Returns whether a byte has changed.
    pub fn write(&mut self, addr: u32, value: u8, data: &mut [u8]) -> (mutated: bool)
        ensures
            *final(self) == old(self).after_write(addr, value),
            final(data)@ == old(self).contents_after(addr, value, old(data)@),
            mutated == (final(data)@ != old(data)@),
    {
        let cmd: u32 = addr % 0x8000;
        let size: u32 = (data.len() as u64 % 0x1_0000_0000) as u32;
        match self.mode {
            ChipMode::WaitingForCommand => {
                self.step_command(cmd, value);
                false
            }
            ChipMode::Write => {
                let mut mutated: bool = false;
                if addr < size {
                    let i: usize = addr as usize;
                    let new: u8 = data[i] & value;
                    if new != data[i] {
                        data[i] = new;
                        mutated = true;
                        assert(data@[i as int] != old(data)@[i as int]);
                    } else {
                        assert(old(data)@ =~= old(data)@.update(i as int, new));
                    }
                }
                self.reset_state();
                mutated
            }
            ChipMode::Erase => self.step_erase(addr, cmd, value, data, size),
        }
    }

    fn step_command(&mut self, cmd: u32, value: u8)
        ensures
            *final(self) == old(self).after_command(cmd as int, value),
    {
        if self.cycle == 0 {
            if cmd == 0x5555 && value == 0xAA {
                self.cycle = 1;
            } else if value == 0xF0 {
                self.reset_state();
                self.software_id = false;
            }
        } else if self.cycle == 1 && cmd == 0x2AAA && value == 0x55 {
            self.cycle = 2;
        } else if self.cycle == 2 && cmd == 0x5555 {
            self.cycle = 3;
            match value {
                0x80 => {
                    self.mode = ChipMode::Erase;
                }
                0x90 => {
                    self.reset_state();
                    self.software_id = true;
                }
                0xA0 => {
                    self.mode = ChipMode::Write;
                }
                0xF0 => {
                    self.reset_state();
                    self.software_id = false;
                }
                _ => {}
            }
        } else {
            self.cycle = 0;
        }
    }

    fn step_erase(&mut self, addr: u32, cmd: u32, value: u8, data: &mut [u8], size: u32) -> (mutated: bool)
        requires
            old(self).mode == ChipMode::Erase,
            cmd == command_addr(addr),
            size == chip_size(old(data)@),
        ensures
            *final(self) == old(self).after_erase(cmd as int, value),
            final(data)@ == old(self).contents_after(addr, value, old(data)@),
            mutated == (final(data)@ != old(data)@),
    {
        if self.cycle == 3 && cmd == 0x5555 && value == 0xAA {
            self.cycle = 4;
            false
        } else if self.cycle == 4 && cmd == 0x2AAA && value == 0x55 {
            self.cycle = 5;
            false
        } else {
            let mut mutated: bool = false;
            if self.cycle == 5 {
                if cmd == 0x5555 && value == 0x10 {
                    let n: usize = data.len();
                    mutated = erase(data, 0, n);
                } else if value == 0x30 {
                    let offset: u32 = addr % 0x8_0000 / 0x1000 * 0x1000;
                    if offset + SECTOR_SIZE as u32 <= size {
                        mutated = erase(data, offset as usize, SECTOR_SIZE);
                    }
                }
            }
            self.reset_state();
            mutated
        }
    }
}

impl Default for FlashSst39sf040 {
    fn default() -> (flash: Self)
        ensures
            flash == FlashSst39sf040::power_on(),
    {
        FlashSst39sf040::new()
    }
}

/// Sets `n` bytes from `start` on to `$FF`; returns whether one was anything else.
fn erase(data: &mut [u8], start: usize, n: usize) -> (mutated: bool)
    requires
        start + n <= old(data)@.len(),
    ensures
        final(data)@ == erased(old(data)@, start as int, n as int),
        mutated == (final(data)@ != old(data)@),
{
    let size: usize = data.len();
    let mut mutated: bool = false;
    let mut i: usize = 0;
    while i < n
        invariant
            i <= n,
            start + n <= size,
            data@.len() == size,
            data@.len() == old(data)@.len(),
            data@ =~= erased(old(data)@, start as int, i as int),
            mutated ==> exists|k: int| 0 <= k < data@.len() && data@[k] != #[trigger] old(data)@[k],
            !mutated ==> data@ == old(data)@,
        decreases n - i,
    {
        if data[start + i] != 0xFF {
            data[start + i] = 0xFF;
            mutated = true;
            assert(data@[start + i] != old(data)@[start + i]);
        }
        i = i + 1;
        assert(data@ =~= erased(old(data)@, start as int, i as int));
    }
    mutated
}

/// The chip after the writes `(addr, value)` in order.
pub open spec fn after_writes(flash: FlashSst39sf040, data: Seq<u8>, writes: Seq<(u32, u8)>) -> (
    FlashSst39sf040,
    Seq<u8>,
)
    decreases writes.len(),
{
    if writes.len() == 0 {
        (flash, data)
    } else {
        let (addr, value) = writes[0];
        after_writes(
            flash.after_write(addr, value),
            flash.contents_after(addr, value, data),
            writes.skip(1),
        )
    }
}

/// The two writes that unlock a command.
pub open spec fn unlock() -> Seq<(u32, u8)> {
    seq![(0x5555u32, 0xAAu8), (0x2AAAu32, 0x55u8)]
}

proof fn lemma_after_writes_push(flash: FlashSst39sf040, data: Seq<u8>, writes: Seq<(u32, u8)>, last: (u32, u8))
    ensures
        ({
            let before = after_writes(flash, data, writes);
            after_writes(flash, data, writes.push(last)) == (
                before.0.after_write(last.0, last.1),
                before.0.contents_after(last.0, last.1, before.1),
            )
        }),
    decreases writes.len(),
{
    let all = writes.push(last);
    if writes.len() == 0 {
        assert(all.skip(1) =~= Seq::empty());
        reveal_with_fuel(after_writes, 2);
    } else {
        assert(all.skip(1) =~= writes.skip(1).push(last));
        let (addr, value) = writes[0];
        lemma_after_writes_push(
            flash.after_write(addr, value),
            flash.contents_after(addr, value, data),
            writes.skip(1),
            last,
        );
    }
}

proof fn lemma_unlocked(flash: FlashSst39sf040, data: Seq<u8>)
    requires
        flash == flash.rewound(),
    ensures
        after_writes(flash, data, unlock()) == (FlashSst39sf040 { cycle: 2, ..flash }, data),
{
    let none = Seq::<(u32, u8)>::empty();
    lemma_after_writes_push(flash, data, none, (0x5555, 0xAA));
    lemma_after_writes_push(flash, data, none.push((0x5555, 0xAA)), (0x2AAA, 0x55));
    assert(none.push((0x5555u32, 0xAAu8)).push((0x2AAAu32, 0x55u8)) =~= unlock());
}

/// The four writes of a program command change the one byte addressed, clearing the bits that
/// `value` has clear, and leave the chip idle.
pub proof fn lemma_program(flash: FlashSst39sf040, data: Seq<u8>, addr: u32, value: u8)
    requires
        flash == flash.rewound(),
    ensures
        after_writes(flash, data, unlock().push((0x5555, 0xA0)).push((addr, value))) == (
            flash,
            programmed(data, addr, value),
        ),
{
    lemma_unlocked(flash, data);
    lemma_after_writes_push(flash, data, unlock(), (0x5555, 0xA0));
    lemma_after_writes_push(flash, data, unlock().push((0x5555, 0xA0)), (addr, value));
}

proof fn lemma_erase_unlocked(flash: FlashSst39sf040, data: Seq<u8>)
    requires
        flash == flash.rewound(),
    ensures
        after_writes(
            flash,
            data,
            unlock().push((0x5555, 0x80)).push((0x5555, 0xAA)).push((0x2AAA, 0x55)),
        ) == (FlashSst39sf040 { mode: ChipMode::Erase, cycle: 5, ..flash }, data),
{
    lemma_unlocked(flash, data);
    lemma_after_writes_push(flash, data, unlock(), (0x5555, 0x80));
    lemma_after_writes_push(flash, data, unlock().push((0x5555, 0x80)), (0x5555, 0xAA));
    lemma_after_writes_push(
        flash,
        data,
        unlock().push((0x5555, 0x80)).push((0x5555, 0xAA)),
        (0x2AAA, 0x55),
    );
}

/// The six writes of a sector erase set the bytes of that sector and no other, and leave the
/// chip idle.
pub proof fn lemma_sector_erase(flash: FlashSst39sf040, data: Seq<u8>, addr: u32)
    requires
        flash == flash.rewound(),
        sector_base(addr) + SECTOR_SIZE <= chip_size(data),
    ensures
        after_writes(
            flash,
            data,
            unlock().push((0x5555, 0x80)).push((0x5555, 0xAA)).push((0x2AAA, 0x55)).push((addr, 0x30)),
        ) == (flash, erased(data, sector_base(addr), SECTOR_SIZE as int)),
{
    lemma_erase_unlocked(flash, data);
    lemma_after_writes_push(
        flash,
        data,
        unlock().push((0x5555, 0x80)).push((0x5555, 0xAA)).push((0x2AAA, 0x55)),
        (addr, 0x30),
    );
}

/// The six writes of a chip erase set every byte and leave the chip idle.
pub proof fn lemma_chip_erase(flash: FlashSst39sf040, data: Seq<u8>)
    requires
        flash == flash.rewound(),
    ensures
        after_writes(
            flash,
            data,
            unlock().push((0x5555, 0x80)).push((0x5555, 0xAA)).push((0x2AAA, 0x55)).push((0x5555, 0x10)),
        ) == (flash, erased(data, 0, data.len() as int)),
{
    lemma_erase_unlocked(flash, data);
    lemma_after_writes_push(
        flash,
        data,
        unlock().push((0x5555, 0x80)).push((0x5555, 0xAA)).push((0x2AAA, 0x55)),
        (0x5555, 0x10),
    );
}

/// The identification command makes the chip answer reads, until `$F0` is written.
pub proof fn lemma_software_id(flash: FlashSst39sf040, data: Seq<u8>, addr: u32, any: u32)
    requires
        flash == flash.rewound(),
    ensures
        ({
            let entered = after_writes(flash, data, unlock().push((0x5555, 0x90)));
            &&& entered == (FlashSst39sf040 { software_id: true, ..flash }, data)
            &&& entered.0.id_byte(addr) is Some
            &&& entered.0.after_write(any, 0xF0).id_byte(addr) is None
        }),
{
    lemma_unlocked(flash, data);
    lemma_after_writes_push(flash, data, unlock(), (0x5555, 0x90));
}

/// Only an erase can set a bit: any other write leaves each byte within what it was.
pub proof fn lemma_writes_only_clear(flash: FlashSst39sf040, data: Seq<u8>, addr: u32, value: u8, i: int)
    requires
        flash.mode != ChipMode::Erase,
        0 <= i < data.len(),
    ensures
        flash.contents_after(addr, value, data).len() == data.len(),
        flash.contents_after(addr, value, data)[i] & data[i] == flash.contents_after(addr, value, data)[i],
{
    let d = data[i];
    assert((d & value) & d == d & value && d & d == d) by (bit_vector);
}

/// A sector erase sets the 4 KiB that hold the addressed byte, that byte among them, and changes no
/// other.
pub proof fn lemma_sector_erase_hits_the_address(flash: FlashSst39sf040, data: Seq<u8>, addr: u32, i: int)
    requires
        flash == flash.rewound(),
        addr < 0x8_0000,
        addr < data.len(),
        data.len() % 0x1000 == 0,
        data.len() < 0x1_0000_0000,
        0 <= i < data.len(),
    ensures
        ({
            let after = after_writes(
                flash,
                data,
                unlock().push((0x5555, 0x80)).push((0x5555, 0xAA)).push((0x2AAA, 0x55)).push((addr, 0x30)),
            );
            &&& after.0 == flash
            &&& after.1.len() == data.len()
            &&& after.1[addr as int] == 0xFF
            &&& i / 0x1000 == addr as int / 0x1000 ==> after.1[i] == 0xFF
            &&& i / 0x1000 != addr as int / 0x1000 ==> after.1[i] == data[i]
        }),
{
    lemma_sector_erase(flash, data, addr);
}

/// A chip erase sets every byte.
pub proof fn lemma_chip_erase_sets_all(flash: FlashSst39sf040, data: Seq<u8>, i: int)
    requires
        flash == flash.rewound(),
        0 <= i < data.len(),
    ensures
        ({
            let after = after_writes(
                flash,
                data,
                unlock().push((0x5555, 0x80)).push((0x5555, 0xAA)).push((0x2AAA, 0x55)).push((0x5555, 0x10)),
            );
            after.1.len() == data.len() && after.1[i] == 0xFF
        }),
{
    lemma_chip_erase(flash, data);
}

/// A program command leaves at its address the bits that both the old byte and the value have, and
/// every other byte as it was; past the end it changes nothing.
pub proof fn lemma_program_hits_the_address(flash: FlashSst39sf040, data: Seq<u8>, addr: u32, value: u8, i: int)
    requires
        flash == flash.rewound(),
        data.len() < 0x1_0000_0000,
        0 <= i < data.len(),
    ensures
        ({
            let after = after_writes(flash, data, unlock().push((0x5555, 0xA0)).push((addr, value)));
            &&& after.0 == flash
            &&& after.1.len() == data.len()
            &&& i == addr ==> after.1[i] == data[i] & value
            &&& i != addr ==> after.1[i] == data[i]
        }),
{
    lemma_program(flash, data, addr, value);
}

/// An identifying chip answers with its maker at the start of each 512 bytes, its type next, and
/// `$FF` elsewhere; a chip that is not identifying itself leaves the read to the board.
pub proof fn lemma_identification(flash: FlashSst39sf040, addr: u32)
    ensures
        !flash.software_id ==> flash.id_byte(addr) is None,
        flash.software_id && addr % 0x200 == 0 ==> flash.id_byte(addr) == Some(0xBFu8),
        flash.software_id && addr % 0x200 == 1 ==> flash.id_byte(addr) == Some(0xB7u8),
        flash.software_id && addr % 0x200 > 1 ==> flash.id_byte(addr) == Some(0xFFu8),
        flash.rewound().software_id == flash.software_id,
        FlashSst39sf040::power_on() == FlashSst39sf040::power_on().rewound(),
        !FlashSst39sf040::power_on().software_id,
{
}

/// A write that does not continue an unlock sequence breaks it off, and an idle chip takes only the
/// first unlock write or `$F0`. Commands decode 15 address bits.
pub proof fn lemma_broken_sequences(flash: FlashSst39sf040, data: Seq<u8>, addr: u32, value: u8)
    requires
        flash.mode == ChipMode::WaitingForCommand,
    ensures
        flash.contents_after(addr, value, data) == data,
        flash.after_write(addr, value) == flash.after_write(addr % 0x8000, value),
        flash.cycle == 0 && addr % 0x8000 == 0x5555 && value == 0xAA ==> flash.after_write(addr, value).cycle == 1,
        flash.cycle == 0 && (addr % 0x8000 != 0x5555 || value != 0xAA) && value != 0xF0 ==> flash.after_write(
            addr,
            value,
        ) == flash,
        flash.cycle == 1 && addr % 0x8000 == 0x2AAA && value == 0x55 ==> flash.after_write(addr, value).cycle == 2,
        flash.cycle == 1 && (addr % 0x8000 != 0x2AAA || value != 0x55) ==> flash.after_write(addr, value).cycle == 0,
        flash.cycle == 2 && addr % 0x8000 != 0x5555 ==> flash.after_write(addr, value).cycle == 0,
        flash.cycle == 2 && addr % 0x8000 == 0x5555 && value == 0xF0 ==> !flash.after_write(addr, value).software_id,
{
}

/// An erase that is not carried through to its end erases nothing and leaves the chip idle.
pub proof fn lemma_broken_erase(flash: FlashSst39sf040, data: Seq<u8>, addr: u32, value: u8)
    requires
        flash.mode == ChipMode::Erase,
    ensures
        flash.cycle < 5 ==> flash.contents_after(addr, value, data) == data,
        value != 0x10 && value != 0x30 ==> flash.contents_after(addr, value, data) == data,
        flash.cycle == 3 && (addr % 0x8000 != 0x5555 || value != 0xAA) ==> flash.after_write(addr, value)
            == flash.rewound(),
        flash.cycle == 4 && (addr % 0x8000 != 0x2AAA || value != 0x55) ==> flash.after_write(addr, value)
            == flash.rewound(),
        flash.cycle == 5 ==> flash.after_write(addr, value) == flash.rewound(),
        flash.rewound().mode == ChipMode::WaitingForCommand,
        flash.rewound().cycle == 0,
{
}

} // verus!
