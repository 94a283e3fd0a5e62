//! Jaleco SS88006 (iNES mapper 18).
//!
//! Three switchable 8 KiB PRG windows from `$8000`, with the last bank at `$E000-$FFFF`, and eight
//! 1 KiB CHR windows. The chip takes only the low nibble of the data, so a bank number takes two
//! writes, an even address for its low nibble and an odd one for its high nibble. Registers are
//! selected by the address page and the two low address bits:
//!
//! | address | effect |
//! |---|---|
//! | `$8000-$8003`, `$9000-$9001` | PRG banks 0, 1 and 2 |
//! | `$A000-$D003` | CHR banks 0 to 7 |
//! | `$E000-$E003` | nibbles of the IRQ reload value, lowest first |
//! | `$F000` | acknowledges and reloads the counter |
//! | `$F001` | acknowledges; bit 0 enables, bits 3, 2, 1 select 4, 8 or 12 counter bits |
//! | `$F002` | mirroring: horizontal, vertical, single-screen lower, upper |
//!
//! The counter counts CPU cycles down within its selected bits, and raises the interrupt when they
//! reach zero. The bits above are kept.
use vstd::prelude::*;

use crate::mapper::{after_cycles, Mapper, NametableSource, NametableWriteTarget, PpuFetchKind};
use crate::mem::{
    bank_count, bank_offset, byte_at, chr_image, copied, copy_if_ram, count_banks, dirtied,
    has_chr_ram, in_bank, poke, poke_ram, poked, ram_copy, ram_fits, ram_restored, ram_size,
    read_at, reload, reloaded, restore_if_ram, take_chr, work_ram, wrapped_offset, zeros,
};
use crate::rom::{Cartridge, Mirroring};
use crate::save_state::mapper::{JalecoSnap, MapperState};
use crate::save_state::{MirroringSnap, SaveStateError};

verus! {

pub struct JalecoSs88006 {
    pub prg_rom: Vec<u8>,
    pub chr: Vec<u8>,
    pub chr_ram: bool,
    pub prg_ram: Vec<u8>,
    pub mirroring: Mirroring,
    pub prg_bank_count_8k: usize,
    pub chr_bank_count_1k: usize,
    pub prg_banks: [u8; 3],
    pub chr_banks: [u8; 8],
    pub irq_reload: [u8; 4],
    pub irq_counter: u16,
    /// 0 to 3 for 16, 12, 8 and 4 counter bits.
    pub irq_counter_size: u8,
    pub irq_enabled: bool,
    pub irq_line: bool,
    pub battery: bool,
    pub save_dirty: bool,
}

/// The state of an [`JalecoSs88006`] board.
#[verifier::ext_equal]
pub struct JalecoSs88006State {
    pub prg_rom: Seq<u8>,
    pub chr: Seq<u8>,
    pub chr_ram: bool,
    pub prg_ram: Seq<u8>,
    pub mirroring: Mirroring,
    pub prg_bank_count_8k: usize,
    pub chr_bank_count_1k: usize,
    pub prg_banks: Seq<u8>,
    pub chr_banks: Seq<u8>,
    pub irq_reload: Seq<u8>,
    pub irq_counter: u16,
    pub irq_counter_size: u8,
    pub irq_enabled: bool,
    pub irq_line: bool,
    pub battery: bool,
    pub save_dirty: bool,
}

impl View for JalecoSs88006 {
    type V = JalecoSs88006State;

    open spec fn view(&self) -> JalecoSs88006State {
        JalecoSs88006State {
            prg_rom: self.prg_rom@,
            chr: self.chr@,
            chr_ram: self.chr_ram,
            prg_ram: self.prg_ram@,
            mirroring: self.mirroring,
            prg_bank_count_8k: self.prg_bank_count_8k,
            chr_bank_count_1k: self.chr_bank_count_1k,
            prg_banks: self.prg_banks@,
            chr_banks: self.chr_banks@,
            irq_reload: self.irq_reload@,
            irq_counter: self.irq_counter,
            irq_counter_size: self.irq_counter_size,
            irq_enabled: self.irq_enabled,
            irq_line: self.irq_line,
            battery: self.battery,
            save_dirty: self.save_dirty,
        }
    }
}

/// `x` with a nibble replaced, the high one or the low one.
pub open spec fn with_nibble(x: u8, nibble: u8, high: bool) -> u8 {
    if high {
        (nibble * 16 + x % 16) as u8
    } else {
        (x / 16 * 16 + nibble) as u8
    }
}

/// The mirroring that `$F002` selects.
pub open spec fn mirroring_of(nibble: u8) -> Mirroring {
    if nibble % 4 == 0 {
        Mirroring::Horizontal
    } else if nibble % 4 == 1 {
        Mirroring::Vertical
    } else if nibble % 4 == 2 {
        Mirroring::SingleScreenLower
    } else {
        Mirroring::SingleScreenUpper
    }
}

/// The counter size that `$F001` selects: the smallest of those asked for.
pub open spec fn size_of_counter(nibble: u8) -> u8 {
    if nibble & 0x08 != 0 {
        3
    } else if nibble & 0x04 != 0 {
        2
    } else if nibble & 0x02 != 0 {
        1
    } else {
        0
    }
}

fn set_nibble(x: u8, nibble: u8, high: bool) -> (y: u8)
    requires
        nibble < 16,
    ensures
        y == with_nibble(x, nibble, high),
{
    if high {
        nibble * 16 + x % 16
    } else {
        x / 16 * 16 + nibble
    }
}

impl JalecoSs88006State {
    pub open spec fn power_on(cart: Cartridge) -> JalecoSs88006State {
        JalecoSs88006State {
            prg_rom: cart.prg_rom@,
            chr: chr_image(cart, 0x2000),
            chr_ram: has_chr_ram(cart),
            prg_ram: zeros(ram_size(cart, 0x2000)),
            mirroring: cart.mirroring,
            prg_bank_count_8k: bank_count(cart.prg_rom@.len(), 0x2000) as usize,
            chr_bank_count_1k: bank_count(chr_image(cart, 0x2000).len(), 0x400) as usize,
            prg_banks: zeros(3),
            chr_banks: zeros(8),
            irq_reload: zeros(4),
            irq_counter: 0,
            irq_counter_size: 0,
            irq_enabled: false,
            irq_line: false,
            battery: cart.battery_backed,
            save_dirty: false,
        }
    }

    pub open spec fn prg_index(self, addr: u16) -> int {
        let slot = (addr - 0x8000) / 0x2000;
        if slot < 3 {
            in_bank(self.prg_banks[slot] as int % self.prg_bank_count_8k as int, 0x2000, addr as int)
        } else {
            in_bank(self.prg_bank_count_8k - 1, 0x2000, addr as int)
        }
    }

    pub open spec fn chr_index(self, addr: u16) -> int {
        in_bank(self.chr_banks[addr as int / 0x400 % 8] as int % self.chr_bank_count_1k as int, 0x400, addr as int)
    }

    /// The four reload nibbles put together.
    pub open spec fn reload_value(self) -> u16 {
        self.irq_reload[0] as u16 | ((self.irq_reload[1] as u16) << 4) | ((self.irq_reload[2] as u16) << 8) | ((
        self.irq_reload[3] as u16) << 12)
    }

    /// How many values the counting bits have.
    pub open spec fn span(self) -> int {
        if self.irq_counter_size == 0 {
            0x1_0000
        } else if self.irq_counter_size == 1 {
            0x1000
        } else if self.irq_counter_size == 2 {
            0x100
        } else {
            0x10
        }
    }

    /// The counting bits.
    pub open spec fn count(self) -> int {
        self.irq_counter as int % self.span()
    }

    /// The board with the counting bits set to `count`.
    pub open spec fn with_count(self, count: int) -> JalecoSs88006State {
        JalecoSs88006State { irq_counter: (self.irq_counter - self.count() + count) as u16, ..self }
    }

    /// The board after a write to the register at page `page` and low address bits `low`.
    pub open spec fn wrote_register(self, page: int, low: int, data: u8) -> JalecoSs88006State {
        let nibble = (data % 16) as u8;
        let high = low % 2 == 1;
        if page == 0x8 || (page == 0x9 && low < 2) {
            let bank = (page - 8) * 2 + low / 2;
            JalecoSs88006State {
                prg_banks: self.prg_banks.update(bank, with_nibble(self.prg_banks[bank], nibble, high)),
                ..self
            }
        } else if 0xA <= page <= 0xD {
            let bank = (page - 0xA) * 2 + low / 2;
            JalecoSs88006State {
                chr_banks: self.chr_banks.update(bank, with_nibble(self.chr_banks[bank], nibble, high)),
                ..self
            }
        } else if page == 0xE {
            JalecoSs88006State { irq_reload: self.irq_reload.update(low, nibble), ..self }
        } else if page == 0xF && low == 0 {
            JalecoSs88006State { irq_line: false, irq_counter: self.reload_value(), ..self }
        } else if page == 0xF && low == 1 {
            JalecoSs88006State {
                irq_line: false,
                irq_enabled: nibble & 0x01 != 0,
                irq_counter_size: size_of_counter(nibble),
                ..self
            }
        } else if page == 0xF && low == 2 {
            JalecoSs88006State { mirroring: mirroring_of(nibble), ..self }
        } else {
            self
        }
    }

    /// The board with battery RAM from a save; data of another length is ignored.
    pub open spec fn loaded(self, data: Seq<u8>) -> JalecoSs88006State {
        if self.battery {
            JalecoSs88006State { prg_ram: reloaded(self.prg_ram, data), ..self }
        } else {
            self
        }
    }

    /// Whether `snap` was taken in this state.
    pub open spec fn captured(self, snap: JalecoSnap) -> bool {
        &&& snap.prg_ram@ == self.prg_ram
        &&& snap.chr_ram_data@ == ram_copy(self.chr_ram, self.chr)
        &&& snap.mirroring == MirroringSnap::of(self.mirroring)
        &&& snap.prg_banks@ == self.prg_banks
        &&& snap.chr_banks@ == self.chr_banks
        &&& snap.irq_reload@ == self.irq_reload
        &&& snap.irq_counter == self.irq_counter
        &&& snap.irq_counter_size == self.irq_counter_size
        &&& snap.irq_enabled == self.irq_enabled
        &&& snap.irq_line == self.irq_line
        &&& snap.save_dirty == self.save_dirty
    }

    /// The board with what `snap` holds.
    pub open spec fn restored(self, snap: JalecoSnap) -> JalecoSs88006State {
        JalecoSs88006State {
            prg_ram: reloaded(self.prg_ram, snap.prg_ram@),
            chr: ram_restored(self.chr_ram, self.chr, snap.chr_ram_data@),
            mirroring: snap.mirroring.live(),
            prg_banks: snap.prg_banks@,
            chr_banks: snap.chr_banks@,
            irq_reload: snap.irq_reload@,
            irq_counter: snap.irq_counter,
            irq_counter_size: snap.irq_counter_size,
            irq_enabled: snap.irq_enabled,
            irq_line: snap.irq_line,
            save_dirty: snap.save_dirty,
            ..self
        }
    }

    /// Whether `other` is the same cart, at another time.
    pub open spec fn same_cart(self, other: JalecoSs88006State) -> bool {
        &&& other.prg_ram.len() == self.prg_ram.len()
        &&& self.chr_ram ==> other.chr.len() == self.chr.len()
        &&& !self.chr_ram ==> other.chr == self.chr
        &&& other.prg_rom == self.prg_rom
        &&& other.chr_ram == self.chr_ram
        &&& other.prg_bank_count_8k == self.prg_bank_count_8k
        &&& other.chr_bank_count_1k == self.chr_bank_count_1k
        &&& other.battery == self.battery
    }
}

impl JalecoSs88006 {
    pub fn new(cart: Cartridge) -> (m: Self)
        requires
            ram_fits(cart),
        ensures
            Self::ok(m@),
            m@ == JalecoSs88006State::power_on(cart),
    {
        let (chr, chr_ram): (Vec<u8>, bool) = take_chr(cart.chr_rom, cart.chr_ram, 0x2000);
        let m: JalecoSs88006 = JalecoSs88006 {
            prg_bank_count_8k: count_banks(&cart.prg_rom, 0x2000),
            chr_bank_count_1k: count_banks(&chr, 0x400),
            prg_rom: cart.prg_rom,
            chr,
            chr_ram,
            prg_ram: work_ram(cart.prg_ram_size, cart.prg_nvram_size, 0x2000),
            mirroring: cart.mirroring,
            prg_banks: [0; 3],
            chr_banks: [0; 8],
            irq_reload: [0; 4],
            irq_counter: 0,
            irq_counter_size: 0,
            irq_enabled: false,
            irq_line: false,
            battery: cart.battery_backed,
            save_dirty: false,
        };
        assert(m@.prg_banks =~= zeros(3));
        assert(m@.chr_banks =~= zeros(8));
        assert(m@.irq_reload =~= zeros(4));
        m
    }

    fn assembled_reload(&self) -> (value: u16)
        requires
            Self::ok(self@),
        ensures
            value == self@.reload_value(),
    {
        self.irq_reload[0] as u16 | ((self.irq_reload[1] as u16) << 4) | ((self.irq_reload[2] as u16) << 8) | ((
        self.irq_reload[3] as u16) << 12)
    }

    fn map_prg(&self, addr: u16) -> (i: usize)
        requires
            Self::ok(self@),
            addr >= 0x8000,
        ensures
            i == self@.prg_index(addr),
    {
        let slot: usize = (addr - 0x8000) as usize / 0x2000;
        if slot < 3 {
            wrapped_offset(&self.prg_rom, self.prg_bank_count_8k, self.prg_banks[slot] as usize, 0x2000, addr)
        } else {
            bank_offset(&self.prg_rom, self.prg_bank_count_8k, self.prg_bank_count_8k - 1, 0x2000, addr)
        }
    }

    fn map_chr(&self, addr: u16) -> (i: usize)
        requires
            Self::ok(self@),
        ensures
            i == self@.chr_index(addr),
    {
        let bank: usize = self.chr_banks[addr as usize / 0x400 % 8] as usize;
        wrapped_offset(&self.chr, self.chr_bank_count_1k, bank, 0x400, addr)
    }

    fn write_irq_control(&mut self, nibble: u8)
        requires
            Self::ok(old(self)@),
            nibble < 16,
        ensures
            Self::ok(final(self)@),
            final(self)@ == (JalecoSs88006State {
                irq_line: false,
                irq_enabled: nibble & 0x01 != 0,
                irq_counter_size: size_of_counter(nibble),
                ..old(self)@
            }),
    {
        self.irq_line = false;
        self.irq_enabled = (nibble & 0x01) != 0;
        self.irq_counter_size = if nibble & 0x08 != 0 {
            3
        } else if nibble & 0x04 != 0 {
            2
        } else if nibble & 0x02 != 0 {
            1
        } else {
            0
        };
    }

    #[verifier::rlimit(40)]
    fn write_register(&mut self, addr: u16, data: u8)
        requires
            Self::ok(old(self)@),
            addr >= 0x8000,
        ensures
            Self::ok(final(self)@),
            final(self)@ == old(self)@.wrote_register(addr as int / 0x1000, addr as int % 4, data),
    {
        let nibble: u8 = data % 16;
        let page: usize = addr as usize / 0x1000;
        let low: usize = addr as usize % 4;
        let high: bool = low % 2 == 1;
        if page == 0x8 || (page == 0x9 && low < 2) {
            let bank: usize = (page - 8) * 2 + low / 2;
            self.prg_banks[bank] = set_nibble(self.prg_banks[bank], nibble, high);
        } else if 0xA <= page && page <= 0xD {
            let bank: usize = (page - 0xA) * 2 + low / 2;
            self.chr_banks[bank] = set_nibble(self.chr_banks[bank], nibble, high);
        } else if page == 0xE {
            self.irq_reload[low] = nibble;
        } else if page == 0xF {
            match low {
                0 => {
                    self.irq_line = false;
                    self.irq_counter = self.assembled_reload();
                }
                1 => self.write_irq_control(nibble),
                2 => {
                    self.mirroring = match nibble % 4 {
                        0 => Mirroring::Horizontal,
                        1 => Mirroring::Vertical,
                        2 => Mirroring::SingleScreenLower,
                        _ => Mirroring::SingleScreenUpper,
                    };
                }
                _ => {}
            }
        }
    }
}

impl Mapper for JalecoSs88006 {
    open spec fn ok(s: JalecoSs88006State) -> bool {
        &&& s.prg_bank_count_8k == bank_count(s.prg_rom.len(), 0x2000)
        &&& s.chr_bank_count_1k == bank_count(s.chr.len(), 0x400)
        &&& s.prg_banks.len() == 3
        &&& s.chr_banks.len() == 8
        &&& s.irq_reload.len() == 4
        &&& s.irq_counter_size < 4
    }

    open spec fn cpu_byte(s: JalecoSs88006State, addr: u16) -> u8 {
        if addr >= 0x8000 {
            byte_at(s.prg_rom, s.prg_index(addr))
        } else if addr >= 0x6000 {
            byte_at(s.prg_ram, addr - 0x6000)
        } else {
            0
        }
    }

    open spec fn after_cpu_write(s: JalecoSs88006State, addr: u16, data: u8) -> JalecoSs88006State {
        if addr >= 0x8000 {
            s.wrote_register(addr as int / 0x1000, addr as int % 4, data)
        } else if addr >= 0x6000 {
            JalecoSs88006State {
                prg_ram: poked(s.prg_ram, addr - 0x6000, data),
                save_dirty: dirtied(s.prg_ram, s.battery, s.save_dirty, addr - 0x6000, data),
                ..s
            }
        } else {
            s
        }
    }

    open spec fn ppu_byte(s: JalecoSs88006State, addr: u16) -> u8 {
        if addr < 0x2000 {
            byte_at(s.chr, s.chr_index(addr))
        } else {
            0
        }
    }

    open spec fn after_ppu_write(s: JalecoSs88006State, addr: u16, data: u8) -> JalecoSs88006State {
        if s.chr_ram && addr < 0x2000 {
            JalecoSs88006State { chr: poked(s.chr, s.chr_index(addr), data), ..s }
        } else {
            s
        }
    }

    open spec fn after_cpu_cycle(s: JalecoSs88006State) -> JalecoSs88006State {
        if s.irq_enabled {
            let count = if s.count() == 0 { s.span() - 1 } else { s.count() - 1 };
            JalecoSs88006State { irq_line: s.irq_line || count == 0, ..s.with_count(count) }
        } else {
            s
        }
    }

    open spec fn irq(s: JalecoSs88006State) -> bool {
        s.irq_line
    }

    open spec fn snapshot_ok(s: JalecoSs88006State, state: MapperState) -> bool {
        match state {
            MapperState::Jaleco(snap) => snap.irq_counter_size < 4,
            _ => true,
        }
    }

    fn cpu_read(&mut self, addr: u16) -> (byte: u8) {
        self.cpu_peek(addr)
    }

    fn cpu_peek(&self, addr: u16) -> (byte: u8) {
        match addr {
            0x6000..=0x7FFF => read_at(&self.prg_ram, (addr - 0x6000) as usize),
            0x8000..=0xFFFF => read_at(&self.prg_rom, self.map_prg(addr)),
            _ => 0,
        }
    }

    fn cpu_write(&mut self, addr: u16, data: u8) {
        match addr {
            0x6000..=0x7FFF => {
                poke_ram(&mut self.prg_ram, &mut self.save_dirty, self.battery, (addr - 0x6000) as usize, data);
            }
            0x8000..=0xFFFF => self.write_register(addr, data),
            _ => {}
        }
    }

    fn ppu_read(&mut self, addr: u16) -> (byte: u8) {
        if addr < 0x2000 {
            read_at(&self.chr, self.map_chr(addr))
        } else {
            0
        }
    }

    fn ppu_write(&mut self, addr: u16, data: u8) {
        if self.chr_ram && addr < 0x2000 {
            let i: usize = self.map_chr(addr);
            poke(&mut self.chr, i, data);
        }
    }

    open spec fn mirrored(s: JalecoSs88006State) -> Mirroring {
        s.mirroring
    }

    fn mirroring(&self) -> (mode: Mirroring) {
        self.mirroring
    }

    fn cpu_read_ex(&mut self, addr: u16) -> (byte: Option<u8>) {
        None
    }

    fn on_cpu_cycle(&mut self) {
        if !self.irq_enabled {
            return;
        }
        let span: u32 = match self.irq_counter_size {
            0 => 0x1_0000,
            1 => 0x1000,
            2 => 0x100,
            _ => 0x10,
        };
        let counter: u32 = self.irq_counter as u32;
        let count: u32 = counter % span;
        let live: u32 = if count == 0 { span - 1 } else { count - 1 };
        if live == 0 {
            self.irq_line = true;
        }
        proof {
            lemma_count_stays_in_word(self@, live as int);
        }
        self.irq_counter = (counter - count + live) as u16;
    }

    fn irq_line(&self) -> (asserted: bool) {
        self.irq_line
    }

    open spec fn battery_bytes(s: JalecoSs88006State) -> Option<Seq<u8>> {
        if s.battery {
            Some(s.prg_ram)
        } else {
            None
        }
    }

    open spec fn after_load(s: JalecoSs88006State, data: Seq<u8>) -> JalecoSs88006State {
        s.loaded(data)
    }

    open spec fn save_due(s: JalecoSs88006State) -> bool {
        s.save_dirty
    }

    open spec fn after_save(s: JalecoSs88006State) -> JalecoSs88006State {
        JalecoSs88006State { save_dirty: false, ..s }
    }

    fn save_data(&self) -> (bytes: Option<&[u8]>) {
        if self.battery {
            Some(self.prg_ram.as_slice())
        } else {
            None
        }
    }

    fn load_save_data(&mut self, data: &[u8]) {
        if self.battery {
            reload(&mut self.prg_ram, data);
        }
    }

    fn save_dirty(&self) -> (dirty: bool) {
        self.save_dirty
    }

    fn mark_saved(&mut self) {
        self.save_dirty = false;
    }

    open spec fn captures(s: JalecoSs88006State, state: Option<MapperState>) -> bool {
        match state {
            Some(MapperState::Jaleco(snap)) => s.captured(snap),
            _ => false,
        }
    }

    open spec fn after_apply(s: JalecoSs88006State, state: MapperState) -> Option<JalecoSs88006State> {
        match state {
            MapperState::Jaleco(snap) => Some(s.restored(snap)),
            _ => None,
        }
    }

    fn save_state_capture(&self) -> (state: Option<MapperState>) {
        Some(MapperState::Jaleco(JalecoSnap {
            prg_ram: copied(&self.prg_ram),
            chr_ram_data: copy_if_ram(self.chr_ram, &self.chr),
            mirroring: MirroringSnap::from_live(self.mirroring),
            prg_banks: self.prg_banks,
            chr_banks: self.chr_banks,
            irq_reload: self.irq_reload,
            irq_counter: self.irq_counter,
            irq_counter_size: self.irq_counter_size,
            irq_enabled: self.irq_enabled,
            irq_line: self.irq_line,
            save_dirty: self.save_dirty,
        }))
    }

    fn save_state_apply(&mut self, state: &MapperState) -> (result: Result<(), SaveStateError>) {
        match state {
            MapperState::Jaleco(snap) => {
                reload(&mut self.prg_ram, snap.prg_ram.as_slice());
                restore_if_ram(self.chr_ram, &mut self.chr, &snap.chr_ram_data);
                self.mirroring = snap.mirroring.to_live();
                self.prg_banks = snap.prg_banks;
                self.chr_banks = snap.chr_banks;
                self.irq_reload = snap.irq_reload;
                self.irq_counter = snap.irq_counter;
                self.irq_counter_size = snap.irq_counter_size;
                self.irq_enabled = snap.irq_enabled;
                self.irq_line = snap.irq_line;
                self.save_dirty = snap.save_dirty;
                Ok(())
            }
            _ => Err(SaveStateError::UnsupportedMapper(0)),
        }
    }

    fn ppu_nametable_read(&mut self, slot: u8, offset: u16) -> (source: NametableSource) {
        NametableSource::Default
    }

    fn ppu_nametable_write(&mut self, slot: u8, offset: u16, data: u8) -> (target: NametableWriteTarget) {
        NametableWriteTarget::Default
    }

    fn on_ppu_addr(&mut self, addr: u16, ppu_cycle: u64, kind: PpuFetchKind) {
    }
}

proof fn lemma_count_stays_in_word(s: JalecoSs88006State, count: int)
    requires
        s.irq_counter_size < 4,
        0 <= count < s.span(),
    ensures
        0 <= s.irq_counter - s.count() + count <= 0xFFFF,
        s.with_count(count).count() == count,
        s.with_count(count).span() == s.span(),
        s.with_count(count).irq_counter - count == s.irq_counter - s.count(),
{
}

/// A snapshot brings back the board it was taken from, whatever happened to it since.
pub proof fn lemma_jaleco_ss88006_round_trip(
    s: JalecoSs88006State,
    later: JalecoSs88006State,
    state: MapperState,
)
    requires
        JalecoSs88006::ok(s),
        JalecoSs88006::ok(later),
        s.same_cart(later),
        JalecoSs88006::captures(s, Some(state)),
    ensures
        JalecoSs88006::snapshot_ok(later, state),
        JalecoSs88006::after_apply(later, state) == Some(s),
{
}

/// No write changes the cart's ROM.
pub proof fn lemma_jaleco_ss88006_rom_is_read_only(s: JalecoSs88006State, addr: u16, data: u8)
    ensures
        JalecoSs88006::after_cpu_write(s, addr, data).prg_rom == s.prg_rom,
        JalecoSs88006::after_ppu_write(s, addr, data).prg_rom == s.prg_rom,
        !s.chr_ram ==> JalecoSs88006::after_ppu_write(s, addr, data).chr == s.chr,
{
}

/// No write moves the bank at `$E000-$FFFF`.
pub proof fn lemma_jaleco_ss88006_fixed_bank(s: JalecoSs88006State, addr: u16, data: u8, read: u16)
    requires
        JalecoSs88006::ok(s),
        read >= 0xE000,
    ensures
        ({
            let after = JalecoSs88006::after_cpu_write(s, addr, data);
            JalecoSs88006::cpu_byte(after, read) == JalecoSs88006::cpu_byte(s, read)
        }),
{
}

/// Pattern RAM gives back what was stored.
pub proof fn lemma_jaleco_ss88006_pattern_ram(s: JalecoSs88006State, addr: u16, data: u8)
    requires
        JalecoSs88006::ok(s),
        s.chr_ram,
        addr < 0x2000,
        0 <= s.chr_index(addr) < s.chr.len(),
    ensures
        ({
            let after = JalecoSs88006::after_ppu_write(s, addr, data);
            JalecoSs88006::ppu_byte(after, addr) == data
        }),
{
}

/// Work RAM gives back what was stored; a battery save is due exactly when a byte changed.
pub proof fn lemma_jaleco_ss88006_work_ram(s: JalecoSs88006State, addr: u16, data: u8)
    requires
        JalecoSs88006::ok(s),
        0x6000 <= addr < 0x8000,
        addr - 0x6000 < s.prg_ram.len(),
    ensures
        ({
            let after = JalecoSs88006::after_cpu_write(s, addr, data);
            let changed = JalecoSs88006::cpu_byte(s, addr) != data;
            &&& JalecoSs88006::cpu_byte(after, addr) == data
            &&& !JalecoSs88006::save_due(s) ==> JalecoSs88006::save_due(after) == (s.battery && changed)
        }),
{
}

/// A save of one cart loaded into another of the same size brings the RAM over; a save of another
/// size changes nothing. Once saved, no save is due.
pub proof fn lemma_jaleco_ss88006_save_round_trip(s: JalecoSs88006State, fresh: JalecoSs88006State, other: Seq<u8>)
    requires
        s.battery,
        fresh.battery,
        fresh.prg_ram.len() == s.prg_ram.len(),
        other.len() != s.prg_ram.len(),
    ensures
        JalecoSs88006::battery_bytes(JalecoSs88006::after_load(fresh, s.prg_ram)) == JalecoSs88006::battery_bytes(s),
        JalecoSs88006::after_load(s, other) == s,
        !JalecoSs88006::save_due(JalecoSs88006::after_save(s)),
{
}

/// An enabled counter whose counting bits hold `n` raises the interrupt in its cycle `n`, and not
/// before; zero counts as a full turn. The bits above do not move.
pub proof fn lemma_ss88006_irq_timing(s: JalecoSs88006State, n: nat)
    requires
        JalecoSs88006::ok(s),
        s.irq_enabled,
        !s.irq_line,
    ensures
        ({
            let due = if s.count() == 0 { s.span() } else { s.count() };
            &&& 0 < n < due ==> after_cycles::<JalecoSs88006>(s, n) == s.with_count(due - n)
            &&& n == due ==> after_cycles::<JalecoSs88006>(s, n) == (JalecoSs88006State {
                irq_line: true,
                ..s.with_count(0)
            })
        }),
    decreases n,
{
    let due = if s.count() == 0 { s.span() } else { s.count() };
    if 0 < n <= due {
        lemma_ss88006_irq_timing(s, (n - 1) as nat);
        if n == 1 {
            reveal_with_fuel(after_cycles, 2);
        } else {
            lemma_count_stays_in_word(s, due - (n - 1));
        }
        if n < due {
            lemma_count_stays_in_word(s, due - n);
        } else {
            lemma_count_stays_in_word(s, 0);
        }
    }
}

/// Two writes, low nibble and high nibble, make the bank number.
pub proof fn lemma_nibbles_make_a_byte(x: u8, byte: u8)
    ensures
        with_nibble(with_nibble(x, (byte % 16) as u8, false), (byte / 16) as u8, true) == byte,
{
}

} // verus!
