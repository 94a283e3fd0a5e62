//! MMC3 (iNES mapper 4).
//!
//! Registers come in pairs, even and odd addresses of an 8 KiB page:
//!
//! | page | even | odd |
//! |---|---|---|
//! | `$8000` | selects a bank register; bit 6: PRG mode, bit 7: CHR mode | bank register data |
//! | `$A000` | bit 0: mirroring, vertical or horizontal | work RAM: bit 7 enables, bit 6 protects |
//! | `$C000` | IRQ latch | IRQ counter reload |
//! | `$E000` | IRQ disable and acknowledge | IRQ enable |
//!
//! Registers 6 and 7 are 8 KiB PRG banks at `$8000` and `$A000`; the last two banks are at `$C000`
//! and `$E000`. PRG mode 1 swaps `$8000` and `$C000`. Registers 0 and 1 are 2 KiB CHR banks from
//! `$0000`, 2 to 5 are 1 KiB CHR banks from `$1000`; CHR mode 1 swaps the halves.
//!
//! The counter is clocked by rising edges of PPU address line A12 that come after it has been low
//! for a while, that is about once a scanline.
use vstd::prelude::*;

use crate::mapper::{Mapper, NametableSource, NametableWriteTarget, PpuFetchKind};
use crate::mem::{
    bank_count, byte_at, chr_image, copied, copy_if_ram, count_banks, dirtied, has_chr_ram, in_bank,
    poke, poke_ram, poked, ram_copy, ram_fits, ram_restored, ram_size, read_at, reload, reloaded,
    restore_if_ram, take_chr, work_ram, wrapped_offset, zeros,
};
use crate::rom::{Cartridge, Mirroring};
use crate::save_state::mapper::{MapperState, Mmc3Snap};
use crate::save_state::{MirroringSnap, SaveStateError};

verus! {

/// PPU cycles that A12 has to be low before an edge counts.
pub const A12_FILTER: u64 = 10;

pub struct Mmc3 {
    pub prg_rom: Vec<u8>,
    pub chr: Vec<u8>,
    pub prg_ram: Vec<u8>,
    pub chr_ram: bool,
    pub bank_select: u8,
    pub bank_regs: [u8; 8],
    pub mirroring: Mirroring,
    pub prg_ram_enabled: bool,
    pub prg_ram_write_protected: bool,
    pub irq_latch: u8,
    pub irq_counter: u8,
    pub irq_reload: bool,
    pub irq_enabled: bool,
    pub irq_line: bool,
    /// When A12 went low, or `None` while it is high.
    pub a12_low_since: Option<u64>,
    pub reg_a001: u8,
    pub prg_bank_count_8k: usize,
    pub chr_bank_count_1k: usize,
    pub battery: bool,
    pub save_dirty: bool,
}

/// The state of an [`Mmc3`] board.
#[verifier::ext_equal]
pub struct Mmc3State {
    pub prg_rom: Seq<u8>,
    pub chr: Seq<u8>,
    pub prg_ram: Seq<u8>,
    pub chr_ram: bool,
    pub bank_select: u8,
    pub bank_regs: Seq<u8>,
    pub mirroring: Mirroring,
    pub prg_ram_enabled: bool,
    pub prg_ram_write_protected: bool,
    pub irq_latch: u8,
    pub irq_counter: u8,
    pub irq_reload: bool,
    pub irq_enabled: bool,
    pub irq_line: bool,
    pub a12_low_since: Option<u64>,
    pub reg_a001: u8,
    pub prg_bank_count_8k: usize,
    pub chr_bank_count_1k: usize,
    pub battery: bool,
    pub save_dirty: bool,
}

impl View for Mmc3 {
    type V = Mmc3State;

    open spec fn view(&self) -> Mmc3State {
        Mmc3State {
            prg_rom: self.prg_rom@,
            chr: self.chr@,
            prg_ram: self.prg_ram@,
            chr_ram: self.chr_ram,
            bank_select: self.bank_select,
            bank_regs: self.bank_regs@,
            mirroring: self.mirroring,
            prg_ram_enabled: self.prg_ram_enabled,
            prg_ram_write_protected: self.prg_ram_write_protected,
            irq_latch: self.irq_latch,
            irq_counter: self.irq_counter,
            irq_reload: self.irq_reload,
            irq_enabled: self.irq_enabled,
            irq_line: self.irq_line,
            a12_low_since: self.a12_low_since,
            reg_a001: self.reg_a001,
            prg_bank_count_8k: self.prg_bank_count_8k,
            chr_bank_count_1k: self.chr_bank_count_1k,
            battery: self.battery,
            save_dirty: self.save_dirty,
        }
    }
}

impl Mmc3State {
    pub open spec fn power_on(cart: Cartridge) -> Mmc3State {
        Mmc3State {
            prg_rom: cart.prg_rom@,
            chr: chr_image(cart, 0x2000),
            prg_ram: zeros(ram_size(cart, 0x2000)),
            chr_ram: has_chr_ram(cart),
            bank_select: 0,
            bank_regs: seq![0u8, 2u8, 4u8, 5u8, 6u8, 7u8, 0u8, 1u8],
            mirroring: cart.mirroring,
            prg_ram_enabled: true,
            prg_ram_write_protected: false,
            irq_latch: 0,
            irq_counter: 0,
            irq_reload: false,
            irq_enabled: false,
            irq_line: false,
            a12_low_since: Some(0),
            reg_a001: 0x80,
            prg_bank_count_8k: bank_count(cart.prg_rom@.len(), 0x2000) as usize,
            chr_bank_count_1k: bank_count(chr_image(cart, 0x2000).len(), 0x400) as usize,
            battery: cart.battery_backed,
            save_dirty: false,
        }
    }

    /// Whether a write to `$6000-$7FFF` reaches work RAM.
    pub open spec fn ram_writable(self) -> bool {
        self.prg_ram_enabled && !self.prg_ram_write_protected
    }

    /// The 8 KiB bank of an address, before it wraps.
    pub open spec fn prg_select(self, addr: u16) -> int {
        let slot = (addr - 0x8000) / 0x2000;
        let second_last = if self.prg_bank_count_8k >= 2 { self.prg_bank_count_8k - 2 } else { 0 };
        if slot == 1 {
            self.bank_regs[7] as int % 0x40
        } else if slot == 3 {
            self.prg_bank_count_8k - 1
        } else if (slot == 0) == (self.bank_select & 0x40 == 0) {
            self.bank_regs[6] as int % 0x40
        } else {
            second_last
        }
    }

    pub open spec fn prg_index(self, addr: u16) -> int {
        in_bank(self.prg_select(addr) % self.prg_bank_count_8k as int, 0x2000, addr as int)
    }

    /// The 1 KiB bank of a pattern address, before it wraps.
    pub open spec fn chr_select(self, addr: u16) -> int {
        let window = addr as int / 0x400 % 8;
        let slot = if self.bank_select & 0x80 == 0 { window } else { (window + 4) % 8 };
        if slot < 4 {
            self.bank_regs[slot / 2] as int / 2 * 2 + slot % 2
        } else {
            self.bank_regs[slot - 2] as int
        }
    }

    pub open spec fn chr_index(self, addr: u16) -> int {
        in_bank(self.chr_select(addr) % self.chr_bank_count_1k as int, 0x400, addr as int)
    }

    /// The board after a write to `$8000-$FFFF`.
    pub open spec fn wrote_register(self, addr: u16, data: u8) -> Mmc3State {
        let page = addr / 0x2000;
        let even = addr % 2 == 0;
        if page == 4 && even {
            Mmc3State { bank_select: data, ..self }
        } else if page == 4 {
            Mmc3State { bank_regs: self.bank_regs.update(self.bank_select as int % 8, data), ..self }
        } else if page == 5 && even {
            Mmc3State {
                mirroring: if self.mirroring == Mirroring::FourScreen {
                    Mirroring::FourScreen
                } else if data & 0x01 == 0 {
                    Mirroring::Vertical
                } else {
                    Mirroring::Horizontal
                },
                ..self
            }
        } else if page == 5 {
            Mmc3State {
                reg_a001: data,
                prg_ram_enabled: data & 0x80 != 0,
                prg_ram_write_protected: data & 0x40 != 0,
                ..self
            }
        } else if page == 6 && even {
            Mmc3State { irq_latch: data, ..self }
        } else if page == 6 {
            Mmc3State { irq_counter: 0, irq_reload: true, ..self }
        } else if even {
            Mmc3State { irq_enabled: false, irq_line: false, ..self }
        } else {
            Mmc3State { irq_enabled: true, ..self }
        }
    }

    /// The board after the counter has been clocked.
    pub open spec fn counter_clocked(self) -> Mmc3State {
        let counter = if self.irq_counter == 0 || self.irq_reload {
            self.irq_latch
        } else {
            (self.irq_counter - 1) as u8
        };
        Mmc3State {
            irq_counter: counter,
            irq_reload: false,
            irq_line: self.irq_line || (counter == 0 && self.irq_enabled),
            ..self
        }
    }

    /// The board after the PPU has driven `addr` at dot `cycle`.
    pub open spec fn addressed(self, addr: u16, cycle: u64) -> Mmc3State {
        if addr / 0x1000 % 2 == 0 {
            match self.a12_low_since {
                Some(_) => self,
                None => Mmc3State { a12_low_since: Some(cycle), ..self },
            }
        } else {
            match self.a12_low_since {
                Some(since) => if since + A12_FILTER <= cycle {
                    (Mmc3State { a12_low_since: None, ..self }).counter_clocked()
                } else {
                    Mmc3State { a12_low_since: None, ..self }
                },
                None => self,
            }
        }
    }

    /// The board with battery RAM from a save; data of another length is ignored.
    pub open spec fn loaded(self, data: Seq<u8>) -> Mmc3State {
        if self.battery {
            Mmc3State { prg_ram: reloaded(self.prg_ram, data), ..self }
        } else {
            self
        }
    }

    /// Whether `snap` was taken in this state.
    pub open spec fn captured(self, snap: Mmc3Snap) -> bool {
        &&& snap.prg_ram@ == self.prg_ram
        &&& snap.chr_ram_data@ == ram_copy(self.chr_ram, self.chr)
        &&& snap.bank_select == self.bank_select
        &&& snap.bank_regs@ == self.bank_regs
        &&& snap.mirroring == MirroringSnap::of(self.mirroring)
        &&& snap.prg_ram_enabled == self.prg_ram_enabled
        &&& snap.prg_ram_write_protected == self.prg_ram_write_protected
        &&& snap.irq_latch == self.irq_latch
        &&& snap.irq_counter == self.irq_counter
        &&& snap.irq_reload == self.irq_reload
        &&& snap.irq_enabled == self.irq_enabled
        &&& snap.irq_line == self.irq_line
        &&& snap.a12_low_since == self.a12_low_since
        &&& snap.reg_a001 == self.reg_a001
        &&& snap.save_dirty == self.save_dirty
    }

    /// The board with what `snap` holds.
    pub open spec fn restored(self, snap: Mmc3Snap) -> Mmc3State {
        Mmc3State {
            prg_ram: reloaded(self.prg_ram, snap.prg_ram@),
            chr: ram_restored(self.chr_ram, self.chr, snap.chr_ram_data@),
            bank_select: snap.bank_select,
            bank_regs: snap.bank_regs@,
            mirroring: snap.mirroring.live(),
            prg_ram_enabled: snap.prg_ram_enabled,
            prg_ram_write_protected: snap.prg_ram_write_protected,
            irq_latch: snap.irq_latch,
            irq_counter: snap.irq_counter,
            irq_reload: snap.irq_reload,
            irq_enabled: snap.irq_enabled,
            irq_line: snap.irq_line,
            a12_low_since: snap.a12_low_since,
            reg_a001: snap.reg_a001,
            save_dirty: snap.save_dirty,
            ..self
        }
    }

    /// Whether `other` is the same cart, at another time.
    pub open spec fn same_cart(self, other: Mmc3State) -> bool {
        &&& other.prg_ram.len() == self.prg_ram.len()
        &&& self.chr_ram ==> other.chr.len() == self.chr.len()
        &&& !self.chr_ram ==> other.chr == self.chr
        &&& other.prg_rom == self.prg_rom
        &&& other.chr_ram == self.chr_ram
        &&& other.prg_bank_count_8k == self.prg_bank_count_8k
        &&& other.chr_bank_count_1k == self.chr_bank_count_1k
        &&& other.battery == self.battery
    }
}

impl Mmc3 {
    pub fn new(cart: Cartridge) -> (m: Self)
        requires
            ram_fits(cart),
        ensures
            Self::ok(m@),
            m@ == Mmc3State::power_on(cart),
    {
        let (chr, chr_ram): (Vec<u8>, bool) = take_chr(cart.chr_rom, cart.chr_ram, 0x2000);
        let m: Mmc3 = Mmc3 {
            prg_bank_count_8k: count_banks(&cart.prg_rom, 0x2000),
            chr_bank_count_1k: count_banks(&chr, 0x400),
            prg_rom: cart.prg_rom,
            chr,
            prg_ram: work_ram(cart.prg_ram_size, cart.prg_nvram_size, 0x2000),
            chr_ram,
            bank_select: 0,
            bank_regs: [0, 2, 4, 5, 6, 7, 0, 1],
            mirroring: cart.mirroring,
            prg_ram_enabled: true,
            prg_ram_write_protected: false,
            irq_latch: 0,
            irq_counter: 0,
            irq_reload: false,
            irq_enabled: false,
            irq_line: false,
            a12_low_since: Some(0),
            reg_a001: 0x80,
            battery: cart.battery_backed,
            save_dirty: false,
        };
        assert(m@.bank_regs =~= seq![0u8, 2u8, 4u8, 5u8, 6u8, 7u8, 0u8, 1u8]);
        m
    }

    /// The 8 KiB bank that the chip selects for `addr`.
    pub fn prg_bank_for(&self, addr: u16) -> (bank: usize)
        requires
            Self::ok(self@),
            addr >= 0x8000,
        ensures
            bank == self@.prg_select(addr),
    {
        let swapped: bool = self.bank_select & 0x40 != 0;
        let second_last: usize = self.prg_bank_count_8k.saturating_sub(2);
        let r6: usize = self.bank_regs[6] as usize % 0x40;
        match (addr - 0x8000) / 0x2000 {
            0 => if swapped { second_last } else { r6 },
            1 => self.bank_regs[7] as usize % 0x40,
            2 => if swapped { r6 } else { second_last },
            _ => self.prg_bank_count_8k - 1,
        }
    }

    /// The 1 KiB bank that the chip selects for a pattern address.
    pub fn chr_bank_for(&self, addr: u16) -> (bank: usize)
        requires
            Self::ok(self@),
        ensures
            bank == self@.chr_select(addr),
    {
        let window: usize = addr as usize / 0x400 % 8;
        let slot: usize = if self.bank_select & 0x80 == 0 { window } else { (window + 4) % 8 };
        if slot < 4 {
            self.bank_regs[slot / 2] as usize / 2 * 2 + slot % 2
        } else {
            self.bank_regs[slot - 2] as usize
        }
    }

    pub fn chr_is_ram(&self) -> (yes: bool)
        ensures
            yes == self@.chr_ram,
    {
        self.chr_ram
    }

    /// Whether a write to `$6000-$7FFF` reaches work RAM.
    pub fn cpu_can_write_wram(&self) -> (yes: bool)
        ensures
            yes == self@.ram_writable(),
    {
        self.prg_ram_enabled && !self.prg_ram_write_protected
    }

    fn map_chr(&self, addr: u16) -> (i: usize)
        requires
            Self::ok(self@),
        ensures
            i == self@.chr_index(addr),
    {
        wrapped_offset(&self.chr, self.chr_bank_count_1k, self.chr_bank_for(addr), 0x400, addr)
    }

    #[verifier::rlimit(40)]
    fn write_register(&mut self, addr: u16, data: u8)
        requires
            Self::ok(old(self)@),
            addr >= 0x8000,
        ensures
            Self::ok(final(self)@),
            final(self)@ == old(self)@.wrote_register(addr, data),
    {
        let even: bool = addr % 2 == 0;
        match addr / 0x2000 {
            4 => {
                if even {
                    self.bank_select = data;
                } else {
                    let idx: usize = self.bank_select as usize % 8;
                    self.bank_regs[idx] = data;
                }
            }
            5 => {
                if even {
                    if self.mirroring != Mirroring::FourScreen {
                        self.mirroring = if data & 0x01 == 0 { Mirroring::Vertical } else { Mirroring::Horizontal };
                    }
                } else {
                    self.reg_a001 = data;
                    self.prg_ram_enabled = data & 0x80 != 0;
                    self.prg_ram_write_protected = data & 0x40 != 0;
                }
            }
            6 => {
                if even {
                    self.irq_latch = data;
                } else {
                    self.irq_counter = 0;
                    self.irq_reload = true;
                }
            }
            _ => {
                if even {
                    self.irq_enabled = false;
                    self.irq_line = false;
                } else {
                    self.irq_enabled = true;
                }
            }
        }
    }

    fn clock_counter(&mut self)
        requires
            Self::ok(old(self)@),
        ensures
            Self::ok(final(self)@),
            final(self)@ == old(self)@.counter_clocked(),
    {
        if self.irq_counter == 0 || self.irq_reload {
            self.irq_counter = self.irq_latch;
            self.irq_reload = false;
        } else {
            self.irq_counter = self.irq_counter - 1;
        }
        if self.irq_counter == 0 && self.irq_enabled {
            self.irq_line = true;
        }
    }

    /// The chip's dynamic state.
    pub fn snapshot(&self) -> (snap: Mmc3Snap)
        ensures
            self@.captured(snap),
    {
        Mmc3Snap {
            prg_ram: copied(&self.prg_ram),
            chr_ram_data: copy_if_ram(self.chr_ram, &self.chr),
            bank_select: self.bank_select,
            bank_regs: self.bank_regs,
            mirroring: MirroringSnap::from_live(self.mirroring),
            prg_ram_enabled: self.prg_ram_enabled,
            prg_ram_write_protected: self.prg_ram_write_protected,
            irq_latch: self.irq_latch,
            irq_counter: self.irq_counter,
            irq_reload: self.irq_reload,
            irq_enabled: self.irq_enabled,
            irq_line: self.irq_line,
            a12_low_since: self.a12_low_since,
            reg_a001: self.reg_a001,
            save_dirty: self.save_dirty,
        }
    }

    /// Restores a captured state.
    #[verifier::rlimit(40)]
    pub fn restore(&mut self, snap: &Mmc3Snap)
        requires
            Self::ok(old(self)@),
        ensures
            Self::ok(final(self)@),
            final(self)@ == old(self)@.restored(*snap),
    {
        reload(&mut self.prg_ram, snap.prg_ram.as_slice());
        restore_if_ram(self.chr_ram, &mut self.chr, &snap.chr_ram_data);
        self.bank_select = snap.bank_select;
        self.bank_regs = snap.bank_regs;
        self.mirroring = snap.mirroring.to_live();
        self.prg_ram_enabled = snap.prg_ram_enabled;
        self.prg_ram_write_protected = snap.prg_ram_write_protected;
        self.irq_latch = snap.irq_latch;
        self.irq_counter = snap.irq_counter;
        self.irq_reload = snap.irq_reload;
        self.irq_enabled = snap.irq_enabled;
        self.irq_line = snap.irq_line;
        self.a12_low_since = snap.a12_low_since;
        self.reg_a001 = snap.reg_a001;
        self.save_dirty = snap.save_dirty;
    }
}

impl Mapper for Mmc3 {
    open spec fn ok(s: Mmc3State) -> bool {
        &&& s.prg_bank_count_8k == bank_count(s.prg_rom.len(), 0x2000)
        &&& s.chr_bank_count_1k == bank_count(s.chr.len(), 0x400)
        &&& s.bank_regs.len() == 8
    }

    open spec fn cpu_byte(s: Mmc3State, addr: u16) -> u8 {
        if addr >= 0x8000 {
            byte_at(s.prg_rom, s.prg_index(addr))
        } else if addr >= 0x6000 && s.prg_ram_enabled {
            byte_at(s.prg_ram, addr - 0x6000)
        } else {
            0
        }
    }

    open spec fn after_cpu_write(s: Mmc3State, addr: u16, data: u8) -> Mmc3State {
        if addr >= 0x8000 {
            s.wrote_register(addr, data)
        } else if addr >= 0x6000 && s.ram_writable() {
            Mmc3State {
                prg_ram: poked(s.prg_ram, addr - 0x6000, data),
                save_dirty: dirtied(s.prg_ram, s.battery, s.save_dirty, addr - 0x6000, data),
                ..s
            }
        } else {
            s
        }
    }

    open spec fn ppu_byte(s: Mmc3State, addr: u16) -> u8 {
        if addr < 0x2000 {
            byte_at(s.chr, s.chr_index(addr))
        } else {
            0
        }
    }

    open spec fn after_ppu_write(s: Mmc3State, addr: u16, data: u8) -> Mmc3State {
        if s.chr_ram && addr < 0x2000 {
            Mmc3State { chr: poked(s.chr, s.chr_index(addr), data), ..s }
        } else {
            s
        }
    }

    open spec fn peeked(s: Mmc3State, addr: u16) -> u8 {
        Self::cpu_byte(s, addr)
    }

    open spec fn after_cpu_read(s: Mmc3State, addr: u16) -> Mmc3State {
        s
    }

    open spec fn expansion_byte(s: Mmc3State, addr: u16) -> Option<u8> {
        None
    }

    open spec fn after_expansion_read(s: Mmc3State, addr: u16) -> Mmc3State {
        s
    }

    open spec fn after_ppu_read(s: Mmc3State, addr: u16) -> Mmc3State {
        s
    }

    open spec fn after_cpu_cycle(s: Mmc3State) -> Mmc3State {
        s
    }

    open spec fn nametable_source(s: Mmc3State, slot: u8, offset: u16) -> NametableSource {
        NametableSource::Default
    }

    open spec fn after_nametable_read(s: Mmc3State, slot: u8, offset: u16) -> Mmc3State {
        s
    }

    open spec fn nametable_target(s: Mmc3State, slot: u8, offset: u16, data: u8) -> NametableWriteTarget {
        NametableWriteTarget::Default
    }

    open spec fn after_nametable_write(s: Mmc3State, slot: u8, offset: u16, data: u8) -> Mmc3State {
        s
    }

    open spec fn irq(s: Mmc3State) -> bool {
        s.irq_line
    }

    fn cpu_read(&mut self, addr: u16) -> (byte: u8) {
        self.cpu_peek(addr)
    }

    fn cpu_peek(&self, addr: u16) -> (byte: u8) {
        match addr {
            0x6000..=0x7FFF => {
                if !self.prg_ram_enabled {
                    return 0;
                }
                read_at(&self.prg_ram, (addr - 0x6000) as usize)
            }
            0x8000..=0xFFFF => {
                let bank: usize = self.prg_bank_for(addr);
                read_at(&self.prg_rom, wrapped_offset(&self.prg_rom, self.prg_bank_count_8k, bank, 0x2000, addr))
            }
            _ => 0,
        }
    }

    fn cpu_write(&mut self, addr: u16, data: u8) {
        match addr {
            0x6000..=0x7FFF => {
                if self.cpu_can_write_wram() {
                    poke_ram(&mut self.prg_ram, &mut self.save_dirty, self.battery, (addr - 0x6000) as usize, data);
                }
            }
            0x8000..=0xFFFF => self.write_register(addr, data),
            _ => {}
        }
    }

    fn ppu_read(&mut self, addr: u16) -> (byte: u8) {
        if addr < 0x2000 {
            read_at(&self.chr, self.map_chr(addr))
        } else {
            0
        }
    }

    fn ppu_write(&mut self, addr: u16, data: u8) {
        if self.chr_ram && addr < 0x2000 {
            let i: usize = self.map_chr(addr);
            poke(&mut self.chr, i, data);
        }
    }

    open spec fn mirrored(s: Mmc3State) -> Mirroring {
        s.mirroring
    }

    fn mirroring(&self) -> (mode: Mirroring) {
        self.mirroring
    }

    fn cpu_read_ex(&mut self, addr: u16) -> (byte: Option<u8>) {
        None
    }

    fn on_cpu_cycle(&mut self) {
    }

    fn irq_line(&self) -> (asserted: bool) {
        self.irq_line
    }

    open spec fn after_ppu_addr(s: Mmc3State, addr: u16, cycle: u64, kind: PpuFetchKind) -> Mmc3State {
        s.addressed(addr, cycle)
    }

    fn on_ppu_addr(&mut self, addr: u16, ppu_cycle: u64, kind: PpuFetchKind) {
        if addr / 0x1000 % 2 == 0 {
            if self.a12_low_since.is_none() {
                self.a12_low_since = Some(ppu_cycle);
            }
        } else if let Some(since) = self.a12_low_since {
            self.a12_low_since = None;
            if ppu_cycle >= since && ppu_cycle - since >= A12_FILTER {
                self.clock_counter();
            }
        }
    }

    open spec fn battery_bytes(s: Mmc3State) -> Option<Seq<u8>> {
        if s.battery {
            Some(s.prg_ram)
        } else {
            None
        }
    }

    open spec fn after_load(s: Mmc3State, data: Seq<u8>) -> Mmc3State {
        s.loaded(data)
    }

    open spec fn save_due(s: Mmc3State) -> bool {
        s.save_dirty
    }

    open spec fn after_save(s: Mmc3State) -> Mmc3State {
        Mmc3State { save_dirty: false, ..s }
    }

    fn save_data(&self) -> (bytes: Option<&[u8]>) {
        if self.battery {
            Some(self.prg_ram.as_slice())
        } else {
            None
        }
    }

    fn load_save_data(&mut self, data: &[u8]) {
        if self.battery {
            reload(&mut self.prg_ram, data);
        }
    }

    fn save_dirty(&self) -> (dirty: bool) {
        self.save_dirty
    }

    fn mark_saved(&mut self) {
        self.save_dirty = false;
    }

    open spec fn captures(s: Mmc3State, state: Option<MapperState>) -> bool {
        match state {
            Some(MapperState::Mmc3(snap)) => s.captured(snap),
            _ => false,
        }
    }

    open spec fn after_apply(s: Mmc3State, state: MapperState) -> Option<Mmc3State> {
        match state {
            MapperState::Mmc3(snap) => Some(s.restored(snap)),
            _ => None,
        }
    }

    fn save_state_capture(&self) -> (state: Option<MapperState>) {
        Some(MapperState::Mmc3(self.snapshot()))
    }

    fn save_state_apply(&mut self, state: &MapperState) -> (result: Result<(), SaveStateError>) {
        match state {
            MapperState::Mmc3(snap) => {
                self.restore(snap);
                Ok(())
            }
            _ => Err(SaveStateError::UnsupportedMapper(0)),
        }
    }

    fn ppu_nametable_read(&mut self, slot: u8, offset: u16) -> (source: NametableSource) {
        NametableSource::Default
    }

    fn ppu_nametable_write(&mut self, slot: u8, offset: u16, data: u8) -> (target: NametableWriteTarget) {
        NametableWriteTarget::Default
    }
}

/// A snapshot brings back the board it was taken from, whatever happened to it since.
pub proof fn lemma_mmc3_round_trip(
    s: Mmc3State,
    later: Mmc3State,
    state: MapperState,
)
    requires
        Mmc3::ok(s),
        Mmc3::ok(later),
        s.same_cart(later),
        Mmc3::captures(s, Some(state)),
    ensures
        Mmc3::snapshot_ok(later, state),
        Mmc3::after_apply(later, state) == Some(s),
{
}

/// No write changes the cart's ROM.
pub proof fn lemma_mmc3_rom_is_read_only(s: Mmc3State, addr: u16, data: u8)
    ensures
        Mmc3::after_cpu_write(s, addr, data).prg_rom == s.prg_rom,
        Mmc3::after_ppu_write(s, addr, data).prg_rom == s.prg_rom,
        !s.chr_ram ==> Mmc3::after_ppu_write(s, addr, data).chr == s.chr,
{
}

/// No write moves the bank at `$E000-$FFFF`.
pub proof fn lemma_mmc3_fixed_bank(s: Mmc3State, addr: u16, data: u8, read: u16)
    requires
        Mmc3::ok(s),
        read >= 0xE000,
    ensures
        ({
            let after = Mmc3::after_cpu_write(s, addr, data);
            Mmc3::cpu_byte(after, read) == Mmc3::cpu_byte(s, read)
        }),
{
}

/// Pattern RAM gives back what was stored.
pub proof fn lemma_mmc3_pattern_ram(s: Mmc3State, addr: u16, data: u8)
    requires
        Mmc3::ok(s),
        s.chr_ram,
        addr < 0x2000,
        0 <= s.chr_index(addr) < s.chr.len(),
    ensures
        ({
            let after = Mmc3::after_ppu_write(s, addr, data);
            Mmc3::ppu_byte(after, addr) == data
        }),
{
}

/// Work RAM gives back what was stored; a battery save is due exactly when a byte changed.
pub proof fn lemma_mmc3_work_ram(s: Mmc3State, addr: u16, data: u8)
    requires
        Mmc3::ok(s),
        0x6000 <= addr < 0x8000,
        addr - 0x6000 < s.prg_ram.len(),
        s.ram_writable(),
    ensures
        ({
            let after = Mmc3::after_cpu_write(s, addr, data);
            let changed = Mmc3::cpu_byte(s, addr) != data;
            &&& Mmc3::cpu_byte(after, addr) == data
            &&& !Mmc3::save_due(s) ==> Mmc3::save_due(after) == (s.battery && changed)
        }),
{
}

/// A save of one cart loaded into another of the same size brings the RAM over; a save of another
/// size changes nothing. Once saved, no save is due.
pub proof fn lemma_mmc3_save_round_trip(s: Mmc3State, fresh: Mmc3State, other: Seq<u8>)
    requires
        s.battery,
        fresh.battery,
        fresh.prg_ram.len() == s.prg_ram.len(),
        other.len() != s.prg_ram.len(),
    ensures
        Mmc3::battery_bytes(Mmc3::after_load(fresh, s.prg_ram)) == Mmc3::battery_bytes(s),
        Mmc3::after_load(s, other) == s,
        !Mmc3::save_due(Mmc3::after_save(s)),
{
}

/// The board after the counter has been clocked `n` times.
pub open spec fn counter_clocks(s: Mmc3State, n: nat) -> Mmc3State
    decreases n,
{
    if n == 0 {
        s
    } else {
        counter_clocks(s, (n - 1) as nat).counter_clocked()
    }
}

/// A counter that was told to reload takes the latch at the first clock, counts down, and raises
/// the interrupt at the clock after as many more as the latch holds.
pub proof fn lemma_mmc3_irq_timing(s: Mmc3State, n: nat)
    requires
        s.irq_reload,
        s.irq_enabled,
        !s.irq_line,
        1 <= n <= s.irq_latch + 1,
    ensures
        counter_clocks(s, n).irq_counter == s.irq_latch - (n - 1),
        counter_clocks(s, n).irq_line == (n == s.irq_latch + 1),
    decreases n,
{
    lemma_clocks_keep_settings(s, (n - 1) as nat);
    if n > 1 {
        lemma_mmc3_irq_timing(s, (n - 1) as nat);
    } else {
        assert(counter_clocks(s, 0) == s);
    }
}

proof fn lemma_clocks_keep_settings(s: Mmc3State, n: nat)
    ensures
        counter_clocks(s, n).irq_latch == s.irq_latch,
        counter_clocks(s, n).irq_enabled == s.irq_enabled,
        n > 0 ==> !counter_clocks(s, n).irq_reload,
    decreases n,
{
    if n > 0 {
        lemma_clocks_keep_settings(s, (n - 1) as nat);
    }
}

/// A rise of the address line counts only after it has been low for long enough.
pub proof fn lemma_short_lows_are_filtered(s: Mmc3State, addr: u16, cycle: u64)
    requires
        s.a12_low_since is Some ==> cycle < s.a12_low_since->Some_0 + A12_FILTER,
    ensures
        s.addressed(addr, cycle).irq_counter == s.irq_counter,
        s.addressed(addr, cycle).irq_line == s.irq_line,
{
}

} // verus!
