//! Sunsoft-1 (iNES mapper 184).
//!
//! PRG-ROM and mirroring are fixed. One register at `$6000-$7FFF` selects 4 KiB CHR banks: bits 0-2
//! for `$0000-$0FFF`, bits 4-6 for `$1000-$1FFF`, where the top bit of the bank number is always
//! set.
use vstd::prelude::*;

use crate::mapper::{Mapper, NametableSource, NametableWriteTarget, PpuFetchKind};
use crate::mem::{
    bank_count, byte_at, chr_image, copy_if_ram, count_banks, has_chr_ram, in_bank, poke, poked,
    ram_copy, ram_restored, read_at, restore_if_ram, take_chr, wrapped_offset,
};
use crate::rom::{Cartridge, Mirroring};
use crate::save_state::mapper::{MapperState, Sunsoft1Snap};
use crate::save_state::SaveStateError;

verus! {

pub struct Sunsoft1 {
    pub prg_rom: Vec<u8>,
    pub chr: Vec<u8>,
    pub chr_ram: bool,
    pub reg: u8,
    pub mirroring: Mirroring,
    pub chr_bank_count_4k: usize,
}

/// The state of an [`Sunsoft1`] board.
#[verifier::ext_equal]
pub struct Sunsoft1State {
    pub prg_rom: Seq<u8>,
    pub chr: Seq<u8>,
    pub chr_ram: bool,
    pub reg: u8,
    pub mirroring: Mirroring,
    pub chr_bank_count_4k: usize,
}

impl View for Sunsoft1 {
    type V = Sunsoft1State;

    open spec fn view(&self) -> Sunsoft1State {
        Sunsoft1State {
            prg_rom: self.prg_rom@,
            chr: self.chr@,
            chr_ram: self.chr_ram,
            reg: self.reg,
            mirroring: self.mirroring,
            chr_bank_count_4k: self.chr_bank_count_4k,
        }
    }
}

impl Sunsoft1State {
    pub open spec fn power_on(cart: Cartridge) -> Sunsoft1State {
        Sunsoft1State {
            prg_rom: cart.prg_rom@,
            chr: chr_image(cart, 0x2000),
            chr_ram: has_chr_ram(cart),
            reg: 0,
            mirroring: cart.mirroring,
            chr_bank_count_4k: bank_count(chr_image(cart, 0x2000).len(), 0x1000) as usize,
        }
    }

    /// Position of a `$8000-$FFFF` address in PRG-ROM: the address wraps by masking.
    pub open spec fn prg_index(self, addr: u16) -> int {
        let mask = if self.prg_rom.len() > 2 { (self.prg_rom.len() - 1) as usize } else { 1 };
        ((addr - 0x8000) as usize & mask) as int
    }

    pub open spec fn chr_index(self, addr: u16) -> int {
        let selector = if addr < 0x1000 {
            self.reg & 0x07
        } else {
            0x80 | ((self.reg >> 4) & 0x07)
        };
        in_bank(selector as int % self.chr_bank_count_4k as int, 0x1000, addr as int)
    }

    /// Whether `snap` was taken in this state.
    pub open spec fn captured(self, snap: Sunsoft1Snap) -> bool {
        &&& snap.chr_ram_data@ == ram_copy(self.chr_ram, self.chr)
        &&& snap.reg == self.reg
    }

    /// The board with what `snap` holds.
    pub open spec fn restored(self, snap: Sunsoft1Snap) -> Sunsoft1State {
        Sunsoft1State {
            chr: ram_restored(self.chr_ram, self.chr, snap.chr_ram_data@),
            reg: snap.reg,
            ..self
        }
    }

    /// Whether `other` is the same cart, at another time.
    pub open spec fn same_cart(self, other: Sunsoft1State) -> bool {
        &&& self.chr_ram ==> other.chr.len() == self.chr.len()
        &&& !self.chr_ram ==> other.chr == self.chr
        &&& other.prg_rom == self.prg_rom
        &&& other.chr_ram == self.chr_ram
        &&& other.mirroring == self.mirroring
        &&& other.chr_bank_count_4k == self.chr_bank_count_4k
    }
}

impl Sunsoft1 {
    pub fn new(cart: Cartridge) -> (m: Self)
        ensures
            Self::ok(m@),
            m@ == Sunsoft1State::power_on(cart),
    {
        let (chr, chr_ram): (Vec<u8>, bool) = take_chr(cart.chr_rom, cart.chr_ram, 0x2000);
        Sunsoft1 {
            prg_rom: cart.prg_rom,
            chr_bank_count_4k: count_banks(&chr, 0x1000),
            chr,
            chr_ram,
            reg: 0,
            mirroring: cart.mirroring,
        }
    }

    fn map_chr(&self, addr: u16) -> (i: usize)
        requires
            Self::ok(self@),
        ensures
            i == self@.chr_index(addr),
    {
        let bank: u8 = if addr < 0x1000 { self.reg & 0x07 } else { 0x80 | ((self.reg >> 4) & 0x07) };
        wrapped_offset(&self.chr, self.chr_bank_count_4k, bank as usize, 0x1000, addr)
    }
}

impl Mapper for Sunsoft1 {
    open spec fn ok(s: Sunsoft1State) -> bool {
        s.chr_bank_count_4k == bank_count(s.chr.len(), 0x1000)
    }

    open spec fn cpu_byte(s: Sunsoft1State, addr: u16) -> u8 {
        if addr >= 0x8000 {
            byte_at(s.prg_rom, s.prg_index(addr))
        } else {
            0
        }
    }

    open spec fn after_cpu_write(s: Sunsoft1State, addr: u16, data: u8) -> Sunsoft1State {
        if 0x6000 <= addr < 0x8000 {
            Sunsoft1State { reg: data, ..s }
        } else {
            s
        }
    }

    open spec fn ppu_byte(s: Sunsoft1State, addr: u16) -> u8 {
        if addr < 0x2000 {
            byte_at(s.chr, s.chr_index(addr))
        } else {
            0
        }
    }

    open spec fn after_ppu_write(s: Sunsoft1State, addr: u16, data: u8) -> Sunsoft1State {
        if s.chr_ram && addr < 0x2000 {
            Sunsoft1State { chr: poked(s.chr, s.chr_index(addr), data), ..s }
        } else {
            s
        }
    }

    fn cpu_read(&mut self, addr: u16) -> (byte: u8) {
        self.cpu_peek(addr)
    }

    fn cpu_peek(&self, addr: u16) -> (byte: u8) {
        if addr < 0x8000 {
            return 0;
        }
        let total: usize = self.prg_rom.len();
        let mask: usize = if total > 2 { total - 1 } else { 1 };
        read_at(&self.prg_rom, (addr - 0x8000) as usize & mask)
    }

    fn cpu_write(&mut self, addr: u16, data: u8) {
        if 0x6000 <= addr && addr <= 0x7FFF {
            self.reg = data;
        }
    }

    fn ppu_read(&mut self, addr: u16) -> (byte: u8) {
        if addr < 0x2000 {
            read_at(&self.chr, self.map_chr(addr))
        } else {
            0
        }
    }

    fn ppu_write(&mut self, addr: u16, data: u8) {
        if self.chr_ram && addr < 0x2000 {
            let i: usize = self.map_chr(addr);
            poke(&mut self.chr, i, data);
        }
    }

    open spec fn mirrored(s: Sunsoft1State) -> Mirroring {
        s.mirroring
    }

    fn mirroring(&self) -> (mode: Mirroring) {
        self.mirroring
    }

    fn cpu_read_ex(&mut self, addr: u16) -> (byte: Option<u8>) {
        None
    }

    fn on_cpu_cycle(&mut self) {
    }

    fn irq_line(&self) -> (asserted: bool) {
        false
    }

    open spec fn captures(s: Sunsoft1State, state: Option<MapperState>) -> bool {
        match state {
            Some(MapperState::Sunsoft1(snap)) => s.captured(snap),
            _ => false,
        }
    }

    open spec fn after_apply(s: Sunsoft1State, state: MapperState) -> Option<Sunsoft1State> {
        match state {
            MapperState::Sunsoft1(snap) => Some(s.restored(snap)),
            _ => None,
        }
    }

    fn save_state_capture(&self) -> (state: Option<MapperState>) {
        Some(MapperState::Sunsoft1(Sunsoft1Snap {
            chr_ram_data: copy_if_ram(self.chr_ram, &self.chr),
            reg: self.reg,
        }))
    }

    fn save_state_apply(&mut self, state: &MapperState) -> (result: Result<(), SaveStateError>) {
        match state {
            MapperState::Sunsoft1(snap) => {
                restore_if_ram(self.chr_ram, &mut self.chr, &snap.chr_ram_data);
                self.reg = snap.reg;
                Ok(())
            }
            _ => Err(SaveStateError::UnsupportedMapper(0)),
        }
    }

    fn ppu_nametable_read(&mut self, slot: u8, offset: u16) -> (source: NametableSource) {
        NametableSource::Default
    }

    fn ppu_nametable_write(&mut self, slot: u8, offset: u16, data: u8) -> (target: NametableWriteTarget) {
        NametableWriteTarget::Default
    }

    fn on_ppu_addr(&mut self, addr: u16, ppu_cycle: u64, kind: PpuFetchKind) {
    }

    fn save_data(&self) -> (bytes: Option<&[u8]>) {
        None
    }

    fn load_save_data(&mut self, data: &[u8]) {
    }

    fn save_dirty(&self) -> (dirty: bool) {
        false
    }

    fn mark_saved(&mut self) {
    }
}

/// A snapshot brings back the board it was taken from, whatever happened to it since.
pub proof fn lemma_sunsoft1_round_trip(
    s: Sunsoft1State,
    later: Sunsoft1State,
    state: MapperState,
)
    requires
        Sunsoft1::ok(s),
        Sunsoft1::ok(later),
        s.same_cart(later),
        Sunsoft1::captures(s, Some(state)),
    ensures
        Sunsoft1::snapshot_ok(later, state),
        Sunsoft1::after_apply(later, state) == Some(s),
{
}

/// No write changes the mirroring.
pub proof fn lemma_sunsoft1_mirroring_is_fixed(s: Sunsoft1State, addr: u16, data: u8)
    ensures
        ({
            let written = Sunsoft1::after_cpu_write(s, addr, data);
            let drawn = Sunsoft1::after_ppu_write(s, addr, data);
            Sunsoft1::mirrored(written) == Sunsoft1::mirrored(s) && Sunsoft1::mirrored(drawn) == Sunsoft1::mirrored(s)
        }),
{
}

/// No write changes the cart's ROM.
pub proof fn lemma_sunsoft1_rom_is_read_only(s: Sunsoft1State, addr: u16, data: u8)
    ensures
        Sunsoft1::after_cpu_write(s, addr, data).prg_rom == s.prg_rom,
        Sunsoft1::after_ppu_write(s, addr, data).prg_rom == s.prg_rom,
        !s.chr_ram ==> Sunsoft1::after_ppu_write(s, addr, data).chr == s.chr,
{
}

/// No write moves the bank at `$8000-$FFFF`.
pub proof fn lemma_sunsoft1_fixed_bank(s: Sunsoft1State, addr: u16, data: u8, read: u16)
    requires
        Sunsoft1::ok(s),
        read >= 0x8000,
    ensures
        ({
            let after = Sunsoft1::after_cpu_write(s, addr, data);
            Sunsoft1::cpu_byte(after, read) == Sunsoft1::cpu_byte(s, read)
        }),
{
}

/// Pattern RAM gives back what was stored.
pub proof fn lemma_sunsoft1_pattern_ram(s: Sunsoft1State, addr: u16, data: u8)
    requires
        Sunsoft1::ok(s),
        s.chr_ram,
        addr < 0x2000,
        0 <= s.chr_index(addr) < s.chr.len(),
    ensures
        ({
            let after = Sunsoft1::after_ppu_write(s, addr, data);
            Sunsoft1::ppu_byte(after, addr) == data
        }),
{
}

} // verus!
