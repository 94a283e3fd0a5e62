//! Jaleco JF-13 (iNES mapper 86).
//!
//! One register at `$6000-$6FFF`: bits 4-5 select a 32 KiB PRG bank; bits 6, 1 and 0 together an
//! 8 KiB CHR bank. Mirroring is soldered. The speech chip at `$7000-$7FFF` is not modelled, and
//! writes to it do nothing.
use vstd::prelude::*;

use crate::mapper::{Mapper, NametableSource, NametableWriteTarget, PpuFetchKind};
use crate::mem::{
    bank_count, byte_at, chr_image, copy_if_ram, count_banks, has_chr_ram, in_bank, poke, poked,
    ram_copy, ram_restored, read_at, restore_if_ram, take_chr, wrapped_offset,
};
use crate::rom::{Cartridge, Mirroring};
use crate::save_state::mapper::{JalecoJf13Snap, MapperState};
use crate::save_state::SaveStateError;

verus! {

pub struct JalecoJf13 {
    pub prg_rom: Vec<u8>,
    pub chr_rom: Vec<u8>,
    /// Whether `chr_rom` holds RAM.
    pub chr_ram: bool,
    pub reg: u8,
    pub mirroring: Mirroring,
    pub prg_bank_count_32k: usize,
    pub chr_bank_count_8k: usize,
}

/// The state of an [`JalecoJf13`] board.
#[verifier::ext_equal]
pub struct JalecoJf13State {
    pub prg_rom: Seq<u8>,
    pub chr_rom: Seq<u8>,
    pub chr_ram: bool,
    pub reg: u8,
    pub mirroring: Mirroring,
    pub prg_bank_count_32k: usize,
    pub chr_bank_count_8k: usize,
}

impl View for JalecoJf13 {
    type V = JalecoJf13State;

    open spec fn view(&self) -> JalecoJf13State {
        JalecoJf13State {
            prg_rom: self.prg_rom@,
            chr_rom: self.chr_rom@,
            chr_ram: self.chr_ram,
            reg: self.reg,
            mirroring: self.mirroring,
            prg_bank_count_32k: self.prg_bank_count_32k,
            chr_bank_count_8k: self.chr_bank_count_8k,
        }
    }
}

impl JalecoJf13State {
    pub open spec fn power_on(cart: Cartridge) -> JalecoJf13State {
        JalecoJf13State {
            prg_rom: cart.prg_rom@,
            chr_rom: chr_image(cart, 0x2000),
            chr_ram: has_chr_ram(cart),
            reg: 0,
            mirroring: cart.mirroring,
            prg_bank_count_32k: bank_count(cart.prg_rom@.len(), 0x8000) as usize,
            chr_bank_count_8k: bank_count(chr_image(cart, 0x2000).len(), 0x2000) as usize,
        }
    }

    pub open spec fn prg_index(self, addr: u16) -> int {
        in_bank(((self.reg >> 4) & 0x03) as int % self.prg_bank_count_32k as int, 0x8000, addr as int)
    }

    pub open spec fn chr_index(self, addr: u16) -> int {
        let bank = (((self.reg >> 4) & 0x04) | (self.reg & 0x03)) as int;
        in_bank(bank % self.chr_bank_count_8k as int, 0x2000, addr as int)
    }

    /// Whether `snap` was taken in this state.
    pub open spec fn captured(self, snap: JalecoJf13Snap) -> bool {
        &&& snap.chr_ram_data@ == ram_copy(self.chr_ram, self.chr_rom)
        &&& snap.reg == self.reg
    }

    /// The board with what `snap` holds.
    pub open spec fn restored(self, snap: JalecoJf13Snap) -> JalecoJf13State {
        JalecoJf13State {
            chr_rom: ram_restored(self.chr_ram, self.chr_rom, snap.chr_ram_data@),
            reg: snap.reg,
            ..self
        }
    }

    /// Whether `other` is the same cart, at another time.
    pub open spec fn same_cart(self, other: JalecoJf13State) -> bool {
        &&& self.chr_ram ==> other.chr_rom.len() == self.chr_rom.len()
        &&& !self.chr_ram ==> other.chr_rom == self.chr_rom
        &&& other.prg_rom == self.prg_rom
        &&& other.chr_ram == self.chr_ram
        &&& other.mirroring == self.mirroring
        &&& other.prg_bank_count_32k == self.prg_bank_count_32k
        &&& other.chr_bank_count_8k == self.chr_bank_count_8k
    }
}

impl JalecoJf13 {
    pub fn new(cart: Cartridge) -> (m: Self)
        ensures
            Self::ok(m@),
            m@ == JalecoJf13State::power_on(cart),
    {
        let (chr_rom, chr_ram): (Vec<u8>, bool) = take_chr(cart.chr_rom, cart.chr_ram, 0x2000);
        JalecoJf13 {
            prg_bank_count_32k: count_banks(&cart.prg_rom, 0x8000),
            chr_bank_count_8k: count_banks(&chr_rom, 0x2000),
            prg_rom: cart.prg_rom,
            chr_rom,
            chr_ram,
            reg: 0,
            mirroring: cart.mirroring,
        }
    }

    fn map_prg(&self, addr: u16) -> (i: usize)
        requires
            Self::ok(self@),
        ensures
            i == self@.prg_index(addr),
    {
        wrapped_offset(&self.prg_rom, self.prg_bank_count_32k, ((self.reg >> 4) & 0x03) as usize, 0x8000, addr)
    }

    fn map_chr(&self, addr: u16) -> (i: usize)
        requires
            Self::ok(self@),
        ensures
            i == self@.chr_index(addr),
    {
        let bank: usize = (((self.reg >> 4) & 0x04) | (self.reg & 0x03)) as usize;
        wrapped_offset(&self.chr_rom, self.chr_bank_count_8k, bank, 0x2000, addr)
    }
}

impl Mapper for JalecoJf13 {
    open spec fn ok(s: JalecoJf13State) -> bool {
        &&& s.prg_bank_count_32k == bank_count(s.prg_rom.len(), 0x8000)
        &&& s.chr_bank_count_8k == bank_count(s.chr_rom.len(), 0x2000)
    }

    open spec fn cpu_byte(s: JalecoJf13State, addr: u16) -> u8 {
        if addr >= 0x8000 {
            byte_at(s.prg_rom, s.prg_index(addr))
        } else {
            0
        }
    }

    open spec fn after_cpu_write(s: JalecoJf13State, addr: u16, data: u8) -> JalecoJf13State {
        if 0x6000 <= addr < 0x7000 {
            JalecoJf13State { reg: data, ..s }
        } else {
            s
        }
    }

    open spec fn ppu_byte(s: JalecoJf13State, addr: u16) -> u8 {
        if addr < 0x2000 {
            byte_at(s.chr_rom, s.chr_index(addr))
        } else {
            0
        }
    }

    open spec fn after_ppu_write(s: JalecoJf13State, addr: u16, data: u8) -> JalecoJf13State {
        if s.chr_ram && addr < 0x2000 {
            JalecoJf13State { chr_rom: poked(s.chr_rom, s.chr_index(addr), data), ..s }
        } else {
            s
        }
    }

    fn cpu_read(&mut self, addr: u16) -> (byte: u8) {
        self.cpu_peek(addr)
    }

    fn cpu_peek(&self, addr: u16) -> (byte: u8) {
        if addr >= 0x8000 {
            read_at(&self.prg_rom, self.map_prg(addr))
        } else {
            0
        }
    }

    fn cpu_write(&mut self, addr: u16, data: u8) {
        if 0x6000 <= addr && addr < 0x7000 {
            self.reg = data;
        }
    }

    fn ppu_read(&mut self, addr: u16) -> (byte: u8) {
        if addr < 0x2000 {
            read_at(&self.chr_rom, self.map_chr(addr))
        } else {
            0
        }
    }

    fn ppu_write(&mut self, addr: u16, data: u8) {
        if self.chr_ram && addr < 0x2000 {
            let i: usize = self.map_chr(addr);
            poke(&mut self.chr_rom, i, data);
        }
    }

    open spec fn mirrored(s: JalecoJf13State) -> Mirroring {
        s.mirroring
    }

    fn mirroring(&self) -> (mode: Mirroring) {
        self.mirroring
    }

    fn cpu_read_ex(&mut self, addr: u16) -> (byte: Option<u8>) {
        None
    }

    fn on_cpu_cycle(&mut self) {
    }

    fn irq_line(&self) -> (asserted: bool) {
        false
    }

    open spec fn captures(s: JalecoJf13State, state: Option<MapperState>) -> bool {
        match state {
            Some(MapperState::JalecoJf13(snap)) => s.captured(snap),
            _ => false,
        }
    }

    open spec fn after_apply(s: JalecoJf13State, state: MapperState) -> Option<JalecoJf13State> {
        match state {
            MapperState::JalecoJf13(snap) => Some(s.restored(snap)),
            _ => None,
        }
    }

    fn save_state_capture(&self) -> (state: Option<MapperState>) {
        Some(MapperState::JalecoJf13(JalecoJf13Snap {
            chr_ram_data: copy_if_ram(self.chr_ram, &self.chr_rom),
            reg: self.reg,
        }))
    }

    fn save_state_apply(&mut self, state: &MapperState) -> (result: Result<(), SaveStateError>) {
        match state {
            MapperState::JalecoJf13(snap) => {
                restore_if_ram(self.chr_ram, &mut self.chr_rom, &snap.chr_ram_data);
                self.reg = snap.reg;
                Ok(())
            }
            _ => Err(SaveStateError::UnsupportedMapper(0)),
        }
    }

    fn ppu_nametable_read(&mut self, slot: u8, offset: u16) -> (source: NametableSource) {
        NametableSource::Default
    }

    fn ppu_nametable_write(&mut self, slot: u8, offset: u16, data: u8) -> (target: NametableWriteTarget) {
        NametableWriteTarget::Default
    }

    fn on_ppu_addr(&mut self, addr: u16, ppu_cycle: u64, kind: PpuFetchKind) {
    }

    fn save_data(&self) -> (bytes: Option<&[u8]>) {
        None
    }

    fn load_save_data(&mut self, data: &[u8]) {
    }

    fn save_dirty(&self) -> (dirty: bool) {
        false
    }

    fn mark_saved(&mut self) {
    }
}

/// A snapshot brings back the board it was taken from, whatever happened to it since.
pub proof fn lemma_jaleco_jf13_round_trip(
    s: JalecoJf13State,
    later: JalecoJf13State,
    state: MapperState,
)
    requires
        JalecoJf13::ok(s),
        JalecoJf13::ok(later),
        s.same_cart(later),
        JalecoJf13::captures(s, Some(state)),
    ensures
        JalecoJf13::snapshot_ok(later, state),
        JalecoJf13::after_apply(later, state) == Some(s),
{
}

/// No write changes the mirroring.
pub proof fn lemma_jaleco_jf13_mirroring_is_fixed(s: JalecoJf13State, addr: u16, data: u8)
    ensures
        ({
            let written = JalecoJf13::after_cpu_write(s, addr, data);
            let drawn = JalecoJf13::after_ppu_write(s, addr, data);
            JalecoJf13::mirrored(written) == JalecoJf13::mirrored(s) && JalecoJf13::mirrored(drawn) == JalecoJf13::mirrored(s)
        }),
{
}

/// No write changes the cart's ROM.
pub proof fn lemma_jaleco_jf13_rom_is_read_only(s: JalecoJf13State, addr: u16, data: u8)
    ensures
        JalecoJf13::after_cpu_write(s, addr, data).prg_rom == s.prg_rom,
        JalecoJf13::after_ppu_write(s, addr, data).prg_rom == s.prg_rom,
        !s.chr_ram ==> JalecoJf13::after_ppu_write(s, addr, data).chr_rom == s.chr_rom,
{
}

/// Pattern RAM gives back what was stored.
pub proof fn lemma_jaleco_jf13_pattern_ram(s: JalecoJf13State, addr: u16, data: u8)
    requires
        JalecoJf13::ok(s),
        s.chr_ram,
        addr < 0x2000,
        0 <= s.chr_index(addr) < s.chr_rom.len(),
    ensures
        ({
            let after = JalecoJf13::after_ppu_write(s, addr, data);
            JalecoJf13::ppu_byte(after, addr) == data
        }),
{
}

} // verus!
