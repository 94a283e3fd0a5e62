//! Bandai Oeka Kids (iNES mapper 96), the board of a drawing tablet.
//!
//! One latch at `$8000-$FFFF`, masked by the ROM byte under the write: bits 0-1 select a 32 KiB
//! PRG bank, bit 2 one half of the 32 KiB of pattern RAM. Within that half, `$1000-$1FFF` always
//! has the last 4 KiB page, and `$0000-$0FFF` the page that the PPU's address bus picks: each
//! tile fetch from a nametable latches bits 8-9 of its address.
use vstd::prelude::*;

use crate::mapper::{Mapper, NametableSource, NametableWriteTarget, PpuFetchKind};
use crate::mem::{
    bank_count, byte_at, byte_or, copied, count_banks, in_bank, poke, poked, read_at, read_or,
    reload, reloaded, wrapped_offset, zeroed, zeros,
};
use crate::rom::{Cartridge, Mirroring};
use crate::save_state::mapper::{BandaiOekaKidsSnap, MapperState};
use crate::save_state::{MirroringSnap, SaveStateError};

verus! {

pub struct BandaiOekaKids {
    pub prg_rom: Vec<u8>,
    pub chr_ram: Vec<u8>,
    pub mirroring: Mirroring,
    pub prg_bank_count_32k: usize,
    /// The latch, after the ROM's mask.
    pub reg: u8,
    /// The page that the last tile fetch picked.
    pub inner_chr: u8,
}

/// The state of an [`BandaiOekaKids`] board.
#[verifier::ext_equal]
pub struct BandaiOekaKidsState {
    pub prg_rom: Seq<u8>,
    pub chr_ram: Seq<u8>,
    pub mirroring: Mirroring,
    pub prg_bank_count_32k: usize,
    pub reg: u8,
    pub inner_chr: u8,
}

impl View for BandaiOekaKids {
    type V = BandaiOekaKidsState;

    open spec fn view(&self) -> BandaiOekaKidsState {
        BandaiOekaKidsState {
            prg_rom: self.prg_rom@,
            chr_ram: self.chr_ram@,
            mirroring: self.mirroring,
            prg_bank_count_32k: self.prg_bank_count_32k,
            reg: self.reg,
            inner_chr: self.inner_chr,
        }
    }
}

impl BandaiOekaKidsState {
    pub open spec fn power_on(cart: Cartridge) -> BandaiOekaKidsState {
        BandaiOekaKidsState {
            prg_rom: cart.prg_rom@,
            chr_ram: zeros(0x8000),
            mirroring: cart.mirroring,
            prg_bank_count_32k: bank_count(cart.prg_rom@.len(), 0x8000) as usize,
            reg: 0,
            inner_chr: 0,
        }
    }

    pub open spec fn prg_index(self, addr: u16) -> int {
        in_bank((self.reg & 0x03) as int % self.prg_bank_count_32k as int, 0x8000, addr as int)
    }

    /// The half of pattern RAM.
    pub open spec fn half(self) -> int {
        if self.reg & 0x04 != 0 {
            1
        } else {
            0
        }
    }

    pub open spec fn chr_index(self, addr: u16) -> int {
        let page = if addr < 0x1000 {
            self.inner_chr as int % 4
        } else {
            3
        };
        in_bank(self.half() * 4 + page, 0x1000, addr as int)
    }

    /// The board after the PPU has driven `addr`.
    pub open spec fn addressed(self, addr: u16) -> BandaiOekaKidsState {
        if 0x2000 <= addr < 0x3000 && addr % 0x400 < 0x3C0 {
            BandaiOekaKidsState { inner_chr: (addr as int / 0x100 % 4) as u8, ..self }
        } else {
            self
        }
    }

    /// Whether `snap` was taken in this state.
    pub open spec fn captured(self, snap: BandaiOekaKidsSnap) -> bool {
        &&& snap.chr_ram@ == self.chr_ram
        &&& snap.mirroring == MirroringSnap::of(self.mirroring)
        &&& snap.reg == self.reg
        &&& snap.inner_chr == self.inner_chr
    }

    /// The board with what `snap` holds.
    pub open spec fn restored(self, snap: BandaiOekaKidsSnap) -> BandaiOekaKidsState {
        BandaiOekaKidsState {
            chr_ram: reloaded(self.chr_ram, snap.chr_ram@),
            mirroring: snap.mirroring.live(),
            reg: snap.reg,
            inner_chr: snap.inner_chr,
            ..self
        }
    }

    /// Whether `other` is the same cart, at another time.
    pub open spec fn same_cart(self, other: BandaiOekaKidsState) -> bool {
        &&& other.chr_ram.len() == self.chr_ram.len()
        &&& other.prg_rom == self.prg_rom
        &&& other.prg_bank_count_32k == self.prg_bank_count_32k
    }
}

impl BandaiOekaKids {
    pub fn new(cart: Cartridge) -> (m: Self)
        ensures
            Self::ok(m@),
            m@ == BandaiOekaKidsState::power_on(cart),
    {
        BandaiOekaKids {
            prg_bank_count_32k: count_banks(&cart.prg_rom, 0x8000),
            prg_rom: cart.prg_rom,
            chr_ram: zeroed(0x8000),
            mirroring: cart.mirroring,
            reg: 0,
            inner_chr: 0,
        }
    }

    pub fn outer_chr(&self) -> (half: usize)
        ensures
            half == self@.half(),
    {
        if self.reg & 0x04 != 0 {
            1
        } else {
            0
        }
    }

    fn map_prg(&self, addr: u16) -> (i: usize)
        requires
            Self::ok(self@),
        ensures
            i == self@.prg_index(addr),
    {
        wrapped_offset(&self.prg_rom, self.prg_bank_count_32k, (self.reg & 0x03) as usize, 0x8000, addr)
    }

    fn map_chr(&self, addr: u16) -> (i: usize)
        requires
            Self::ok(self@),
        ensures
            i == self@.chr_index(addr),
    {
        let page: usize = if addr < 0x1000 { self.inner_chr as usize % 4 } else { 3 };
        (self.outer_chr() * 4 + page) * 0x1000 + addr as usize % 0x1000
    }
}

impl Mapper for BandaiOekaKids {
    open spec fn ok(s: BandaiOekaKidsState) -> bool {
        s.prg_bank_count_32k == bank_count(s.prg_rom.len(), 0x8000)
    }

    open spec fn cpu_byte(s: BandaiOekaKidsState, addr: u16) -> u8 {
        if addr >= 0x8000 {
            byte_at(s.prg_rom, s.prg_index(addr))
        } else {
            0
        }
    }

    open spec fn after_cpu_write(s: BandaiOekaKidsState, addr: u16, data: u8) -> BandaiOekaKidsState {
        if addr >= 0x8000 {
            BandaiOekaKidsState { reg: data & byte_or(s.prg_rom, s.prg_index(addr), 0xFF), ..s }
        } else {
            s
        }
    }

    open spec fn ppu_byte(s: BandaiOekaKidsState, addr: u16) -> u8 {
        if addr < 0x2000 {
            byte_at(s.chr_ram, s.chr_index(addr))
        } else {
            0
        }
    }

    open spec fn after_ppu_write(s: BandaiOekaKidsState, addr: u16, data: u8) -> BandaiOekaKidsState {
        if addr < 0x2000 {
            BandaiOekaKidsState { chr_ram: poked(s.chr_ram, s.chr_index(addr), data), ..s }
        } else {
            s
        }
    }

    fn cpu_read(&mut self, addr: u16) -> (byte: u8) {
        self.cpu_peek(addr)
    }

    fn cpu_peek(&self, addr: u16) -> (byte: u8) {
        if addr >= 0x8000 {
            read_at(&self.prg_rom, self.map_prg(addr))
        } else {
            0
        }
    }

    fn cpu_write(&mut self, addr: u16, data: u8) {
        if addr >= 0x8000 {
            let rom_byte: u8 = read_or(&self.prg_rom, self.map_prg(addr), 0xFF);
            self.reg = data & rom_byte;
        }
    }

    fn ppu_read(&mut self, addr: u16) -> (byte: u8) {
        if addr < 0x2000 {
            read_at(&self.chr_ram, self.map_chr(addr))
        } else {
            0
        }
    }

    fn ppu_write(&mut self, addr: u16, data: u8) {
        if addr < 0x2000 {
            let i: usize = self.map_chr(addr);
            poke(&mut self.chr_ram, i, data);
        }
    }

    open spec fn after_ppu_addr(s: Self::V, addr: u16, cycle: u64, kind: PpuFetchKind) -> Self::V {
        s.addressed(addr)
    }

    fn on_ppu_addr(&mut self, addr: u16, ppu_cycle: u64, kind: PpuFetchKind) {
        if 0x2000 <= addr && addr < 0x3000 && addr % 0x400 < 0x3C0 {
            self.inner_chr = (addr / 0x100 % 4) as u8;
        }
    }

    open spec fn mirrored(s: BandaiOekaKidsState) -> Mirroring {
        s.mirroring
    }

    fn mirroring(&self) -> (mode: Mirroring) {
        self.mirroring
    }

    fn cpu_read_ex(&mut self, addr: u16) -> (byte: Option<u8>) {
        None
    }

    fn on_cpu_cycle(&mut self) {
    }

    fn irq_line(&self) -> (asserted: bool) {
        false
    }

    open spec fn captures(s: BandaiOekaKidsState, state: Option<MapperState>) -> bool {
        match state {
            Some(MapperState::BandaiOekaKids(snap)) => s.captured(snap),
            _ => false,
        }
    }

    open spec fn after_apply(s: BandaiOekaKidsState, state: MapperState) -> Option<BandaiOekaKidsState> {
        match state {
            MapperState::BandaiOekaKids(snap) => Some(s.restored(snap)),
            _ => None,
        }
    }

    fn save_state_capture(&self) -> (state: Option<MapperState>) {
        Some(MapperState::BandaiOekaKids(BandaiOekaKidsSnap {
            chr_ram: copied(&self.chr_ram),
            mirroring: MirroringSnap::from_live(self.mirroring),
            reg: self.reg,
            inner_chr: self.inner_chr,
        }))
    }

    fn save_state_apply(&mut self, state: &MapperState) -> (result: Result<(), SaveStateError>) {
        match state {
            MapperState::BandaiOekaKids(snap) => {
                reload(&mut self.chr_ram, snap.chr_ram.as_slice());
                self.mirroring = snap.mirroring.to_live();
                self.reg = snap.reg;
                self.inner_chr = snap.inner_chr;
                Ok(())
            }
            _ => Err(SaveStateError::UnsupportedMapper(0)),
        }
    }

    fn ppu_nametable_read(&mut self, slot: u8, offset: u16) -> (source: NametableSource) {
        NametableSource::Default
    }

    fn ppu_nametable_write(&mut self, slot: u8, offset: u16, data: u8) -> (target: NametableWriteTarget) {
        NametableWriteTarget::Default
    }

    fn save_data(&self) -> (bytes: Option<&[u8]>) {
        None
    }

    fn load_save_data(&mut self, data: &[u8]) {
    }

    fn save_dirty(&self) -> (dirty: bool) {
        false
    }

    fn mark_saved(&mut self) {
    }
}

/// A snapshot brings back the board it was taken from, whatever happened to it since.
pub proof fn lemma_bandai_oeka_kids_round_trip(
    s: BandaiOekaKidsState,
    later: BandaiOekaKidsState,
    state: MapperState,
)
    requires
        BandaiOekaKids::ok(s),
        BandaiOekaKids::ok(later),
        s.same_cart(later),
        BandaiOekaKids::captures(s, Some(state)),
    ensures
        BandaiOekaKids::snapshot_ok(later, state),
        BandaiOekaKids::after_apply(later, state) == Some(s),
{
}

/// No write changes the mirroring.
pub proof fn lemma_bandai_oeka_kids_mirroring_is_fixed(s: BandaiOekaKidsState, addr: u16, data: u8)
    ensures
        ({
            let written = BandaiOekaKids::after_cpu_write(s, addr, data);
            let drawn = BandaiOekaKids::after_ppu_write(s, addr, data);
            BandaiOekaKids::mirrored(written) == BandaiOekaKids::mirrored(s) && BandaiOekaKids::mirrored(drawn) == BandaiOekaKids::mirrored(s)
        }),
{
}

/// No write changes the cart's ROM.
pub proof fn lemma_bandai_oeka_kids_rom_is_read_only(s: BandaiOekaKidsState, addr: u16, data: u8)
    ensures
        BandaiOekaKids::after_cpu_write(s, addr, data).prg_rom == s.prg_rom,
        BandaiOekaKids::after_ppu_write(s, addr, data).prg_rom == s.prg_rom,
{
}

/// Pattern RAM gives back what was stored.
pub proof fn lemma_bandai_oeka_kids_pattern_ram(s: BandaiOekaKidsState, addr: u16, data: u8)
    requires
        BandaiOekaKids::ok(s),
        addr < 0x2000,
        0 <= s.chr_index(addr) < s.chr_ram.len(),
    ensures
        ({
            let after = BandaiOekaKids::after_ppu_write(s, addr, data);
            BandaiOekaKids::ppu_byte(after, addr) == data
        }),
{
}

/// Attribute and pattern fetches leave the page as it was.
pub proof fn lemma_only_tile_fetches_pick_a_page(s: BandaiOekaKidsState, addr: u16)
    requires
        addr < 0x2000 || addr >= 0x3000 || addr % 0x400 >= 0x3C0,
    ensures
        s.addressed(addr) == s,
{
}

} // verus!
