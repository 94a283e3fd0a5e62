//! Two games on one MMC3 cart (iNES mapper 47).
//!
//! A latch at `$6000-$7FFF`, which the chip takes for work RAM, selects one half of the ROMs by its
//! bit 0: 128 KiB of PRG-ROM and 128 KiB of CHR-ROM each. The window reads as zero.
use vstd::prelude::*;

use crate::mapper::mmc3::{lemma_mmc3_round_trip, Mmc3, Mmc3State};
use crate::mapper::{Mapper, NametableSource, NametableWriteTarget, PpuFetchKind};
use crate::mem::{
    bank_count, byte_at, count_banks, in_bank, poke, poked, ram_fits, read_at, wrapped_offset,
};
use crate::rom::{Cartridge, Mirroring};
use crate::save_state::mapper::{Mapper047Snap, MapperState};
use crate::save_state::SaveStateError;

verus! {

pub struct Mapper047 {
    pub inner: Mmc3,
    /// The block that the last write to `$6000-$7FFF` selected.
    pub block: u8,
}

/// The state of an [`Mapper047`] board.
#[verifier::ext_equal]
pub struct Mapper047State {
    pub inner: Mmc3State,
    pub block: u8,
}

impl View for Mapper047 {
    type V = Mapper047State;

    open spec fn view(&self) -> Mapper047State {
        Mapper047State {
            inner: self.inner@,
            block: self.block,
        }
    }
}

impl Mapper047State {
    pub open spec fn power_on(cart: Cartridge) -> Mapper047State {
        Mapper047State { inner: Mmc3State::power_on(cart), block: 0 }
    }

    /// The PRG bank that the block makes of the chip's.
    pub open spec fn outer_prg(self, bank: usize) -> usize {
        ((self.block as usize) << 4) | (bank & 0x0F)
    }

    /// The CHR bank that the block makes of the chip's.
    pub open spec fn outer_chr(self, bank: usize) -> usize {
        ((self.block as usize) << 7) | (bank & 0x7F)
    }

    pub open spec fn prg_index(self, addr: u16) -> int {
        let bank = self.outer_prg(self.inner.prg_select(addr) as usize) as int;
        in_bank(bank % bank_count(self.inner.prg_rom.len(), 0x2000), 0x2000, addr as int)
    }

    pub open spec fn chr_index(self, addr: u16) -> int {
        let bank = self.outer_chr(self.inner.chr_select(addr) as usize) as int;
        in_bank(bank % bank_count(self.inner.chr.len(), 0x400), 0x400, addr as int)
    }

    /// Whether `snap` was taken in this state.
    pub open spec fn captured(self, snap: Mapper047Snap) -> bool {
        self.inner.captured(snap.inner) && snap.block == self.block
    }

    /// The board with what `snap` holds.
    pub open spec fn restored(self, snap: Mapper047Snap) -> Mapper047State {
        Mapper047State { inner: self.inner.restored(snap.inner), block: snap.block }
    }
}

impl Mapper047 {
    pub fn new(cart: Cartridge) -> (m: Self)
        requires
            ram_fits(cart),
        ensures
            Self::ok(m@),
            m@ == Mapper047State::power_on(cart),
    {
        Mapper047 { inner: Mmc3::new(cart), block: 0 }
    }

    fn remap_prg(&self, mmc3_bank: usize) -> (bank: usize)
        ensures
            bank == self@.outer_prg(mmc3_bank),
    {
        ((self.block as usize) << 4) | (mmc3_bank & 0x0F)
    }

    fn remap_chr(&self, mmc3_bank: usize) -> (bank: usize)
        ensures
            bank == self@.outer_chr(mmc3_bank),
    {
        ((self.block as usize) << 7) | (mmc3_bank & 0x7F)
    }

    fn read_prg_byte(&self, addr: u16) -> (byte: u8)
        requires
            Self::ok(self@),
            addr >= 0x8000,
        ensures
            byte == byte_at(self@.inner.prg_rom, self@.prg_index(addr)),
    {
        let bank: usize = self.remap_prg(self.inner.prg_bank_for(addr));
        let total_banks: usize = count_banks(&self.inner.prg_rom, 0x2000);
        read_at(&self.inner.prg_rom, wrapped_offset(&self.inner.prg_rom, total_banks, bank, 0x2000, addr))
    }

    fn map_chr(&self, addr: u16) -> (i: usize)
        requires
            Self::ok(self@),
        ensures
            i == self@.chr_index(addr),
    {
        let bank: usize = self.remap_chr(self.inner.chr_bank_for(addr));
        let total_banks: usize = count_banks(&self.inner.chr, 0x400);
        wrapped_offset(&self.inner.chr, total_banks, bank, 0x400, addr)
    }
}

impl Mapper for Mapper047 {
    open spec fn ok(s: Mapper047State) -> bool {
        Mmc3::ok(s.inner)
    }

    open spec fn cpu_byte(s: Mapper047State, addr: u16) -> u8 {
        if addr >= 0x8000 {
            byte_at(s.inner.prg_rom, s.prg_index(addr))
        } else {
            0
        }
    }

    open spec fn after_cpu_write(s: Mapper047State, addr: u16, data: u8) -> Mapper047State {
        if 0x6000 <= addr < 0x8000 {
            if s.inner.ram_writable() {
                Mapper047State { block: data & 0x01, ..s }
            } else {
                s
            }
        } else {
            Mapper047State { inner: Mmc3::after_cpu_write(s.inner, addr, data), ..s }
        }
    }

    open spec fn ppu_byte(s: Mapper047State, addr: u16) -> u8 {
        if addr < 0x2000 {
            byte_at(s.inner.chr, s.chr_index(addr))
        } else {
            0
        }
    }

    open spec fn after_ppu_write(s: Mapper047State, addr: u16, data: u8) -> Mapper047State {
        if s.inner.chr_ram && addr < 0x2000 {
            Mapper047State {
                inner: Mmc3State { chr: poked(s.inner.chr, s.chr_index(addr), data), ..s.inner },
                ..s
            }
        } else {
            s
        }
    }

    open spec fn mirrored(s: Mapper047State) -> Mirroring {
        s.inner.mirroring
    }

    open spec fn irq(s: Mapper047State) -> bool {
        s.inner.irq_line
    }

    fn cpu_read(&mut self, addr: u16) -> (byte: u8) {
        self.cpu_peek(addr)
    }

    fn cpu_peek(&self, addr: u16) -> (byte: u8) {
        if addr >= 0x8000 {
            self.read_prg_byte(addr)
        } else {
            0
        }
    }

    fn cpu_write(&mut self, addr: u16, data: u8) {
        match addr {
            0x6000..=0x7FFF => {
                if self.inner.cpu_can_write_wram() {
                    self.block = data & 0x01;
                }
            }
            _ => self.inner.cpu_write(addr, data),
        }
    }

    fn ppu_read(&mut self, addr: u16) -> (byte: u8) {
        if addr < 0x2000 {
            self.inner.ppu_read(addr);
            read_at(&self.inner.chr, self.map_chr(addr))
        } else {
            0
        }
    }

    fn ppu_write(&mut self, addr: u16, data: u8) {
        if self.inner.chr_is_ram() && addr < 0x2000 {
            let i: usize = self.map_chr(addr);
            poke(&mut self.inner.chr, i, data);
        }
    }

    fn mirroring(&self) -> (mode: Mirroring) {
        self.inner.mirroring()
    }

    fn cpu_read_ex(&mut self, addr: u16) -> (byte: Option<u8>) {
        None
    }

    fn on_cpu_cycle(&mut self) {
        self.inner.on_cpu_cycle();
    }

    fn irq_line(&self) -> (asserted: bool) {
        self.inner.irq_line()
    }

    open spec fn after_ppu_addr(s: Mapper047State, addr: u16, cycle: u64, kind: PpuFetchKind) -> Mapper047State {
        Mapper047State { inner: s.inner.addressed(addr, cycle), ..s }
    }

    fn on_ppu_addr(&mut self, addr: u16, ppu_cycle: u64, kind: PpuFetchKind) {
        self.inner.on_ppu_addr(addr, ppu_cycle, kind);
    }

    fn ppu_nametable_read(&mut self, slot: u8, offset: u16) -> (source: NametableSource) {
        self.inner.ppu_nametable_read(slot, offset)
    }

    fn ppu_nametable_write(&mut self, slot: u8, offset: u16, data: u8) -> (target: NametableWriteTarget) {
        self.inner.ppu_nametable_write(slot, offset, data)
    }

    open spec fn captures(s: Mapper047State, state: Option<MapperState>) -> bool {
        match state {
            Some(MapperState::Mapper047(snap)) => s.captured(snap),
            _ => false,
        }
    }

    open spec fn after_apply(s: Mapper047State, state: MapperState) -> Option<Mapper047State> {
        match state {
            MapperState::Mapper047(snap) => Some(s.restored(snap)),
            _ => None,
        }
    }

    fn save_state_capture(&self) -> (state: Option<MapperState>) {
        Some(MapperState::Mapper047(Mapper047Snap { inner: self.inner.snapshot(), block: self.block }))
    }

    fn save_state_apply(&mut self, state: &MapperState) -> (result: Result<(), SaveStateError>) {
        match state {
            MapperState::Mapper047(snap) => {
                self.inner.restore(&snap.inner);
                self.block = snap.block;
                Ok(())
            }
            _ => Err(SaveStateError::UnsupportedMapper(0)),
        }
    }

    fn save_data(&self) -> (bytes: Option<&[u8]>) {
        None
    }

    fn load_save_data(&mut self, data: &[u8]) {
    }

    fn save_dirty(&self) -> (dirty: bool) {
        false
    }

    fn mark_saved(&mut self) {
    }
}

/// A snapshot brings back the board it was taken from, whatever happened to it since.
pub proof fn lemma_mapper047_round_trip(s: Mapper047State, later: Mapper047State, state: MapperState)
    requires
        Mapper047::ok(s),
        Mapper047::ok(later),
        s.inner.same_cart(later.inner),
        Mapper047::captures(s, Some(state)),
    ensures
        Mapper047::after_apply(later, state) == Some(s),
{
    lemma_mmc3_round_trip(s.inner, later.inner, MapperState::Mmc3(state->Mapper047_0.inner));
}

/// The block can be selected only while the chip lets work RAM be written.
pub proof fn lemma_mapper047_latch_gate(s: Mapper047State, addr: u16, data: u8)
    requires
        0x6000 <= addr < 0x8000,
        !s.inner.ram_writable(),
    ensures
        Mapper047::after_cpu_write(s, addr, data) == s,
{
}

/// Each block is confined to its half of the ROMs.
pub proof fn lemma_mapper047_blocks(s: Mapper047State, bank: usize)
    requires
        s.block < 2,
    ensures
        s.block * 16 <= s.outer_prg(bank) < s.block * 16 + 16,
        s.block * 0x80 <= s.outer_chr(bank) < s.block * 0x80 + 0x80,
{
    lemma_mapper047_masks(s.block as usize, bank);
}

proof fn lemma_mapper047_masks(block: usize, bank: usize)
    by (bit_vector)
    requires
        block < 2,
    ensures
        block * 16 <= (block << 4) | (bank & 0x0F) < block * 16 + 16,
        block * 0x80 <= (block << 7) | (bank & 0x7F) < block * 0x80 + 0x80,
{
}

} // verus!
