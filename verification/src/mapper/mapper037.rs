//! Three games on one MMC3 cart (iNES mapper 37).
//!
//! A latch at `$6000-$7FFF`, which the chip takes for work RAM, selects a block of the ROMs:
//!
//! | latch | PRG-ROM | CHR-ROM |
//! |---|---|---|
//! | 0-2 | first 64 KiB | first 128 KiB |
//! | 3 | second 64 KiB | first 128 KiB |
//! | 4-6 | second 128 KiB | second 128 KiB |
//! | 7 | last 64 KiB | second 128 KiB |
//!
//! The window reads as zero.
use vstd::prelude::*;

use crate::mapper::mmc3::{lemma_mmc3_round_trip, Mmc3, Mmc3State};
use crate::mapper::{Mapper, NametableSource, NametableWriteTarget, PpuFetchKind};
use crate::mem::{
    bank_count, byte_at, count_banks, in_bank, poke, poked, ram_fits, read_at, wrapped_offset,
};
use crate::rom::{Cartridge, Mirroring};
use crate::save_state::mapper::{Mapper037Snap, MapperState};
use crate::save_state::SaveStateError;

verus! {

pub struct Mapper037 {
    pub inner: Mmc3,
    /// The block that the last write to `$6000-$7FFF` selected.
    pub block: u8,
}

/// The state of an [`Mapper037`] board.
#[verifier::ext_equal]
pub struct Mapper037State {
    pub inner: Mmc3State,
    pub block: u8,
}

impl View for Mapper037 {
    type V = Mapper037State;

    open spec fn view(&self) -> Mapper037State {
        Mapper037State {
            inner: self.inner@,
            block: self.block,
        }
    }
}

impl Mapper037State {
    pub open spec fn power_on(cart: Cartridge) -> Mapper037State {
        Mapper037State { inner: Mmc3State::power_on(cart), block: 0 }
    }

    /// The PRG bank that the block makes of the chip's.
    pub open spec fn outer_prg(self, bank: usize) -> usize {
        let reg = self.block as usize;
        let base = ((reg << 2) & 0x10) | (if reg & 0x03 == 0x03 { 0x08usize } else { 0 });
        base | (bank & ((reg << 1) | 0x07))
    }

    /// The CHR bank that the block makes of the chip's.
    pub open spec fn outer_chr(self, bank: usize) -> usize {
        (((self.block as usize) << 5) & 0x80) | (bank & 0x7F)
    }

    pub open spec fn prg_index(self, addr: u16) -> int {
        let bank = self.outer_prg(self.inner.prg_select(addr) as usize) as int;
        in_bank(bank % bank_count(self.inner.prg_rom.len(), 0x2000), 0x2000, addr as int)
    }

    pub open spec fn chr_index(self, addr: u16) -> int {
        let bank = self.outer_chr(self.inner.chr_select(addr) as usize) as int;
        in_bank(bank % bank_count(self.inner.chr.len(), 0x400), 0x400, addr as int)
    }

    /// Whether `snap` was taken in this state.
    pub open spec fn captured(self, snap: Mapper037Snap) -> bool {
        self.inner.captured(snap.inner) && snap.block == self.block
    }

    /// The board with what `snap` holds.
    pub open spec fn restored(self, snap: Mapper037Snap) -> Mapper037State {
        Mapper037State { inner: self.inner.restored(snap.inner), block: snap.block }
    }
}

impl Mapper037 {
    pub fn new(cart: Cartridge) -> (m: Self)
        requires
            ram_fits(cart),
        ensures
            Self::ok(m@),
            m@ == Mapper037State::power_on(cart),
    {
        Mapper037 { inner: Mmc3::new(cart), block: 0 }
    }

    fn remap_prg(&self, mmc3_bank: usize) -> (bank: usize)
        ensures
            bank == self@.outer_prg(mmc3_bank),
    {
        let reg: usize = self.block as usize;
        let base: usize = ((reg << 2) & 0x10) | (if (reg & 0x03) == 0x03 { 0x08 } else { 0x00 });
        let mask: usize = (reg << 1) | 0x07;
        base | (mmc3_bank & mask)
    }

    fn remap_chr(&self, mmc3_bank: usize) -> (bank: usize)
        ensures
            bank == self@.outer_chr(mmc3_bank),
    {
        (((self.block as usize) << 5) & 0x80) | (mmc3_bank & 0x7F)
    }

    fn read_prg_byte(&self, addr: u16) -> (byte: u8)
        requires
            Self::ok(self@),
            addr >= 0x8000,
        ensures
            byte == byte_at(self@.inner.prg_rom, self@.prg_index(addr)),
    {
        let bank: usize = self.remap_prg(self.inner.prg_bank_for(addr));
        let total_banks: usize = count_banks(&self.inner.prg_rom, 0x2000);
        read_at(&self.inner.prg_rom, wrapped_offset(&self.inner.prg_rom, total_banks, bank, 0x2000, addr))
    }

    fn map_chr(&self, addr: u16) -> (i: usize)
        requires
            Self::ok(self@),
        ensures
            i == self@.chr_index(addr),
    {
        let bank: usize = self.remap_chr(self.inner.chr_bank_for(addr));
        let total_banks: usize = count_banks(&self.inner.chr, 0x400);
        wrapped_offset(&self.inner.chr, total_banks, bank, 0x400, addr)
    }
}

impl Mapper for Mapper037 {
    open spec fn ok(s: Mapper037State) -> bool {
        Mmc3::ok(s.inner)
    }

    open spec fn cpu_byte(s: Mapper037State, addr: u16) -> u8 {
        if addr >= 0x8000 {
            byte_at(s.inner.prg_rom, s.prg_index(addr))
        } else {
            0
        }
    }

    open spec fn after_cpu_write(s: Mapper037State, addr: u16, data: u8) -> Mapper037State {
        if 0x6000 <= addr < 0x8000 {
            if s.inner.ram_writable() {
                Mapper037State { block: data & 0x07, ..s }
            } else {
                s
            }
        } else {
            Mapper037State { inner: Mmc3::after_cpu_write(s.inner, addr, data), ..s }
        }
    }

    open spec fn ppu_byte(s: Mapper037State, addr: u16) -> u8 {
        if addr < 0x2000 {
            byte_at(s.inner.chr, s.chr_index(addr))
        } else {
            0
        }
    }

    open spec fn after_ppu_write(s: Mapper037State, addr: u16, data: u8) -> Mapper037State {
        if s.inner.chr_ram && addr < 0x2000 {
            Mapper037State {
                inner: Mmc3State { chr: poked(s.inner.chr, s.chr_index(addr), data), ..s.inner },
                ..s
            }
        } else {
            s
        }
    }

    open spec fn mirrored(s: Mapper037State) -> Mirroring {
        s.inner.mirroring
    }

    open spec fn irq(s: Mapper037State) -> bool {
        s.inner.irq_line
    }

    fn cpu_read(&mut self, addr: u16) -> (byte: u8) {
        self.cpu_peek(addr)
    }

    fn cpu_peek(&self, addr: u16) -> (byte: u8) {
        if addr >= 0x8000 {
            self.read_prg_byte(addr)
        } else {
            0
        }
    }

    fn cpu_write(&mut self, addr: u16, data: u8) {
        match addr {
            0x6000..=0x7FFF => {
                if self.inner.cpu_can_write_wram() {
                    self.block = data & 0x07;
                }
            }
            _ => self.inner.cpu_write(addr, data),
        }
    }

    fn ppu_read(&mut self, addr: u16) -> (byte: u8) {
        if addr < 0x2000 {
            self.inner.ppu_read(addr);
            read_at(&self.inner.chr, self.map_chr(addr))
        } else {
            0
        }
    }

    fn ppu_write(&mut self, addr: u16, data: u8) {
        if self.inner.chr_is_ram() && addr < 0x2000 {
            let i: usize = self.map_chr(addr);
            poke(&mut self.inner.chr, i, data);
        }
    }

    fn mirroring(&self) -> (mode: Mirroring) {
        self.inner.mirroring()
    }

    fn cpu_read_ex(&mut self, addr: u16) -> (byte: Option<u8>) {
        None
    }

    fn on_cpu_cycle(&mut self) {
        self.inner.on_cpu_cycle();
    }

    fn irq_line(&self) -> (asserted: bool) {
        self.inner.irq_line()
    }

    open spec fn after_ppu_addr(s: Mapper037State, addr: u16, cycle: u64, kind: PpuFetchKind) -> Mapper037State {
        Mapper037State { inner: s.inner.addressed(addr, cycle), ..s }
    }

    fn on_ppu_addr(&mut self, addr: u16, ppu_cycle: u64, kind: PpuFetchKind) {
        self.inner.on_ppu_addr(addr, ppu_cycle, kind);
    }

    fn ppu_nametable_read(&mut self, slot: u8, offset: u16) -> (source: NametableSource) {
        self.inner.ppu_nametable_read(slot, offset)
    }

    fn ppu_nametable_write(&mut self, slot: u8, offset: u16, data: u8) -> (target: NametableWriteTarget) {
        self.inner.ppu_nametable_write(slot, offset, data)
    }

    open spec fn captures(s: Mapper037State, state: Option<MapperState>) -> bool {
        match state {
            Some(MapperState::Mapper037(snap)) => s.captured(snap),
            _ => false,
        }
    }

    open spec fn after_apply(s: Mapper037State, state: MapperState) -> Option<Mapper037State> {
        match state {
            MapperState::Mapper037(snap) => Some(s.restored(snap)),
            _ => None,
        }
    }

    fn save_state_capture(&self) -> (state: Option<MapperState>) {
        Some(MapperState::Mapper037(Mapper037Snap { inner: self.inner.snapshot(), block: self.block }))
    }

    fn save_state_apply(&mut self, state: &MapperState) -> (result: Result<(), SaveStateError>) {
        match state {
            MapperState::Mapper037(snap) => {
                self.inner.restore(&snap.inner);
                self.block = snap.block;
                Ok(())
            }
            _ => Err(SaveStateError::UnsupportedMapper(0)),
        }
    }

    fn save_data(&self) -> (bytes: Option<&[u8]>) {
        None
    }

    fn load_save_data(&mut self, data: &[u8]) {
    }

    fn save_dirty(&self) -> (dirty: bool) {
        false
    }

    fn mark_saved(&mut self) {
    }
}

/// A snapshot brings back the board it was taken from, whatever happened to it since.
pub proof fn lemma_mapper037_round_trip(s: Mapper037State, later: Mapper037State, state: MapperState)
    requires
        Mapper037::ok(s),
        Mapper037::ok(later),
        s.inner.same_cart(later.inner),
        Mapper037::captures(s, Some(state)),
    ensures
        Mapper037::after_apply(later, state) == Some(s),
{
    lemma_mmc3_round_trip(s.inner, later.inner, MapperState::Mmc3(state->Mapper037_0.inner));
}

/// The block can be selected only while the chip lets work RAM be written.
pub proof fn lemma_mapper037_latch_gate(s: Mapper037State, addr: u16, data: u8)
    requires
        0x6000 <= addr < 0x8000,
        !s.inner.ram_writable(),
    ensures
        Mapper037::after_cpu_write(s, addr, data) == s,
{
}

/// Each block is confined to its part of the ROMs.
pub proof fn lemma_mapper037_blocks(s: Mapper037State, bank: usize)
    requires
        s.block < 8,
    ensures
        s.block < 3 ==> s.outer_prg(bank) < 8,
        s.block == 3 ==> 8 <= s.outer_prg(bank) < 16,
        4 <= s.block < 7 ==> 16 <= s.outer_prg(bank) < 32,
        s.block == 7 ==> 24 <= s.outer_prg(bank) < 32,
        s.block < 4 ==> s.outer_chr(bank) < 0x80,
        s.block >= 4 ==> 0x80 <= s.outer_chr(bank) < 0x100,
{
    let reg = s.block as usize;
    lemma_mapper037_masks(reg, bank);
}

proof fn lemma_mapper037_masks(reg: usize, bank: usize)
    by (bit_vector)
    requires
        reg < 8,
    ensures
        (reg & 0x03 == 0x03) == (reg == 3 || reg == 7),
        reg < 3 ==> (((reg << 2) & 0x10) | 0usize) | (bank & ((reg << 1) | 0x07)) < 8,
        reg == 3 ==> 8 <= (((reg << 2) & 0x10) | 0x08usize) | (bank & ((reg << 1) | 0x07)) < 16,
        4 <= reg < 7 ==> 16 <= (((reg << 2) & 0x10) | 0usize) | (bank & ((reg << 1) | 0x07)) < 32,
        reg == 7 ==> 24 <= (((reg << 2) & 0x10) | 0x08usize) | (bank & ((reg << 1) | 0x07)) < 32,
        reg < 4 ==> ((reg << 5) & 0x80) | (bank & 0x7F) < 0x80,
        reg >= 4 ==> 0x80 <= ((reg << 5) & 0x80) | (bank & 0x7F) < 0x100,
{
}

} // verus!
