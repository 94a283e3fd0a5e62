//! AVE NINA-03 / NINA-06 (iNES mapper 79).
//!
//! One register in expansion space, hit by writes with A14 and A8 set and A15 and A13 clear:
//! bit 3 selects a 32 KiB PRG bank, bits 0-2 an 8 KiB CHR bank. Mirroring is soldered.
use vstd::prelude::*;

use crate::mapper::{Mapper, NametableSource, NametableWriteTarget, PpuFetchKind};
use crate::mem::{
    bank_count, byte_at, chr_image, copy_if_ram, count_banks, has_chr_ram, in_bank, poke, poked,
    ram_copy, ram_restored, read_at, restore_if_ram, take_chr, wrapped_offset,
};
use crate::rom::{Cartridge, Mirroring};
use crate::save_state::mapper::{AveNinaSnap, MapperState};
use crate::save_state::{MirroringSnap, SaveStateError};

verus! {

pub struct AveNina {
    pub prg_rom: Vec<u8>,
    pub chr: Vec<u8>,
    pub chr_ram: bool,
    pub mirroring: Mirroring,
    pub prg_bank_count_32k: usize,
    pub chr_bank_count_8k: usize,
    pub reg: u8,
}

/// The state of an [`AveNina`] board.
#[verifier::ext_equal]
pub struct AveNinaState {
    pub prg_rom: Seq<u8>,
    pub chr: Seq<u8>,
    pub chr_ram: bool,
    pub mirroring: Mirroring,
    pub prg_bank_count_32k: usize,
    pub chr_bank_count_8k: usize,
    pub reg: u8,
}

impl View for AveNina {
    type V = AveNinaState;

    open spec fn view(&self) -> AveNinaState {
        AveNinaState {
            prg_rom: self.prg_rom@,
            chr: self.chr@,
            chr_ram: self.chr_ram,
            mirroring: self.mirroring,
            prg_bank_count_32k: self.prg_bank_count_32k,
            chr_bank_count_8k: self.chr_bank_count_8k,
            reg: self.reg,
        }
    }
}

impl AveNinaState {
    pub open spec fn power_on(cart: Cartridge) -> AveNinaState {
        AveNinaState {
            prg_rom: cart.prg_rom@,
            chr: chr_image(cart, 0x2000),
            chr_ram: has_chr_ram(cart),
            mirroring: cart.mirroring,
            prg_bank_count_32k: bank_count(cart.prg_rom@.len(), 0x8000) as usize,
            chr_bank_count_8k: bank_count(chr_image(cart, 0x2000).len(), 0x2000) as usize,
            reg: 0,
        }
    }

    pub open spec fn prg_index(self, addr: u16) -> int {
        in_bank(((self.reg >> 3) & 0x01) as int % self.prg_bank_count_32k as int, 0x8000, addr as int)
    }

    pub open spec fn chr_index(self, addr: u16) -> int {
        in_bank((self.reg & 0x07) as int % self.chr_bank_count_8k as int, 0x2000, addr as int)
    }

    /// Whether `snap` was taken in this state.
    pub open spec fn captured(self, snap: AveNinaSnap) -> bool {
        &&& snap.chr_ram_data@ == ram_copy(self.chr_ram, self.chr)
        &&& snap.mirroring == MirroringSnap::of(self.mirroring)
        &&& snap.reg == self.reg
    }

    /// The board with what `snap` holds.
    pub open spec fn restored(self, snap: AveNinaSnap) -> AveNinaState {
        AveNinaState {
            chr: ram_restored(self.chr_ram, self.chr, snap.chr_ram_data@),
            mirroring: snap.mirroring.live(),
            reg: snap.reg,
            ..self
        }
    }

    /// Whether `other` is the same cart, at another time.
    pub open spec fn same_cart(self, other: AveNinaState) -> bool {
        &&& self.chr_ram ==> other.chr.len() == self.chr.len()
        &&& !self.chr_ram ==> other.chr == self.chr
        &&& other.prg_rom == self.prg_rom
        &&& other.chr_ram == self.chr_ram
        &&& other.prg_bank_count_32k == self.prg_bank_count_32k
        &&& other.chr_bank_count_8k == self.chr_bank_count_8k
    }
}

impl AveNina {
    pub fn new(cart: Cartridge) -> (m: Self)
        ensures
            Self::ok(m@),
            m@ == AveNinaState::power_on(cart),
    {
        let (chr, chr_ram): (Vec<u8>, bool) = take_chr(cart.chr_rom, cart.chr_ram, 0x2000);
        AveNina {
            prg_bank_count_32k: count_banks(&cart.prg_rom, 0x8000),
            chr_bank_count_8k: count_banks(&chr, 0x2000),
            prg_rom: cart.prg_rom,
            chr,
            chr_ram,
            mirroring: cart.mirroring,
            reg: 0,
        }
    }

    fn map_prg(&self, addr: u16) -> (i: usize)
        requires
            Self::ok(self@),
        ensures
            i == self@.prg_index(addr),
    {
        wrapped_offset(&self.prg_rom, self.prg_bank_count_32k, ((self.reg >> 3) & 0x01) as usize, 0x8000, addr)
    }

    fn map_chr(&self, addr: u16) -> (i: usize)
        requires
            Self::ok(self@),
        ensures
            i == self@.chr_index(addr),
    {
        wrapped_offset(&self.chr, self.chr_bank_count_8k, (self.reg & 0x07) as usize, 0x2000, addr)
    }
}

impl Mapper for AveNina {
    open spec fn ok(s: AveNinaState) -> bool {
        &&& s.prg_bank_count_32k == bank_count(s.prg_rom.len(), 0x8000)
        &&& s.chr_bank_count_8k == bank_count(s.chr.len(), 0x2000)
    }

    open spec fn cpu_byte(s: AveNinaState, addr: u16) -> u8 {
        if addr >= 0x8000 {
            byte_at(s.prg_rom, s.prg_index(addr))
        } else {
            0
        }
    }

    open spec fn after_cpu_write(s: AveNinaState, addr: u16, data: u8) -> AveNinaState {
        if addr & 0xE100 == 0x4100 {
            AveNinaState { reg: data, ..s }
        } else {
            s
        }
    }

    open spec fn ppu_byte(s: AveNinaState, addr: u16) -> u8 {
        if addr < 0x2000 {
            byte_at(s.chr, s.chr_index(addr))
        } else {
            0
        }
    }

    open spec fn after_ppu_write(s: AveNinaState, addr: u16, data: u8) -> AveNinaState {
        if s.chr_ram && addr < 0x2000 {
            AveNinaState { chr: poked(s.chr, s.chr_index(addr), data), ..s }
        } else {
            s
        }
    }

    fn cpu_read(&mut self, addr: u16) -> (byte: u8) {
        self.cpu_peek(addr)
    }

    fn cpu_peek(&self, addr: u16) -> (byte: u8) {
        if addr >= 0x8000 {
            read_at(&self.prg_rom, self.map_prg(addr))
        } else {
            0
        }
    }

    fn cpu_write(&mut self, addr: u16, data: u8) {
        if (addr & 0xE100) == 0x4100 {
            self.reg = data;
        }
    }

    fn ppu_read(&mut self, addr: u16) -> (byte: u8) {
        if addr < 0x2000 {
            read_at(&self.chr, self.map_chr(addr))
        } else {
            0
        }
    }

    fn ppu_write(&mut self, addr: u16, data: u8) {
        if self.chr_ram && addr < 0x2000 {
            let i: usize = self.map_chr(addr);
            poke(&mut self.chr, i, data);
        }
    }

    open spec fn mirrored(s: AveNinaState) -> Mirroring {
        s.mirroring
    }

    fn mirroring(&self) -> (mode: Mirroring) {
        self.mirroring
    }

    fn cpu_read_ex(&mut self, addr: u16) -> (byte: Option<u8>) {
        None
    }

    fn on_cpu_cycle(&mut self) {
    }

    fn irq_line(&self) -> (asserted: bool) {
        false
    }

    open spec fn captures(s: AveNinaState, state: Option<MapperState>) -> bool {
        match state {
            Some(MapperState::AveNina(snap)) => s.captured(snap),
            _ => false,
        }
    }

    open spec fn after_apply(s: AveNinaState, state: MapperState) -> Option<AveNinaState> {
        match state {
            MapperState::AveNina(snap) => Some(s.restored(snap)),
            _ => None,
        }
    }

    fn save_state_capture(&self) -> (state: Option<MapperState>) {
        Some(MapperState::AveNina(AveNinaSnap {
            chr_ram_data: copy_if_ram(self.chr_ram, &self.chr),
            mirroring: MirroringSnap::from_live(self.mirroring),
            reg: self.reg,
        }))
    }

    fn save_state_apply(&mut self, state: &MapperState) -> (result: Result<(), SaveStateError>) {
        match state {
            MapperState::AveNina(snap) => {
                restore_if_ram(self.chr_ram, &mut self.chr, &snap.chr_ram_data);
                self.mirroring = snap.mirroring.to_live();
                self.reg = snap.reg;
                Ok(())
            }
            _ => Err(SaveStateError::UnsupportedMapper(0)),
        }
    }

    fn ppu_nametable_read(&mut self, slot: u8, offset: u16) -> (source: NametableSource) {
        NametableSource::Default
    }

    fn ppu_nametable_write(&mut self, slot: u8, offset: u16, data: u8) -> (target: NametableWriteTarget) {
        NametableWriteTarget::Default
    }

    fn on_ppu_addr(&mut self, addr: u16, ppu_cycle: u64, kind: PpuFetchKind) {
    }

    fn save_data(&self) -> (bytes: Option<&[u8]>) {
        None
    }

    fn load_save_data(&mut self, data: &[u8]) {
    }

    fn save_dirty(&self) -> (dirty: bool) {
        false
    }

    fn mark_saved(&mut self) {
    }
}

/// A snapshot brings back the board it was taken from, whatever happened to it since.
pub proof fn lemma_ave_nina_round_trip(
    s: AveNinaState,
    later: AveNinaState,
    state: MapperState,
)
    requires
        AveNina::ok(s),
        AveNina::ok(later),
        s.same_cart(later),
        AveNina::captures(s, Some(state)),
    ensures
        AveNina::snapshot_ok(later, state),
        AveNina::after_apply(later, state) == Some(s),
{
}

/// No write changes the mirroring.
pub proof fn lemma_ave_nina_mirroring_is_fixed(s: AveNinaState, addr: u16, data: u8)
    ensures
        ({
            let written = AveNina::after_cpu_write(s, addr, data);
            let drawn = AveNina::after_ppu_write(s, addr, data);
            AveNina::mirrored(written) == AveNina::mirrored(s) && AveNina::mirrored(drawn) == AveNina::mirrored(s)
        }),
{
}

/// No write changes the cart's ROM.
pub proof fn lemma_ave_nina_rom_is_read_only(s: AveNinaState, addr: u16, data: u8)
    ensures
        AveNina::after_cpu_write(s, addr, data).prg_rom == s.prg_rom,
        AveNina::after_ppu_write(s, addr, data).prg_rom == s.prg_rom,
        !s.chr_ram ==> AveNina::after_ppu_write(s, addr, data).chr == s.chr,
{
}

/// Pattern RAM gives back what was stored.
pub proof fn lemma_ave_nina_pattern_ram(s: AveNinaState, addr: u16, data: u8)
    requires
        AveNina::ok(s),
        s.chr_ram,
        addr < 0x2000,
        0 <= s.chr_index(addr) < s.chr.len(),
    ensures
        ({
            let after = AveNina::after_ppu_write(s, addr, data);
            AveNina::ppu_byte(after, addr) == data
        }),
{
}

} // verus!
