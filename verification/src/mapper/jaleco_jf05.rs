//! Jaleco JF-05 and its relatives (iNES mapper 87).
//!
//! PRG-ROM and mirroring are fixed. One register at `$6000-$7FFF` selects the 8 KiB CHR bank by its
//! two low bits, which the board crosses: writing 1 selects bank 2 and writing 2 bank 1.
use vstd::prelude::*;

use crate::mapper::{Mapper, NametableSource, NametableWriteTarget, PpuFetchKind};
use crate::mem::{bank_count, byte_at, count_banks, in_bank, read_at, wrapped_offset, zeroed, zeros};
use crate::rom::{Cartridge, Mirroring};
use crate::save_state::mapper::{JalecoJf05Snap, MapperState};
use crate::save_state::SaveStateError;

verus! {

pub struct JalecoJf05 {
    pub prg_rom: Vec<u8>,
    pub chr_rom: Vec<u8>,
    pub reg: u8,
    pub mirroring: Mirroring,
    pub chr_bank_count_8k: usize,
    pub prg_len: usize,
}

/// The state of an [`JalecoJf05`] board.
#[verifier::ext_equal]
pub struct JalecoJf05State {
    pub prg_rom: Seq<u8>,
    pub chr_rom: Seq<u8>,
    pub reg: u8,
    pub mirroring: Mirroring,
    pub chr_bank_count_8k: usize,
    pub prg_len: usize,
}

impl View for JalecoJf05 {
    type V = JalecoJf05State;

    open spec fn view(&self) -> JalecoJf05State {
        JalecoJf05State {
            prg_rom: self.prg_rom@,
            chr_rom: self.chr_rom@,
            reg: self.reg,
            mirroring: self.mirroring,
            chr_bank_count_8k: self.chr_bank_count_8k,
            prg_len: self.prg_len,
        }
    }
}

impl JalecoJf05State {
    pub open spec fn power_on(cart: Cartridge) -> JalecoJf05State {
        let chr_rom = if cart.chr_rom@.len() == 0 {
            zeros(0x2000)
        } else {
            cart.chr_rom@
        };
        JalecoJf05State {
            prg_rom: cart.prg_rom@,
            chr_rom,
            reg: 0,
            mirroring: cart.mirroring,
            chr_bank_count_8k: bank_count(chr_rom.len(), 0x2000) as usize,
            prg_len: cart.prg_rom@.len() as usize,
        }
    }

    /// The two low bits of the register, crossed.
    pub open spec fn crossed(self) -> int {
        self.reg as int % 2 * 2 + self.reg as int / 2 % 2
    }

    pub open spec fn chr_index(self, addr: u16) -> int {
        in_bank(self.crossed() % self.chr_bank_count_8k as int, 0x2000, addr as int)
    }

    /// Whether `snap` was taken in this state.
    pub open spec fn captured(self, snap: JalecoJf05Snap) -> bool {
        &&& snap.reg == self.reg
    }

    /// The board with what `snap` holds.
    pub open spec fn restored(self, snap: JalecoJf05Snap) -> JalecoJf05State {
        JalecoJf05State {
            reg: snap.reg,
            ..self
        }
    }

    /// Whether `other` is the same cart, at another time.
    pub open spec fn same_cart(self, other: JalecoJf05State) -> bool {
        &&& other.prg_rom == self.prg_rom
        &&& other.chr_rom == self.chr_rom
        &&& other.mirroring == self.mirroring
        &&& other.chr_bank_count_8k == self.chr_bank_count_8k
        &&& other.prg_len == self.prg_len
    }
}

impl JalecoJf05 {
    pub fn new(cart: Cartridge) -> (m: Self)
        ensures
            Self::ok(m@),
            m@ == JalecoJf05State::power_on(cart),
    {
        let chr_rom: Vec<u8> = if cart.chr_rom.len() == 0 { zeroed(0x2000) } else { cart.chr_rom };
        JalecoJf05 {
            prg_len: cart.prg_rom.len(),
            chr_bank_count_8k: count_banks(&chr_rom, 0x2000),
            prg_rom: cart.prg_rom,
            chr_rom,
            reg: 0,
            mirroring: cart.mirroring,
        }
    }

    fn map_chr(&self, addr: u16) -> (i: usize)
        requires
            Self::ok(self@),
        ensures
            i == self@.chr_index(addr),
    {
        let swapped: usize = self.reg as usize % 2 * 2 + self.reg as usize / 2 % 2;
        wrapped_offset(&self.chr_rom, self.chr_bank_count_8k, swapped, 0x2000, addr)
    }
}

impl Mapper for JalecoJf05 {
    open spec fn ok(s: JalecoJf05State) -> bool {
        &&& s.prg_len == s.prg_rom.len()
        &&& s.chr_bank_count_8k == bank_count(s.chr_rom.len(), 0x2000)
    }

    /// The ROM fills the window, repeated where it is smaller.
    open spec fn cpu_byte(s: JalecoJf05State, addr: u16) -> u8 {
        if addr >= 0x8000 && s.prg_len > 0 {
            s.prg_rom[(addr - 0x8000) % s.prg_len as int]
        } else {
            0
        }
    }

    open spec fn after_cpu_write(s: JalecoJf05State, addr: u16, data: u8) -> JalecoJf05State {
        if 0x6000 <= addr < 0x8000 {
            JalecoJf05State { reg: data, ..s }
        } else {
            s
        }
    }

    open spec fn ppu_byte(s: JalecoJf05State, addr: u16) -> u8 {
        if addr < 0x2000 {
            byte_at(s.chr_rom, s.chr_index(addr))
        } else {
            0
        }
    }

    open spec fn after_ppu_write(s: JalecoJf05State, addr: u16, data: u8) -> JalecoJf05State {
        s
    }

    fn cpu_read(&mut self, addr: u16) -> (byte: u8) {
        self.cpu_peek(addr)
    }

    fn cpu_peek(&self, addr: u16) -> (byte: u8) {
        if addr >= 0x8000 && self.prg_len > 0 {
            self.prg_rom[(addr - 0x8000) as usize % self.prg_len]
        } else {
            0
        }
    }

    fn cpu_write(&mut self, addr: u16, data: u8) {
        if 0x6000 <= addr && addr <= 0x7FFF {
            self.reg = data;
        }
    }

    fn ppu_read(&mut self, addr: u16) -> (byte: u8) {
        if addr < 0x2000 {
            read_at(&self.chr_rom, self.map_chr(addr))
        } else {
            0
        }
    }

    fn ppu_write(&mut self, addr: u16, data: u8) {
    }

    open spec fn mirrored(s: JalecoJf05State) -> Mirroring {
        s.mirroring
    }

    fn mirroring(&self) -> (mode: Mirroring) {
        self.mirroring
    }

    fn cpu_read_ex(&mut self, addr: u16) -> (byte: Option<u8>) {
        None
    }

    fn on_cpu_cycle(&mut self) {
    }

    fn irq_line(&self) -> (asserted: bool) {
        false
    }

    open spec fn captures(s: JalecoJf05State, state: Option<MapperState>) -> bool {
        match state {
            Some(MapperState::JalecoJf05(snap)) => s.captured(snap),
            _ => false,
        }
    }

    open spec fn after_apply(s: JalecoJf05State, state: MapperState) -> Option<JalecoJf05State> {
        match state {
            MapperState::JalecoJf05(snap) => Some(s.restored(snap)),
            _ => None,
        }
    }

    fn save_state_capture(&self) -> (state: Option<MapperState>) {
        Some(MapperState::JalecoJf05(JalecoJf05Snap {
            reg: self.reg,
        }))
    }

    fn save_state_apply(&mut self, state: &MapperState) -> (result: Result<(), SaveStateError>) {
        match state {
            MapperState::JalecoJf05(snap) => {
                self.reg = snap.reg;
                Ok(())
            }
            _ => Err(SaveStateError::UnsupportedMapper(0)),
        }
    }

    fn ppu_nametable_read(&mut self, slot: u8, offset: u16) -> (source: NametableSource) {
        NametableSource::Default
    }

    fn ppu_nametable_write(&mut self, slot: u8, offset: u16, data: u8) -> (target: NametableWriteTarget) {
        NametableWriteTarget::Default
    }

    fn on_ppu_addr(&mut self, addr: u16, ppu_cycle: u64, kind: PpuFetchKind) {
    }

    fn save_data(&self) -> (bytes: Option<&[u8]>) {
        None
    }

    fn load_save_data(&mut self, data: &[u8]) {
    }

    fn save_dirty(&self) -> (dirty: bool) {
        false
    }

    fn mark_saved(&mut self) {
    }
}

/// A snapshot brings back the board it was taken from, whatever happened to it since.
pub proof fn lemma_jaleco_jf05_round_trip(
    s: JalecoJf05State,
    later: JalecoJf05State,
    state: MapperState,
)
    requires
        JalecoJf05::ok(s),
        JalecoJf05::ok(later),
        s.same_cart(later),
        JalecoJf05::captures(s, Some(state)),
    ensures
        JalecoJf05::snapshot_ok(later, state),
        JalecoJf05::after_apply(later, state) == Some(s),
{
}

/// No write changes the mirroring.
pub proof fn lemma_jaleco_jf05_mirroring_is_fixed(s: JalecoJf05State, addr: u16, data: u8)
    ensures
        ({
            let written = JalecoJf05::after_cpu_write(s, addr, data);
            let drawn = JalecoJf05::after_ppu_write(s, addr, data);
            JalecoJf05::mirrored(written) == JalecoJf05::mirrored(s) && JalecoJf05::mirrored(drawn) == JalecoJf05::mirrored(s)
        }),
{
}

/// No write changes the cart's ROM.
pub proof fn lemma_jaleco_jf05_rom_is_read_only(s: JalecoJf05State, addr: u16, data: u8)
    ensures
        JalecoJf05::after_cpu_write(s, addr, data).prg_rom == s.prg_rom,
        JalecoJf05::after_ppu_write(s, addr, data).prg_rom == s.prg_rom,
        JalecoJf05::after_ppu_write(s, addr, data).chr_rom == s.chr_rom,
{
}

/// No write moves the bank at `$8000-$FFFF`.
pub proof fn lemma_jaleco_jf05_fixed_bank(s: JalecoJf05State, addr: u16, data: u8, read: u16)
    requires
        JalecoJf05::ok(s),
        read >= 0x8000,
    ensures
        ({
            let after = JalecoJf05::after_cpu_write(s, addr, data);
            JalecoJf05::cpu_byte(after, read) == JalecoJf05::cpu_byte(s, read)
        }),
{
}

} // verus!
