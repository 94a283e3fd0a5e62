//! Sunsoft-2 with mirroring control (iNES mapper 89).
//!
//! One latch at `$8000-$FFFF`, masked by the ROM byte that is mapped when it is written:
//!
//! ```text
//! CPPP MCCC
//! |||| |+++- low bits of the 8 KiB CHR bank
//! |||| +---- single-screen page
//! |+++------ 16 KiB PRG bank at $8000-$BFFF; $C000-$FFFF has the last bank
//! +--------- top bit of the CHR bank
//! ```
use vstd::prelude::*;

use crate::mapper::{Mapper, NametableSource, NametableWriteTarget, PpuFetchKind};
use crate::mem::{
    bank_count, bank_offset, byte_at, chr_image, copy_if_ram, count_banks, has_chr_ram, in_bank,
    poke, poked, ram_copy, ram_restored, read_at, restore_if_ram, take_chr, wrapped_offset,
};
use crate::rom::{Cartridge, Mirroring};
use crate::save_state::mapper::{MapperState, Sunsoft2Snap};
use crate::save_state::{MirroringSnap, SaveStateError};

verus! {

pub struct Sunsoft2 {
    pub prg_rom: Vec<u8>,
    pub chr: Vec<u8>,
    pub chr_ram: bool,
    /// The latch, after the ROM's mask.
    pub reg: u8,
    pub mirroring: Mirroring,
    pub prg_bank_count_16k: usize,
    pub chr_bank_count_8k: usize,
}

/// The state of an [`Sunsoft2`] board.
#[verifier::ext_equal]
pub struct Sunsoft2State {
    pub prg_rom: Seq<u8>,
    pub chr: Seq<u8>,
    pub chr_ram: bool,
    pub reg: u8,
    pub mirroring: Mirroring,
    pub prg_bank_count_16k: usize,
    pub chr_bank_count_8k: usize,
}

impl View for Sunsoft2 {
    type V = Sunsoft2State;

    open spec fn view(&self) -> Sunsoft2State {
        Sunsoft2State {
            prg_rom: self.prg_rom@,
            chr: self.chr@,
            chr_ram: self.chr_ram,
            reg: self.reg,
            mirroring: self.mirroring,
            prg_bank_count_16k: self.prg_bank_count_16k,
            chr_bank_count_8k: self.chr_bank_count_8k,
        }
    }
}

impl Sunsoft2State {
    pub open spec fn power_on(cart: Cartridge) -> Sunsoft2State {
        Sunsoft2State {
            prg_rom: cart.prg_rom@,
            chr: chr_image(cart, 0x2000),
            chr_ram: has_chr_ram(cart),
            reg: 0,
            mirroring: Mirroring::SingleScreenLower,
            prg_bank_count_16k: bank_count(cart.prg_rom@.len(), 0x4000) as usize,
            chr_bank_count_8k: bank_count(chr_image(cart, 0x2000).len(), 0x2000) as usize,
        }
    }

    pub open spec fn prg_index(self, addr: u16) -> int {
        if addr < 0xC000 {
            in_bank(((self.reg >> 4) & 0x07) as int % self.prg_bank_count_16k as int, 0x4000, addr as int)
        } else {
            in_bank(self.prg_bank_count_16k - 1, 0x4000, addr as int)
        }
    }

    pub open spec fn chr_index(self, addr: u16) -> int {
        let bank = ((self.reg & 0x80) >> 4) | (self.reg & 0x07);
        in_bank(bank as int % self.chr_bank_count_8k as int, 0x2000, addr as int)
    }

    /// Whether `snap` was taken in this state.
    pub open spec fn captured(self, snap: Sunsoft2Snap) -> bool {
        &&& snap.chr_ram_data@ == ram_copy(self.chr_ram, self.chr)
        &&& snap.reg == self.reg
        &&& snap.mirroring == MirroringSnap::of(self.mirroring)
    }

    /// The board with what `snap` holds.
    pub open spec fn restored(self, snap: Sunsoft2Snap) -> Sunsoft2State {
        Sunsoft2State {
            chr: ram_restored(self.chr_ram, self.chr, snap.chr_ram_data@),
            reg: snap.reg,
            mirroring: snap.mirroring.live(),
            ..self
        }
    }

    /// Whether `other` is the same cart, at another time.
    pub open spec fn same_cart(self, other: Sunsoft2State) -> bool {
        &&& self.chr_ram ==> other.chr.len() == self.chr.len()
        &&& !self.chr_ram ==> other.chr == self.chr
        &&& other.prg_rom == self.prg_rom
        &&& other.chr_ram == self.chr_ram
        &&& other.prg_bank_count_16k == self.prg_bank_count_16k
        &&& other.chr_bank_count_8k == self.chr_bank_count_8k
    }
}

impl Sunsoft2 {
    pub fn new(cart: Cartridge) -> (m: Self)
        ensures
            Self::ok(m@),
            m@ == Sunsoft2State::power_on(cart),
    {
        let (chr, chr_ram): (Vec<u8>, bool) = take_chr(cart.chr_rom, cart.chr_ram, 0x2000);
        Sunsoft2 {
            prg_bank_count_16k: count_banks(&cart.prg_rom, 0x4000),
            chr_bank_count_8k: count_banks(&chr, 0x2000),
            prg_rom: cart.prg_rom,
            chr,
            chr_ram,
            reg: 0,
            mirroring: Mirroring::SingleScreenLower,
        }
    }

    fn map_prg(&self, addr: u16) -> (i: usize)
        requires
            Self::ok(self@),
        ensures
            i == self@.prg_index(addr),
    {
        if addr < 0xC000 {
            wrapped_offset(&self.prg_rom, self.prg_bank_count_16k, ((self.reg >> 4) & 0x07) as usize, 0x4000, addr)
        } else {
            bank_offset(&self.prg_rom, self.prg_bank_count_16k, self.prg_bank_count_16k - 1, 0x4000, addr)
        }
    }

    fn map_chr(&self, addr: u16) -> (i: usize)
        requires
            Self::ok(self@),
        ensures
            i == self@.chr_index(addr),
    {
        let bank: usize = (((self.reg & 0x80) >> 4) | (self.reg & 0x07)) as usize;
        wrapped_offset(&self.chr, self.chr_bank_count_8k, bank, 0x2000, addr)
    }

    fn cpu_prg_byte(&self, addr: u16) -> (byte: u8)
        requires
            Self::ok(self@),
        ensures
            byte == Self::cpu_byte(self@, addr),
    {
        if addr >= 0x8000 {
            read_at(&self.prg_rom, self.map_prg(addr))
        } else {
            0
        }
    }
}

impl Mapper for Sunsoft2 {
    open spec fn ok(s: Sunsoft2State) -> bool {
        &&& s.prg_bank_count_16k == bank_count(s.prg_rom.len(), 0x4000)
        &&& s.chr_bank_count_8k == bank_count(s.chr.len(), 0x2000)
    }

    open spec fn cpu_byte(s: Sunsoft2State, addr: u16) -> u8 {
        if addr >= 0x8000 {
            byte_at(s.prg_rom, s.prg_index(addr))
        } else {
            0
        }
    }

    open spec fn after_cpu_write(s: Sunsoft2State, addr: u16, data: u8) -> Sunsoft2State {
        if addr >= 0x8000 {
            let latched = data & Self::cpu_byte(s, addr);
            Sunsoft2State {
                reg: latched,
                mirroring: if latched & 0x08 != 0 {
                    Mirroring::SingleScreenUpper
                } else {
                    Mirroring::SingleScreenLower
                },
                ..s
            }
        } else {
            s
        }
    }

    open spec fn ppu_byte(s: Sunsoft2State, addr: u16) -> u8 {
        if addr < 0x2000 {
            byte_at(s.chr, s.chr_index(addr))
        } else {
            0
        }
    }

    open spec fn after_ppu_write(s: Sunsoft2State, addr: u16, data: u8) -> Sunsoft2State {
        if s.chr_ram && addr < 0x2000 {
            Sunsoft2State { chr: poked(s.chr, s.chr_index(addr), data), ..s }
        } else {
            s
        }
    }

    fn cpu_read(&mut self, addr: u16) -> (byte: u8) {
        self.cpu_peek(addr)
    }

    fn cpu_peek(&self, addr: u16) -> (byte: u8) {
        self.cpu_prg_byte(addr)
    }

    fn cpu_write(&mut self, addr: u16, data: u8) {
        if addr < 0x8000 {
            return;
        }
        let effective: u8 = data & self.cpu_prg_byte(addr);
        self.reg = effective;
        self.mirroring = if effective & 0x08 != 0 {
            Mirroring::SingleScreenUpper
        } else {
            Mirroring::SingleScreenLower
        };
    }

    fn ppu_read(&mut self, addr: u16) -> (byte: u8) {
        if addr < 0x2000 {
            read_at(&self.chr, self.map_chr(addr))
        } else {
            0
        }
    }

    fn ppu_write(&mut self, addr: u16, data: u8) {
        if self.chr_ram && addr < 0x2000 {
            let i: usize = self.map_chr(addr);
            poke(&mut self.chr, i, data);
        }
    }

    open spec fn mirrored(s: Sunsoft2State) -> Mirroring {
        s.mirroring
    }

    fn mirroring(&self) -> (mode: Mirroring) {
        self.mirroring
    }

    fn cpu_read_ex(&mut self, addr: u16) -> (byte: Option<u8>) {
        None
    }

    fn on_cpu_cycle(&mut self) {
    }

    fn irq_line(&self) -> (asserted: bool) {
        false
    }

    open spec fn captures(s: Sunsoft2State, state: Option<MapperState>) -> bool {
        match state {
            Some(MapperState::Sunsoft2(snap)) => s.captured(snap),
            _ => false,
        }
    }

    open spec fn after_apply(s: Sunsoft2State, state: MapperState) -> Option<Sunsoft2State> {
        match state {
            MapperState::Sunsoft2(snap) => Some(s.restored(snap)),
            _ => None,
        }
    }

    fn save_state_capture(&self) -> (state: Option<MapperState>) {
        Some(MapperState::Sunsoft2(Sunsoft2Snap {
            chr_ram_data: copy_if_ram(self.chr_ram, &self.chr),
            reg: self.reg,
            mirroring: MirroringSnap::from_live(self.mirroring),
        }))
    }

    fn save_state_apply(&mut self, state: &MapperState) -> (result: Result<(), SaveStateError>) {
        match state {
            MapperState::Sunsoft2(snap) => {
                restore_if_ram(self.chr_ram, &mut self.chr, &snap.chr_ram_data);
                self.reg = snap.reg;
                self.mirroring = snap.mirroring.to_live();
                Ok(())
            }
            _ => Err(SaveStateError::UnsupportedMapper(0)),
        }
    }

    fn ppu_nametable_read(&mut self, slot: u8, offset: u16) -> (source: NametableSource) {
        NametableSource::Default
    }

    fn ppu_nametable_write(&mut self, slot: u8, offset: u16, data: u8) -> (target: NametableWriteTarget) {
        NametableWriteTarget::Default
    }

    fn on_ppu_addr(&mut self, addr: u16, ppu_cycle: u64, kind: PpuFetchKind) {
    }

    fn save_data(&self) -> (bytes: Option<&[u8]>) {
        None
    }

    fn load_save_data(&mut self, data: &[u8]) {
    }

    fn save_dirty(&self) -> (dirty: bool) {
        false
    }

    fn mark_saved(&mut self) {
    }
}

/// A snapshot brings back the board it was taken from, whatever happened to it since.
pub proof fn lemma_sunsoft2_round_trip(
    s: Sunsoft2State,
    later: Sunsoft2State,
    state: MapperState,
)
    requires
        Sunsoft2::ok(s),
        Sunsoft2::ok(later),
        s.same_cart(later),
        Sunsoft2::captures(s, Some(state)),
    ensures
        Sunsoft2::snapshot_ok(later, state),
        Sunsoft2::after_apply(later, state) == Some(s),
{
}

/// No write changes the cart's ROM.
pub proof fn lemma_sunsoft2_rom_is_read_only(s: Sunsoft2State, addr: u16, data: u8)
    ensures
        Sunsoft2::after_cpu_write(s, addr, data).prg_rom == s.prg_rom,
        Sunsoft2::after_ppu_write(s, addr, data).prg_rom == s.prg_rom,
        !s.chr_ram ==> Sunsoft2::after_ppu_write(s, addr, data).chr == s.chr,
{
}

/// No write moves the bank at `$C000-$FFFF`.
pub proof fn lemma_sunsoft2_fixed_bank(s: Sunsoft2State, addr: u16, data: u8, read: u16)
    requires
        Sunsoft2::ok(s),
        read >= 0xC000,
    ensures
        ({
            let after = Sunsoft2::after_cpu_write(s, addr, data);
            Sunsoft2::cpu_byte(after, read) == Sunsoft2::cpu_byte(s, read)
        }),
{
}

/// Pattern RAM gives back what was stored.
pub proof fn lemma_sunsoft2_pattern_ram(s: Sunsoft2State, addr: u16, data: u8)
    requires
        Sunsoft2::ok(s),
        s.chr_ram,
        addr < 0x2000,
        0 <= s.chr_index(addr) < s.chr.len(),
    ensures
        ({
            let after = Sunsoft2::after_ppu_write(s, addr, data);
            Sunsoft2::ppu_byte(after, addr) == data
        }),
{
}

} // verus!
