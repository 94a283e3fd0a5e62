//! Bandai 74161/7432 (iNES mappers 70 and 152).
//!
//! One latch at `$8000-$FFFF`, masked by the ROM byte under the write:
//!
//! ```text
//! MPPP CCCC
//! |||| ++++- 8 KiB CHR bank
//! |+++------ 16 KiB PRG bank at $8000-$BFFF; $C000-$FFFF has the last bank
//! +--------- single-screen page, on boards that control mirroring
//! ```
//!
//! Mapper 152 controls mirroring from the start. Mapper 70 takes it from the header until a
//! program writes bit 7 set, and controls it from then on.
use vstd::prelude::*;

use crate::mapper::{Mapper, NametableSource, NametableWriteTarget, PpuFetchKind};
use crate::mem::{
    bank_count, bank_offset, byte_at, chr_image, copy_if_ram, count_banks, has_chr_ram, in_bank,
    poke, poked, ram_copy, ram_restored, read_at, restore_if_ram, take_chr, wrapped_offset,
};
use crate::rom::{Cartridge, Mirroring};
use crate::save_state::mapper::{Bandai74161Snap, MapperState};
use crate::save_state::{MirroringSnap, SaveStateError};

verus! {

pub struct Bandai74161 {
    pub prg_rom: Vec<u8>,
    pub chr: Vec<u8>,
    pub chr_ram: bool,
    /// The latch, after the ROM's mask.
    pub reg: u8,
    pub mirroring_control: bool,
    pub mirroring: Mirroring,
    pub prg_bank_count_16k: usize,
    pub chr_bank_count_8k: usize,
}

/// The state of an [`Bandai74161`] board.
#[verifier::ext_equal]
pub struct Bandai74161State {
    pub prg_rom: Seq<u8>,
    pub chr: Seq<u8>,
    pub chr_ram: bool,
    pub reg: u8,
    pub mirroring_control: bool,
    pub mirroring: Mirroring,
    pub prg_bank_count_16k: usize,
    pub chr_bank_count_8k: usize,
}

impl View for Bandai74161 {
    type V = Bandai74161State;

    open spec fn view(&self) -> Bandai74161State {
        Bandai74161State {
            prg_rom: self.prg_rom@,
            chr: self.chr@,
            chr_ram: self.chr_ram,
            reg: self.reg,
            mirroring_control: self.mirroring_control,
            mirroring: self.mirroring,
            prg_bank_count_16k: self.prg_bank_count_16k,
            chr_bank_count_8k: self.chr_bank_count_8k,
        }
    }
}

impl Bandai74161State {
    pub open spec fn power_on(cart: Cartridge, mirroring_control: bool) -> Bandai74161State {
        Bandai74161State {
            prg_rom: cart.prg_rom@,
            chr: chr_image(cart, 0x2000),
            chr_ram: has_chr_ram(cart),
            reg: 0,
            mirroring_control,
            mirroring: if mirroring_control { Mirroring::SingleScreenLower } else { cart.mirroring },
            prg_bank_count_16k: bank_count(cart.prg_rom@.len(), 0x4000) as usize,
            chr_bank_count_8k: bank_count(chr_image(cart, 0x2000).len(), 0x2000) as usize,
        }
    }

    pub open spec fn prg_index(self, addr: u16) -> int {
        if addr < 0xC000 {
            in_bank(((self.reg >> 4) & 0x07) as int % self.prg_bank_count_16k as int, 0x4000, addr as int)
        } else {
            in_bank(self.prg_bank_count_16k - 1, 0x4000, addr as int)
        }
    }

    pub open spec fn chr_index(self, addr: u16) -> int {
        in_bank((self.reg & 0x0F) as int % self.chr_bank_count_8k as int, 0x2000, addr as int)
    }

    /// Whether `snap` was taken in this state.
    pub open spec fn captured(self, snap: Bandai74161Snap) -> bool {
        &&& snap.chr_ram_data@ == ram_copy(self.chr_ram, self.chr)
        &&& snap.reg == self.reg
        &&& snap.mirroring_control == self.mirroring_control
        &&& snap.mirroring == MirroringSnap::of(self.mirroring)
    }

    /// The board with what `snap` holds.
    pub open spec fn restored(self, snap: Bandai74161Snap) -> Bandai74161State {
        Bandai74161State {
            chr: ram_restored(self.chr_ram, self.chr, snap.chr_ram_data@),
            reg: snap.reg,
            mirroring_control: snap.mirroring_control,
            mirroring: snap.mirroring.live(),
            ..self
        }
    }

    /// Whether `other` is the same cart, at another time.
    pub open spec fn same_cart(self, other: Bandai74161State) -> bool {
        &&& self.chr_ram ==> other.chr.len() == self.chr.len()
        &&& !self.chr_ram ==> other.chr == self.chr
        &&& other.prg_rom == self.prg_rom
        &&& other.chr_ram == self.chr_ram
        &&& other.prg_bank_count_16k == self.prg_bank_count_16k
        &&& other.chr_bank_count_8k == self.chr_bank_count_8k
    }
}

impl Bandai74161 {
    /// Mapper 70.
    pub fn new_70(cart: Cartridge) -> (m: Self)
        ensures
            Self::ok(m@),
            m@ == Bandai74161State::power_on(cart, false),
    {
        Bandai74161::new(cart, false)
    }

    /// Mapper 152.
    pub fn new_152(cart: Cartridge) -> (m: Self)
        ensures
            Self::ok(m@),
            m@ == Bandai74161State::power_on(cart, true),
    {
        Bandai74161::new(cart, true)
    }

    fn new(cart: Cartridge, mirroring_control: bool) -> (m: Self)
        ensures
            Self::ok(m@),
            m@ == Bandai74161State::power_on(cart, mirroring_control),
    {
        let (chr, chr_ram): (Vec<u8>, bool) = take_chr(cart.chr_rom, cart.chr_ram, 0x2000);
        Bandai74161 {
            prg_bank_count_16k: count_banks(&cart.prg_rom, 0x4000),
            chr_bank_count_8k: count_banks(&chr, 0x2000),
            prg_rom: cart.prg_rom,
            chr,
            chr_ram,
            reg: 0,
            mirroring_control,
            mirroring: if mirroring_control { Mirroring::SingleScreenLower } else { cart.mirroring },
        }
    }

    fn cpu_prg_byte(&self, addr: u16) -> (byte: u8)
        requires
            Self::ok(self@),
        ensures
            byte == Self::cpu_byte(self@, addr),
    {
        match addr {
            0x8000..=0xBFFF => {
                let bank: usize = ((self.reg >> 4) & 0x07) as usize;
                read_at(&self.prg_rom, wrapped_offset(&self.prg_rom, self.prg_bank_count_16k, bank, 0x4000, addr))
            }
            0xC000..=0xFFFF => {
                let last: usize = self.prg_bank_count_16k - 1;
                read_at(&self.prg_rom, bank_offset(&self.prg_rom, self.prg_bank_count_16k, last, 0x4000, addr))
            }
            _ => 0,
        }
    }

    fn map_chr(&self, addr: u16) -> (i: usize)
        requires
            Self::ok(self@),
        ensures
            i == self@.chr_index(addr),
    {
        wrapped_offset(&self.chr, self.chr_bank_count_8k, (self.reg & 0x0F) as usize, 0x2000, addr)
    }
}

impl Mapper for Bandai74161 {
    open spec fn ok(s: Bandai74161State) -> bool {
        &&& s.prg_bank_count_16k == bank_count(s.prg_rom.len(), 0x4000)
        &&& s.chr_bank_count_8k == bank_count(s.chr.len(), 0x2000)
    }

    open spec fn cpu_byte(s: Bandai74161State, addr: u16) -> u8 {
        if addr >= 0x8000 {
            byte_at(s.prg_rom, s.prg_index(addr))
        } else {
            0
        }
    }

    open spec fn after_cpu_write(s: Bandai74161State, addr: u16, data: u8) -> Bandai74161State {
        if addr >= 0x8000 {
            let latched = data & Self::cpu_byte(s, addr);
            let control = s.mirroring_control || data & 0x80 != 0;
            Bandai74161State {
                reg: latched,
                mirroring_control: control,
                mirroring: if !control {
                    s.mirroring
                } else if latched & 0x80 != 0 {
                    Mirroring::SingleScreenUpper
                } else {
                    Mirroring::SingleScreenLower
                },
                ..s
            }
        } else {
            s
        }
    }

    open spec fn ppu_byte(s: Bandai74161State, addr: u16) -> u8 {
        if addr < 0x2000 {
            byte_at(s.chr, s.chr_index(addr))
        } else {
            0
        }
    }

    open spec fn after_ppu_write(s: Bandai74161State, addr: u16, data: u8) -> Bandai74161State {
        if s.chr_ram && addr < 0x2000 {
            Bandai74161State { chr: poked(s.chr, s.chr_index(addr), data), ..s }
        } else {
            s
        }
    }

    fn cpu_read(&mut self, addr: u16) -> (byte: u8) {
        self.cpu_peek(addr)
    }

    fn cpu_peek(&self, addr: u16) -> (byte: u8) {
        self.cpu_prg_byte(addr)
    }

    fn cpu_write(&mut self, addr: u16, data: u8) {
        if addr < 0x8000 {
            return;
        }
        let effective: u8 = data & self.cpu_prg_byte(addr);
        if !self.mirroring_control && (data & 0x80) != 0 {
            self.mirroring_control = true;
        }
        self.reg = effective;
        if self.mirroring_control {
            self.mirroring = if effective & 0x80 != 0 {
                Mirroring::SingleScreenUpper
            } else {
                Mirroring::SingleScreenLower
            };
        }
    }

    fn ppu_read(&mut self, addr: u16) -> (byte: u8) {
        if addr < 0x2000 {
            read_at(&self.chr, self.map_chr(addr))
        } else {
            0
        }
    }

    fn ppu_write(&mut self, addr: u16, data: u8) {
        if self.chr_ram && addr < 0x2000 {
            let i: usize = self.map_chr(addr);
            poke(&mut self.chr, i, data);
        }
    }

    open spec fn mirrored(s: Bandai74161State) -> Mirroring {
        s.mirroring
    }

    fn mirroring(&self) -> (mode: Mirroring) {
        self.mirroring
    }

    fn cpu_read_ex(&mut self, addr: u16) -> (byte: Option<u8>) {
        None
    }

    fn on_cpu_cycle(&mut self) {
    }

    fn irq_line(&self) -> (asserted: bool) {
        false
    }

    open spec fn captures(s: Bandai74161State, state: Option<MapperState>) -> bool {
        match state {
            Some(MapperState::Bandai74161(snap)) => s.captured(snap),
            _ => false,
        }
    }

    open spec fn after_apply(s: Bandai74161State, state: MapperState) -> Option<Bandai74161State> {
        match state {
            MapperState::Bandai74161(snap) => Some(s.restored(snap)),
            _ => None,
        }
    }

    fn save_state_capture(&self) -> (state: Option<MapperState>) {
        Some(MapperState::Bandai74161(Bandai74161Snap {
            chr_ram_data: copy_if_ram(self.chr_ram, &self.chr),
            reg: self.reg,
            mirroring_control: self.mirroring_control,
            mirroring: MirroringSnap::from_live(self.mirroring),
        }))
    }

    fn save_state_apply(&mut self, state: &MapperState) -> (result: Result<(), SaveStateError>) {
        match state {
            MapperState::Bandai74161(snap) => {
                restore_if_ram(self.chr_ram, &mut self.chr, &snap.chr_ram_data);
                self.reg = snap.reg;
                self.mirroring_control = snap.mirroring_control;
                self.mirroring = snap.mirroring.to_live();
                Ok(())
            }
            _ => Err(SaveStateError::UnsupportedMapper(0)),
        }
    }

    fn ppu_nametable_read(&mut self, slot: u8, offset: u16) -> (source: NametableSource) {
        NametableSource::Default
    }

    fn ppu_nametable_write(&mut self, slot: u8, offset: u16, data: u8) -> (target: NametableWriteTarget) {
        NametableWriteTarget::Default
    }

    fn on_ppu_addr(&mut self, addr: u16, ppu_cycle: u64, kind: PpuFetchKind) {
    }

    fn save_data(&self) -> (bytes: Option<&[u8]>) {
        None
    }

    fn load_save_data(&mut self, data: &[u8]) {
    }

    fn save_dirty(&self) -> (dirty: bool) {
        false
    }

    fn mark_saved(&mut self) {
    }
}

/// A snapshot brings back the board it was taken from, whatever happened to it since.
pub proof fn lemma_bandai74161_round_trip(
    s: Bandai74161State,
    later: Bandai74161State,
    state: MapperState,
)
    requires
        Bandai74161::ok(s),
        Bandai74161::ok(later),
        s.same_cart(later),
        Bandai74161::captures(s, Some(state)),
    ensures
        Bandai74161::snapshot_ok(later, state),
        Bandai74161::after_apply(later, state) == Some(s),
{
}

/// No write changes the cart's ROM.
pub proof fn lemma_bandai74161_rom_is_read_only(s: Bandai74161State, addr: u16, data: u8)
    ensures
        Bandai74161::after_cpu_write(s, addr, data).prg_rom == s.prg_rom,
        Bandai74161::after_ppu_write(s, addr, data).prg_rom == s.prg_rom,
        !s.chr_ram ==> Bandai74161::after_ppu_write(s, addr, data).chr == s.chr,
{
}

/// No write moves the bank at `$C000-$FFFF`.
pub proof fn lemma_bandai74161_fixed_bank(s: Bandai74161State, addr: u16, data: u8, read: u16)
    requires
        Bandai74161::ok(s),
        read >= 0xC000,
    ensures
        ({
            let after = Bandai74161::after_cpu_write(s, addr, data);
            Bandai74161::cpu_byte(after, read) == Bandai74161::cpu_byte(s, read)
        }),
{
}

/// Pattern RAM gives back what was stored.
pub proof fn lemma_bandai74161_pattern_ram(s: Bandai74161State, addr: u16, data: u8)
    requires
        Bandai74161::ok(s),
        s.chr_ram,
        addr < 0x2000,
        0 <= s.chr_index(addr) < s.chr.len(),
    ensures
        ({
            let after = Bandai74161::after_ppu_write(s, addr, data);
            Bandai74161::ppu_byte(after, addr) == data
        }),
{
}

/// A board that controls mirroring never stops doing so.
pub proof fn lemma_mirroring_control_stays(s: Bandai74161State, addr: u16, data: u8)
    requires
        s.mirroring_control,
    ensures
        Bandai74161::after_cpu_write(s, addr, data).mirroring_control,
{
}

} // verus!
