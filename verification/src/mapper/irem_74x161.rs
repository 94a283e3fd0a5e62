//! Irem 74161 and Jaleco JF-16 (iNES mapper 78).
//!
//! One latch at `$8000-$FFFF`, masked by the ROM byte under the write:
//!
//! ```text
//! CCCC MPPP
//! |||| |+++- 16 KiB PRG bank at $8000-$BFFF; $C000-$FFFF has the last bank
//! |||| +---- mirroring
//! ++++------ 8 KiB CHR bank
//! ```
//!
//! The mirroring bit is wired in two ways: submapper 3 switches between horizontal and vertical,
//! any other picks a single-screen page.
use vstd::prelude::*;

use crate::mapper::{Mapper, NametableSource, NametableWriteTarget, PpuFetchKind};
use crate::mem::{
    bank_count, bank_offset, byte_at, chr_image, copy_if_ram, count_banks, has_chr_ram, in_bank,
    poke, poked, ram_copy, ram_restored, read_at, restore_if_ram, take_chr, wrapped_offset,
};
use crate::rom::{Cartridge, Mirroring};
use crate::save_state::mapper::{Irem74x161Snap, MapperState};
use crate::save_state::{MirroringSnap, SaveStateError};

verus! {

#[derive(Debug, Clone, Copy, PartialEq, Eq, Structural)]
pub enum MirrorMode {
    SingleScreen,
    HorizontalVertical,
}

pub struct Irem74x161 {
    pub prg_rom: Vec<u8>,
    pub chr: Vec<u8>,
    pub chr_ram: bool,
    /// The latch, after the ROM's mask.
    pub reg: u8,
    pub mirror_mode: MirrorMode,
    pub mirroring: Mirroring,
    pub prg_bank_count_16k: usize,
    pub chr_bank_count_8k: usize,
}

/// The state of an [`Irem74x161`] board.
#[verifier::ext_equal]
pub struct Irem74x161State {
    pub prg_rom: Seq<u8>,
    pub chr: Seq<u8>,
    pub chr_ram: bool,
    pub reg: u8,
    pub mirror_mode: MirrorMode,
    pub mirroring: Mirroring,
    pub prg_bank_count_16k: usize,
    pub chr_bank_count_8k: usize,
}

impl View for Irem74x161 {
    type V = Irem74x161State;

    open spec fn view(&self) -> Irem74x161State {
        Irem74x161State {
            prg_rom: self.prg_rom@,
            chr: self.chr@,
            chr_ram: self.chr_ram,
            reg: self.reg,
            mirror_mode: self.mirror_mode,
            mirroring: self.mirroring,
            prg_bank_count_16k: self.prg_bank_count_16k,
            chr_bank_count_8k: self.chr_bank_count_8k,
        }
    }
}

/// The mirroring that a latched value selects.
pub open spec fn mirroring_of(mode: MirrorMode, latched: u8) -> Mirroring {
    match mode {
        MirrorMode::SingleScreen => if latched & 0x08 != 0 {
            Mirroring::SingleScreenUpper
        } else {
            Mirroring::SingleScreenLower
        },
        MirrorMode::HorizontalVertical => if latched & 0x08 != 0 {
            Mirroring::Vertical
        } else {
            Mirroring::Horizontal
        },
    }
}

impl Irem74x161State {
    pub open spec fn power_on(cart: Cartridge) -> Irem74x161State {
        let mode = if cart.submapper == 3 {
            MirrorMode::HorizontalVertical
        } else {
            MirrorMode::SingleScreen
        };
        Irem74x161State {
            prg_rom: cart.prg_rom@,
            chr: chr_image(cart, 0x2000),
            chr_ram: has_chr_ram(cart),
            reg: 0,
            mirror_mode: mode,
            mirroring: match mode {
                MirrorMode::SingleScreen => Mirroring::SingleScreenLower,
                MirrorMode::HorizontalVertical => Mirroring::Horizontal,
            },
            prg_bank_count_16k: bank_count(cart.prg_rom@.len(), 0x4000) as usize,
            chr_bank_count_8k: bank_count(chr_image(cart, 0x2000).len(), 0x2000) as usize,
        }
    }

    pub open spec fn is_holy_diver(self) -> bool {
        self.mirror_mode == MirrorMode::HorizontalVertical
    }

    pub open spec fn prg_index(self, addr: u16) -> int {
        if addr < 0xC000 {
            in_bank((self.reg & 0x07) as int % self.prg_bank_count_16k as int, 0x4000, addr as int)
        } else {
            in_bank(self.prg_bank_count_16k - 1, 0x4000, addr as int)
        }
    }

    pub open spec fn chr_index(self, addr: u16) -> int {
        in_bank(((self.reg >> 4) & 0x0F) as int % self.chr_bank_count_8k as int, 0x2000, addr as int)
    }

    /// Whether `snap` was taken in this state.
    pub open spec fn captured(self, snap: Irem74x161Snap) -> bool {
        &&& snap.chr_ram_data@ == ram_copy(self.chr_ram, self.chr)
        &&& snap.reg == self.reg
        &&& snap.mirroring == MirroringSnap::of(self.mirroring)
        &&& snap.holy_diver_mode == self.is_holy_diver()
    }

    /// Whether `snap` is of this variant of the board.
    pub open spec fn accepts(self, snap: Irem74x161Snap) -> bool {
        snap.holy_diver_mode == self.is_holy_diver()
    }

    /// The board with what `snap` holds.
    pub open spec fn restored(self, snap: Irem74x161Snap) -> Irem74x161State {
        Irem74x161State {
            chr: ram_restored(self.chr_ram, self.chr, snap.chr_ram_data@),
            reg: snap.reg,
            mirroring: snap.mirroring.live(),
            ..self
        }
    }

    /// Whether `other` is the same cart, at another time.
    pub open spec fn same_cart(self, other: Irem74x161State) -> bool {
        &&& self.chr_ram ==> other.chr.len() == self.chr.len()
        &&& !self.chr_ram ==> other.chr == self.chr
        &&& other.prg_rom == self.prg_rom
        &&& other.chr_ram == self.chr_ram
        &&& other.mirror_mode == self.mirror_mode
        &&& other.prg_bank_count_16k == self.prg_bank_count_16k
        &&& other.chr_bank_count_8k == self.chr_bank_count_8k
    }
}

impl Irem74x161 {
    pub fn new(cart: Cartridge) -> (m: Self)
        ensures
            Self::ok(m@),
            m@ == Irem74x161State::power_on(cart),
    {
        let mirror_mode: MirrorMode = if cart.submapper == 3 {
            MirrorMode::HorizontalVertical
        } else {
            MirrorMode::SingleScreen
        };
        let (chr, chr_ram): (Vec<u8>, bool) = take_chr(cart.chr_rom, cart.chr_ram, 0x2000);
        Irem74x161 {
            prg_bank_count_16k: count_banks(&cart.prg_rom, 0x4000),
            chr_bank_count_8k: count_banks(&chr, 0x2000),
            prg_rom: cart.prg_rom,
            chr,
            chr_ram,
            reg: 0,
            mirror_mode,
            mirroring: match mirror_mode {
                MirrorMode::SingleScreen => Mirroring::SingleScreenLower,
                MirrorMode::HorizontalVertical => Mirroring::Horizontal,
            },
        }
    }

    fn is_holy_diver_now(&self) -> (yes: bool)
        ensures
            yes == self@.is_holy_diver(),
    {
        self.mirror_mode == MirrorMode::HorizontalVertical
    }

    fn map_prg(&self, addr: u16) -> (i: usize)
        requires
            Self::ok(self@),
        ensures
            i == self@.prg_index(addr),
    {
        if addr < 0xC000 {
            wrapped_offset(&self.prg_rom, self.prg_bank_count_16k, (self.reg & 0x07) as usize, 0x4000, addr)
        } else {
            bank_offset(&self.prg_rom, self.prg_bank_count_16k, self.prg_bank_count_16k - 1, 0x4000, addr)
        }
    }

    fn map_chr(&self, addr: u16) -> (i: usize)
        requires
            Self::ok(self@),
        ensures
            i == self@.chr_index(addr),
    {
        wrapped_offset(&self.chr, self.chr_bank_count_8k, ((self.reg >> 4) & 0x0F) as usize, 0x2000, addr)
    }

    fn cpu_prg_byte(&self, addr: u16) -> (byte: u8)
        requires
            Self::ok(self@),
        ensures
            byte == Self::cpu_byte(self@, addr),
    {
        if addr >= 0x8000 {
            read_at(&self.prg_rom, self.map_prg(addr))
        } else {
            0
        }
    }
}

impl Mapper for Irem74x161 {
    open spec fn ok(s: Irem74x161State) -> bool {
        &&& s.prg_bank_count_16k == bank_count(s.prg_rom.len(), 0x4000)
        &&& s.chr_bank_count_8k == bank_count(s.chr.len(), 0x2000)
    }

    open spec fn cpu_byte(s: Irem74x161State, addr: u16) -> u8 {
        if addr >= 0x8000 {
            byte_at(s.prg_rom, s.prg_index(addr))
        } else {
            0
        }
    }

    open spec fn after_cpu_write(s: Irem74x161State, addr: u16, data: u8) -> Irem74x161State {
        if addr >= 0x8000 {
            let latched = data & Self::cpu_byte(s, addr);
            Irem74x161State { reg: latched, mirroring: mirroring_of(s.mirror_mode, latched), ..s }
        } else {
            s
        }
    }

    open spec fn ppu_byte(s: Irem74x161State, addr: u16) -> u8 {
        if addr < 0x2000 {
            byte_at(s.chr, s.chr_index(addr))
        } else {
            0
        }
    }

    open spec fn after_ppu_write(s: Irem74x161State, addr: u16, data: u8) -> Irem74x161State {
        if s.chr_ram && addr < 0x2000 {
            Irem74x161State { chr: poked(s.chr, s.chr_index(addr), data), ..s }
        } else {
            s
        }
    }

    fn cpu_read(&mut self, addr: u16) -> (byte: u8) {
        self.cpu_peek(addr)
    }

    fn cpu_peek(&self, addr: u16) -> (byte: u8) {
        self.cpu_prg_byte(addr)
    }

    fn cpu_write(&mut self, addr: u16, data: u8) {
        if addr < 0x8000 {
            return;
        }
        let effective: u8 = data & self.cpu_prg_byte(addr);
        self.reg = effective;
        let bit3: bool = effective & 0x08 != 0;
        self.mirroring = match self.mirror_mode {
            MirrorMode::SingleScreen => if bit3 {
                Mirroring::SingleScreenUpper
            } else {
                Mirroring::SingleScreenLower
            },
            MirrorMode::HorizontalVertical => if bit3 { Mirroring::Vertical } else { Mirroring::Horizontal },
        };
    }

    fn ppu_read(&mut self, addr: u16) -> (byte: u8) {
        if addr < 0x2000 {
            read_at(&self.chr, self.map_chr(addr))
        } else {
            0
        }
    }

    fn ppu_write(&mut self, addr: u16, data: u8) {
        if self.chr_ram && addr < 0x2000 {
            let i: usize = self.map_chr(addr);
            poke(&mut self.chr, i, data);
        }
    }

    open spec fn mirrored(s: Irem74x161State) -> Mirroring {
        s.mirroring
    }

    fn mirroring(&self) -> (mode: Mirroring) {
        self.mirroring
    }

    fn cpu_read_ex(&mut self, addr: u16) -> (byte: Option<u8>) {
        None
    }

    fn on_cpu_cycle(&mut self) {
    }

    fn irq_line(&self) -> (asserted: bool) {
        false
    }

    open spec fn captures(s: Irem74x161State, state: Option<MapperState>) -> bool {
        match state {
            Some(MapperState::Irem74x161(snap)) => s.captured(snap),
            _ => false,
        }
    }

    open spec fn after_apply(s: Irem74x161State, state: MapperState) -> Option<Irem74x161State> {
        match state {
            MapperState::Irem74x161(snap) => if s.accepts(snap) {
                Some(s.restored(snap))
            } else {
                None
            },
            _ => None,
        }
    }

    fn save_state_capture(&self) -> (state: Option<MapperState>) {
        Some(MapperState::Irem74x161(Irem74x161Snap {
            chr_ram_data: copy_if_ram(self.chr_ram, &self.chr),
            reg: self.reg,
            mirroring: MirroringSnap::from_live(self.mirroring),
            holy_diver_mode: self.is_holy_diver_now(),
        }))
    }

    fn save_state_apply(&mut self, state: &MapperState) -> (result: Result<(), SaveStateError>) {
        match state {
            MapperState::Irem74x161(snap) => {
                if snap.holy_diver_mode != self.is_holy_diver_now() {
                    return Err(SaveStateError::UnsupportedMapper(0));
                }
                restore_if_ram(self.chr_ram, &mut self.chr, &snap.chr_ram_data);
                self.reg = snap.reg;
                self.mirroring = snap.mirroring.to_live();
                Ok(())
            }
            _ => Err(SaveStateError::UnsupportedMapper(0)),
        }
    }

    fn ppu_nametable_read(&mut self, slot: u8, offset: u16) -> (source: NametableSource) {
        NametableSource::Default
    }

    fn ppu_nametable_write(&mut self, slot: u8, offset: u16, data: u8) -> (target: NametableWriteTarget) {
        NametableWriteTarget::Default
    }

    fn on_ppu_addr(&mut self, addr: u16, ppu_cycle: u64, kind: PpuFetchKind) {
    }

    fn save_data(&self) -> (bytes: Option<&[u8]>) {
        None
    }

    fn load_save_data(&mut self, data: &[u8]) {
    }

    fn save_dirty(&self) -> (dirty: bool) {
        false
    }

    fn mark_saved(&mut self) {
    }
}

/// A snapshot brings back the board it was taken from, whatever happened to it since.
pub proof fn lemma_irem74x161_round_trip(
    s: Irem74x161State,
    later: Irem74x161State,
    state: MapperState,
)
    requires
        Irem74x161::ok(s),
        Irem74x161::ok(later),
        s.same_cart(later),
        Irem74x161::captures(s, Some(state)),
    ensures
        Irem74x161::snapshot_ok(later, state),
        Irem74x161::after_apply(later, state) == Some(s),
{
}

/// No write changes the cart's ROM.
pub proof fn lemma_irem74x161_rom_is_read_only(s: Irem74x161State, addr: u16, data: u8)
    ensures
        Irem74x161::after_cpu_write(s, addr, data).prg_rom == s.prg_rom,
        Irem74x161::after_ppu_write(s, addr, data).prg_rom == s.prg_rom,
        !s.chr_ram ==> Irem74x161::after_ppu_write(s, addr, data).chr == s.chr,
{
}

/// No write moves the bank at `$C000-$FFFF`.
pub proof fn lemma_irem74x161_fixed_bank(s: Irem74x161State, addr: u16, data: u8, read: u16)
    requires
        Irem74x161::ok(s),
        read >= 0xC000,
    ensures
        ({
            let after = Irem74x161::after_cpu_write(s, addr, data);
            Irem74x161::cpu_byte(after, read) == Irem74x161::cpu_byte(s, read)
        }),
{
}

/// Pattern RAM gives back what was stored.
pub proof fn lemma_irem74x161_pattern_ram(s: Irem74x161State, addr: u16, data: u8)
    requires
        Irem74x161::ok(s),
        s.chr_ram,
        addr < 0x2000,
        0 <= s.chr_index(addr) < s.chr.len(),
    ensures
        ({
            let after = Irem74x161::after_ppu_write(s, addr, data);
            Irem74x161::ppu_byte(after, addr) == data
        }),
{
}

} // verus!
