//! Irem TAM-S1 (iNES mapper 97).
//!
//! One register at `$8000-$FFFF`. Its low nibble selects the 16 KiB PRG bank at `$C000-$FFFF`;
//! `$8000-$BFFF` has the last bank. Its top bits select the mirroring: bit 7 alone, horizontal or
//! vertical, and on submapper 1 bits 6-7, single-screen lower, horizontal, vertical, upper.
use vstd::prelude::*;

use crate::mapper::{Mapper, NametableSource, NametableWriteTarget, PpuFetchKind};
use crate::mem::{
    bank_count, bank_offset, byte_at, chr_image, copy_if_ram, count_banks, has_chr_ram, in_bank,
    poke, poked, ram_copy, ram_restored, read_at, restore_if_ram, take_chr, wrapped_offset,
};
use crate::rom::{Cartridge, Mirroring};
use crate::save_state::mapper::{IremTamS1Snap, MapperState};
use crate::save_state::{MirroringSnap, SaveStateError};

verus! {

#[derive(Debug, Clone, Copy, PartialEq, Eq, Structural)]
pub enum MirrorMode {
    TwoMode,
    FourMode,
}

pub struct IremTamS1 {
    pub prg_rom: Vec<u8>,
    pub chr: Vec<u8>,
    pub chr_ram: bool,
    pub reg: u8,
    pub mirror_mode: MirrorMode,
    pub mirroring: Mirroring,
    pub prg_bank_count_16k: usize,
}

/// The state of an [`IremTamS1`] board.
#[verifier::ext_equal]
pub struct IremTamS1State {
    pub prg_rom: Seq<u8>,
    pub chr: Seq<u8>,
    pub chr_ram: bool,
    pub reg: u8,
    pub mirror_mode: MirrorMode,
    pub mirroring: Mirroring,
    pub prg_bank_count_16k: usize,
}

impl View for IremTamS1 {
    type V = IremTamS1State;

    open spec fn view(&self) -> IremTamS1State {
        IremTamS1State {
            prg_rom: self.prg_rom@,
            chr: self.chr@,
            chr_ram: self.chr_ram,
            reg: self.reg,
            mirror_mode: self.mirror_mode,
            mirroring: self.mirroring,
            prg_bank_count_16k: self.prg_bank_count_16k,
        }
    }
}

/// The mirroring that a register value selects.
pub open spec fn mirroring_of(mode: MirrorMode, data: u8) -> Mirroring {
    match mode {
        MirrorMode::TwoMode => if data >= 0x80 { Mirroring::Vertical } else { Mirroring::Horizontal },
        MirrorMode::FourMode => if data >= 0xC0 {
            Mirroring::SingleScreenUpper
        } else if data >= 0x80 {
            Mirroring::Vertical
        } else if data >= 0x40 {
            Mirroring::Horizontal
        } else {
            Mirroring::SingleScreenLower
        },
    }
}

impl IremTamS1State {
    pub open spec fn power_on(cart: Cartridge) -> IremTamS1State {
        let mode = if cart.submapper == 1 { MirrorMode::FourMode } else { MirrorMode::TwoMode };
        IremTamS1State {
            prg_rom: cart.prg_rom@,
            chr: chr_image(cart, 0x2000),
            chr_ram: has_chr_ram(cart),
            reg: 0,
            mirror_mode: mode,
            mirroring: mirroring_of(mode, 0),
            prg_bank_count_16k: bank_count(cart.prg_rom@.len(), 0x4000) as usize,
        }
    }

    pub open spec fn is_four_mode(self) -> bool {
        self.mirror_mode == MirrorMode::FourMode
    }

    pub open spec fn prg_index(self, addr: u16) -> int {
        if addr < 0xC000 {
            in_bank(self.prg_bank_count_16k - 1, 0x4000, addr as int)
        } else {
            in_bank((self.reg & 0x0F) as int % self.prg_bank_count_16k as int, 0x4000, addr as int)
        }
    }

    pub open spec fn chr_index(self, addr: u16) -> int {
        addr as int
    }

    /// Whether `snap` was taken in this state.
    pub open spec fn captured(self, snap: IremTamS1Snap) -> bool {
        &&& snap.chr_ram_data@ == ram_copy(self.chr_ram, self.chr)
        &&& snap.reg == self.reg
        &&& snap.mirroring == MirroringSnap::of(self.mirroring)
        &&& snap.four_mode == self.is_four_mode()
    }

    /// Whether `snap` is of this variant of the board.
    pub open spec fn accepts(self, snap: IremTamS1Snap) -> bool {
        snap.four_mode == self.is_four_mode()
    }

    /// The board with what `snap` holds.
    pub open spec fn restored(self, snap: IremTamS1Snap) -> IremTamS1State {
        IremTamS1State {
            chr: ram_restored(self.chr_ram, self.chr, snap.chr_ram_data@),
            reg: snap.reg,
            mirroring: snap.mirroring.live(),
            ..self
        }
    }

    /// Whether `other` is the same cart, at another time.
    pub open spec fn same_cart(self, other: IremTamS1State) -> bool {
        &&& self.chr_ram ==> other.chr.len() == self.chr.len()
        &&& !self.chr_ram ==> other.chr == self.chr
        &&& other.prg_rom == self.prg_rom
        &&& other.chr_ram == self.chr_ram
        &&& other.mirror_mode == self.mirror_mode
        &&& other.prg_bank_count_16k == self.prg_bank_count_16k
    }
}

impl IremTamS1 {
    pub fn new(cart: Cartridge) -> (m: Self)
        ensures
            Self::ok(m@),
            m@ == IremTamS1State::power_on(cart),
    {
        let mirror_mode: MirrorMode = if cart.submapper == 1 { MirrorMode::FourMode } else { MirrorMode::TwoMode };
        let (chr, chr_ram): (Vec<u8>, bool) = take_chr(cart.chr_rom, cart.chr_ram, 0x2000);
        IremTamS1 {
            prg_bank_count_16k: count_banks(&cart.prg_rom, 0x4000),
            prg_rom: cart.prg_rom,
            chr,
            chr_ram,
            reg: 0,
            mirror_mode,
            mirroring: IremTamS1::decode_mirroring(mirror_mode, 0),
        }
    }

    fn decode_mirroring(mode: MirrorMode, data: u8) -> (mirroring: Mirroring)
        ensures
            mirroring == mirroring_of(mode, data),
    {
        match mode {
            MirrorMode::TwoMode => if data >= 0x80 { Mirroring::Vertical } else { Mirroring::Horizontal },
            MirrorMode::FourMode => match data / 0x40 {
                0 => Mirroring::SingleScreenLower,
                1 => Mirroring::Horizontal,
                2 => Mirroring::Vertical,
                _ => Mirroring::SingleScreenUpper,
            },
        }
    }

    fn is_four_mode_now(&self) -> (yes: bool)
        ensures
            yes == self@.is_four_mode(),
    {
        self.mirror_mode == MirrorMode::FourMode
    }

    fn map_prg(&self, addr: u16) -> (i: usize)
        requires
            Self::ok(self@),
        ensures
            i == self@.prg_index(addr),
    {
        if addr < 0xC000 {
            bank_offset(&self.prg_rom, self.prg_bank_count_16k, self.prg_bank_count_16k - 1, 0x4000, addr)
        } else {
            wrapped_offset(&self.prg_rom, self.prg_bank_count_16k, (self.reg & 0x0F) as usize, 0x4000, addr)
        }
    }

    fn map_chr(&self, addr: u16) -> (i: usize)
        ensures
            i == self@.chr_index(addr),
    {
        addr as usize
    }
}

impl Mapper for IremTamS1 {
    open spec fn ok(s: IremTamS1State) -> bool {
        s.prg_bank_count_16k == bank_count(s.prg_rom.len(), 0x4000)
    }

    open spec fn cpu_byte(s: IremTamS1State, addr: u16) -> u8 {
        if addr >= 0x8000 {
            byte_at(s.prg_rom, s.prg_index(addr))
        } else {
            0
        }
    }

    open spec fn after_cpu_write(s: IremTamS1State, addr: u16, data: u8) -> IremTamS1State {
        if addr >= 0x8000 {
            IremTamS1State { reg: data, mirroring: mirroring_of(s.mirror_mode, data), ..s }
        } else {
            s
        }
    }

    open spec fn ppu_byte(s: IremTamS1State, addr: u16) -> u8 {
        if addr < 0x2000 {
            byte_at(s.chr, s.chr_index(addr))
        } else {
            0
        }
    }

    open spec fn after_ppu_write(s: IremTamS1State, addr: u16, data: u8) -> IremTamS1State {
        if s.chr_ram && addr < 0x2000 {
            IremTamS1State { chr: poked(s.chr, s.chr_index(addr), data), ..s }
        } else {
            s
        }
    }

    fn cpu_read(&mut self, addr: u16) -> (byte: u8) {
        self.cpu_peek(addr)
    }

    fn cpu_peek(&self, addr: u16) -> (byte: u8) {
        if addr >= 0x8000 {
            read_at(&self.prg_rom, self.map_prg(addr))
        } else {
            0
        }
    }

    fn cpu_write(&mut self, addr: u16, data: u8) {
        if addr >= 0x8000 {
            self.reg = data;
            self.mirroring = IremTamS1::decode_mirroring(self.mirror_mode, data);
        }
    }

    fn ppu_read(&mut self, addr: u16) -> (byte: u8) {
        if addr < 0x2000 {
            read_at(&self.chr, self.map_chr(addr))
        } else {
            0
        }
    }

    fn ppu_write(&mut self, addr: u16, data: u8) {
        if self.chr_ram && addr < 0x2000 {
            let i: usize = self.map_chr(addr);
            poke(&mut self.chr, i, data);
        }
    }

    open spec fn mirrored(s: IremTamS1State) -> Mirroring {
        s.mirroring
    }

    fn mirroring(&self) -> (mode: Mirroring) {
        self.mirroring
    }

    fn cpu_read_ex(&mut self, addr: u16) -> (byte: Option<u8>) {
        None
    }

    fn on_cpu_cycle(&mut self) {
    }

    fn irq_line(&self) -> (asserted: bool) {
        false
    }

    open spec fn captures(s: IremTamS1State, state: Option<MapperState>) -> bool {
        match state {
            Some(MapperState::IremTamS1(snap)) => s.captured(snap),
            _ => false,
        }
    }

    open spec fn after_apply(s: IremTamS1State, state: MapperState) -> Option<IremTamS1State> {
        match state {
            MapperState::IremTamS1(snap) => if s.accepts(snap) {
                Some(s.restored(snap))
            } else {
                None
            },
            _ => None,
        }
    }

    fn save_state_capture(&self) -> (state: Option<MapperState>) {
        Some(MapperState::IremTamS1(IremTamS1Snap {
            chr_ram_data: copy_if_ram(self.chr_ram, &self.chr),
            reg: self.reg,
            mirroring: MirroringSnap::from_live(self.mirroring),
            four_mode: self.is_four_mode_now(),
        }))
    }

    fn save_state_apply(&mut self, state: &MapperState) -> (result: Result<(), SaveStateError>) {
        match state {
            MapperState::IremTamS1(snap) => {
                if snap.four_mode != self.is_four_mode_now() {
                    return Err(SaveStateError::UnsupportedMapper(0));
                }
                restore_if_ram(self.chr_ram, &mut self.chr, &snap.chr_ram_data);
                self.reg = snap.reg;
                self.mirroring = snap.mirroring.to_live();
                Ok(())
            }
            _ => Err(SaveStateError::UnsupportedMapper(0)),
        }
    }

    fn ppu_nametable_read(&mut self, slot: u8, offset: u16) -> (source: NametableSource) {
        NametableSource::Default
    }

    fn ppu_nametable_write(&mut self, slot: u8, offset: u16, data: u8) -> (target: NametableWriteTarget) {
        NametableWriteTarget::Default
    }

    fn on_ppu_addr(&mut self, addr: u16, ppu_cycle: u64, kind: PpuFetchKind) {
    }

    fn save_data(&self) -> (bytes: Option<&[u8]>) {
        None
    }

    fn load_save_data(&mut self, data: &[u8]) {
    }

    fn save_dirty(&self) -> (dirty: bool) {
        false
    }

    fn mark_saved(&mut self) {
    }
}

/// A snapshot brings back the board it was taken from, whatever happened to it since.
pub proof fn lemma_irem_tam_s1_round_trip(
    s: IremTamS1State,
    later: IremTamS1State,
    state: MapperState,
)
    requires
        IremTamS1::ok(s),
        IremTamS1::ok(later),
        s.same_cart(later),
        IremTamS1::captures(s, Some(state)),
    ensures
        IremTamS1::snapshot_ok(later, state),
        IremTamS1::after_apply(later, state) == Some(s),
{
}

/// No write changes the cart's ROM.
pub proof fn lemma_irem_tam_s1_rom_is_read_only(s: IremTamS1State, addr: u16, data: u8)
    ensures
        IremTamS1::after_cpu_write(s, addr, data).prg_rom == s.prg_rom,
        IremTamS1::after_ppu_write(s, addr, data).prg_rom == s.prg_rom,
        !s.chr_ram ==> IremTamS1::after_ppu_write(s, addr, data).chr == s.chr,
{
}

/// No write moves the bank at `$8000-$BFFF`.
pub proof fn lemma_tam_s1_fixed_bank(s: IremTamS1State, addr: u16, data: u8, read: u16)
    requires
        0x8000 <= read < 0xC000,
    ensures
        IremTamS1::cpu_byte(IremTamS1::after_cpu_write(s, addr, data), read) == IremTamS1::cpu_byte(s, read),
{
}

/// Pattern RAM gives back what was stored.
pub proof fn lemma_irem_tam_s1_pattern_ram(s: IremTamS1State, addr: u16, data: u8)
    requires
        IremTamS1::ok(s),
        s.chr_ram,
        addr < 0x2000,
        0 <= s.chr_index(addr) < s.chr.len(),
    ensures
        ({
            let after = IremTamS1::after_ppu_write(s, addr, data);
            IremTamS1::ppu_byte(after, addr) == data
        }),
{
}

} // verus!
