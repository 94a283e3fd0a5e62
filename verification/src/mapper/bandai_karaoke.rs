//! Bandai Karaoke Studio (iNES mapper 188).
//!
//! The cart holds 128 KiB of ROM of its own, and the microphone unit a second 128 KiB with the
//! songs. One latch at `$8000-$FFFF`, masked by the ROM byte under the write:
//!
//! ```text
//! ..M PxBBB (bit 5, bit 4, bits 2-0)
//!   M: 1 = horizontal mirroring, 0 = vertical
//!   P: 1 = the cart's own ROM, 0 = the microphone unit's
//!   B: 16 KiB bank within it, at $8000-$BFFF
//! ```
//!
//! `$C000-$FFFF` always has the last bank of the cart's own ROM. An image of less than 256 KiB
//! has no microphone ROM; the window is then empty while it is selected. The microphone itself
//! reads as silent.
use vstd::prelude::*;

use crate::mapper::{Mapper, NametableSource, NametableWriteTarget, PpuFetchKind};
use crate::mem::{
    bank_count, bank_offset, byte_at, copied, count_banks, in_bank, poke, poked, read_at, reload,
    reloaded, zeroed, zeros,
};
use crate::rom::{Cartridge, Mirroring};
use crate::save_state::mapper::{BandaiKaraokeSnap, MapperState};
use crate::save_state::{MirroringSnap, SaveStateError};

verus! {

/// Banks of the cart's own ROM.
pub const INTERNAL_ROM_BANKS: usize = 8;

pub struct BandaiKaraoke {
    pub prg_rom: Vec<u8>,
    pub chr_ram: Vec<u8>,
    /// The latch, after the ROM's mask.
    pub reg: u8,
    pub mirroring: Mirroring,
    pub prg_bank_count_16k: usize,
    pub has_expansion: bool,
}

/// The state of an [`BandaiKaraoke`] board.
#[verifier::ext_equal]
pub struct BandaiKaraokeState {
    pub prg_rom: Seq<u8>,
    pub chr_ram: Seq<u8>,
    pub reg: u8,
    pub mirroring: Mirroring,
    pub prg_bank_count_16k: usize,
    pub has_expansion: bool,
}

impl View for BandaiKaraoke {
    type V = BandaiKaraokeState;

    open spec fn view(&self) -> BandaiKaraokeState {
        BandaiKaraokeState {
            prg_rom: self.prg_rom@,
            chr_ram: self.chr_ram@,
            reg: self.reg,
            mirroring: self.mirroring,
            prg_bank_count_16k: self.prg_bank_count_16k,
            has_expansion: self.has_expansion,
        }
    }
}

impl BandaiKaraokeState {
    pub open spec fn power_on(cart: Cartridge) -> BandaiKaraokeState {
        BandaiKaraokeState {
            prg_rom: cart.prg_rom@,
            chr_ram: zeros(0x2000),
            reg: 0,
            mirroring: cart.mirroring,
            prg_bank_count_16k: bank_count(cart.prg_rom@.len(), 0x4000) as usize,
            has_expansion: bank_count(cart.prg_rom@.len(), 0x4000) >= 2 * INTERNAL_ROM_BANKS,
        }
    }

    /// The bank at `$8000-$BFFF`, or `None` where there is none.
    pub open spec fn selected(self) -> Option<int> {
        let index = (self.reg & 0x07) as int;
        if self.reg & 0x10 != 0 {
            Some(index % self.prg_bank_count_16k as int)
        } else if self.has_expansion {
            Some((index + INTERNAL_ROM_BANKS) % self.prg_bank_count_16k as int)
        } else {
            None
        }
    }

    /// The bank at `$C000-$FFFF`.
    pub open spec fn resident(self) -> int {
        if self.prg_bank_count_16k > 7 {
            7
        } else {
            self.prg_bank_count_16k - 1
        }
    }

    /// The ROM byte at `addr`, or `open` where no ROM is mapped.
    pub open spec fn rom_byte(self, addr: u16, open: u8) -> u8 {
        if addr < 0x8000 {
            open
        } else if addr < 0xC000 {
            match self.selected() {
                Some(bank) => byte_at(self.prg_rom, in_bank(bank, 0x4000, addr as int)),
                None => open,
            }
        } else {
            byte_at(self.prg_rom, in_bank(self.resident(), 0x4000, addr as int))
        }
    }

    pub open spec fn chr_index(self, addr: u16) -> int {
        addr as int
    }

    /// Whether `snap` was taken in this state.
    pub open spec fn captured(self, snap: BandaiKaraokeSnap) -> bool {
        &&& snap.chr_ram_data@ == self.chr_ram
        &&& snap.reg == self.reg
        &&& snap.mirroring == MirroringSnap::of(self.mirroring)
    }

    /// The board with what `snap` holds.
    pub open spec fn restored(self, snap: BandaiKaraokeSnap) -> BandaiKaraokeState {
        BandaiKaraokeState {
            chr_ram: reloaded(self.chr_ram, snap.chr_ram_data@),
            reg: snap.reg,
            mirroring: snap.mirroring.live(),
            ..self
        }
    }

    /// Whether `other` is the same cart, at another time.
    pub open spec fn same_cart(self, other: BandaiKaraokeState) -> bool {
        &&& other.chr_ram.len() == self.chr_ram.len()
        &&& other.prg_rom == self.prg_rom
        &&& other.prg_bank_count_16k == self.prg_bank_count_16k
        &&& other.has_expansion == self.has_expansion
    }
}

impl BandaiKaraoke {
    pub fn new(cart: Cartridge) -> (m: Self)
        ensures
            Self::ok(m@),
            m@ == BandaiKaraokeState::power_on(cart),
    {
        let prg_bank_count_16k: usize = count_banks(&cart.prg_rom, 0x4000);
        BandaiKaraoke {
            prg_rom: cart.prg_rom,
            chr_ram: zeroed(0x2000),
            reg: 0,
            mirroring: cart.mirroring,
            prg_bank_count_16k,
            has_expansion: prg_bank_count_16k >= 2 * INTERNAL_ROM_BANKS,
        }
    }

    fn switch_bank(&self) -> (bank: Option<usize>)
        requires
            Self::ok(self@),
        ensures
            match bank {
                Some(b) => self@.selected() == Some(b as int) && b < self@.prg_bank_count_16k,
                None => self@.selected() is None,
            },
    {
        let idx: usize = (self.reg & 0x07) as usize;
        if self.reg & 0x10 != 0 {
            Some(idx % self.prg_bank_count_16k)
        } else if self.has_expansion {
            Some((idx + INTERNAL_ROM_BANKS) % self.prg_bank_count_16k)
        } else {
            None
        }
    }

    fn fixed_bank(&self) -> (bank: usize)
        requires
            Self::ok(self@),
        ensures
            bank == self@.resident(),
    {
        if self.prg_bank_count_16k > 7 {
            7
        } else {
            self.prg_bank_count_16k - 1
        }
    }

    fn prg_byte(&self, bank: usize, addr: u16) -> (byte: u8)
        requires
            Self::ok(self@),
            bank < self@.prg_bank_count_16k,
        ensures
            byte == byte_at(self@.prg_rom, in_bank(bank as int, 0x4000, addr as int)),
    {
        read_at(&self.prg_rom, bank_offset(&self.prg_rom, self.prg_bank_count_16k, bank, 0x4000, addr))
    }

    fn rom_visible_at(&self, addr: u16, open: u8) -> (byte: u8)
        requires
            Self::ok(self@),
        ensures
            byte == self@.rom_byte(addr, open),
    {
        match addr {
            0x8000..=0xBFFF => match self.switch_bank() {
                Some(bank) => self.prg_byte(bank, addr),
                None => open,
            },
            0xC000..=0xFFFF => self.prg_byte(self.fixed_bank(), addr),
            _ => open,
        }
    }

    fn map_chr(&self, addr: u16) -> (i: usize)
        ensures
            i == self@.chr_index(addr),
    {
        addr as usize
    }
}

impl Mapper for BandaiKaraoke {
    open spec fn ok(s: BandaiKaraokeState) -> bool {
        s.prg_bank_count_16k == bank_count(s.prg_rom.len(), 0x4000)
    }

    open spec fn cpu_byte(s: BandaiKaraokeState, addr: u16) -> u8 {
        if addr >= 0x8000 {
            s.rom_byte(addr, 0)
        } else if addr >= 0x6000 {
            0xF8
        } else {
            0
        }
    }

    open spec fn after_cpu_write(s: BandaiKaraokeState, addr: u16, data: u8) -> BandaiKaraokeState {
        if addr >= 0x8000 {
            let latched = data & s.rom_byte(addr, 0xFF);
            BandaiKaraokeState {
                reg: latched,
                mirroring: if latched & 0x20 != 0 { Mirroring::Horizontal } else { Mirroring::Vertical },
                ..s
            }
        } else {
            s
        }
    }

    open spec fn ppu_byte(s: BandaiKaraokeState, addr: u16) -> u8 {
        if addr < 0x2000 {
            byte_at(s.chr_ram, s.chr_index(addr))
        } else {
            0
        }
    }

    open spec fn after_ppu_write(s: BandaiKaraokeState, addr: u16, data: u8) -> BandaiKaraokeState {
        if addr < 0x2000 {
            BandaiKaraokeState { chr_ram: poked(s.chr_ram, s.chr_index(addr), data), ..s }
        } else {
            s
        }
    }

    fn cpu_read(&mut self, addr: u16) -> (byte: u8) {
        self.cpu_peek(addr)
    }

    fn cpu_peek(&self, addr: u16) -> (byte: u8) {
        match addr {
            0x6000..=0x7FFF => 0xF8,
            _ => self.rom_visible_at(addr, 0),
        }
    }

    fn cpu_write(&mut self, addr: u16, data: u8) {
        if addr >= 0x8000 {
            self.reg = data & self.rom_visible_at(addr, 0xFF);
            self.mirroring = if self.reg & 0x20 != 0 { Mirroring::Horizontal } else { Mirroring::Vertical };
        }
    }

    fn ppu_read(&mut self, addr: u16) -> (byte: u8) {
        if addr < 0x2000 {
            read_at(&self.chr_ram, self.map_chr(addr))
        } else {
            0
        }
    }

    fn ppu_write(&mut self, addr: u16, data: u8) {
        if addr < 0x2000 {
            let i: usize = self.map_chr(addr);
            poke(&mut self.chr_ram, i, data);
        }
    }

    open spec fn mirrored(s: BandaiKaraokeState) -> Mirroring {
        s.mirroring
    }

    fn mirroring(&self) -> (mode: Mirroring) {
        self.mirroring
    }

    fn cpu_read_ex(&mut self, addr: u16) -> (byte: Option<u8>) {
        None
    }

    fn on_cpu_cycle(&mut self) {
    }

    fn irq_line(&self) -> (asserted: bool) {
        false
    }

    open spec fn captures(s: BandaiKaraokeState, state: Option<MapperState>) -> bool {
        match state {
            Some(MapperState::BandaiKaraoke(snap)) => s.captured(snap),
            _ => false,
        }
    }

    open spec fn after_apply(s: BandaiKaraokeState, state: MapperState) -> Option<BandaiKaraokeState> {
        match state {
            MapperState::BandaiKaraoke(snap) => Some(s.restored(snap)),
            _ => None,
        }
    }

    fn save_state_capture(&self) -> (state: Option<MapperState>) {
        Some(MapperState::BandaiKaraoke(BandaiKaraokeSnap {
            chr_ram_data: copied(&self.chr_ram),
            reg: self.reg,
            mirroring: MirroringSnap::from_live(self.mirroring),
        }))
    }

    fn save_state_apply(&mut self, state: &MapperState) -> (result: Result<(), SaveStateError>) {
        match state {
            MapperState::BandaiKaraoke(snap) => {
                reload(&mut self.chr_ram, snap.chr_ram_data.as_slice());
                self.reg = snap.reg;
                self.mirroring = snap.mirroring.to_live();
                Ok(())
            }
            _ => Err(SaveStateError::UnsupportedMapper(0)),
        }
    }

    fn ppu_nametable_read(&mut self, slot: u8, offset: u16) -> (source: NametableSource) {
        NametableSource::Default
    }

    fn ppu_nametable_write(&mut self, slot: u8, offset: u16, data: u8) -> (target: NametableWriteTarget) {
        NametableWriteTarget::Default
    }

    fn on_ppu_addr(&mut self, addr: u16, ppu_cycle: u64, kind: PpuFetchKind) {
    }

    fn save_data(&self) -> (bytes: Option<&[u8]>) {
        None
    }

    fn load_save_data(&mut self, data: &[u8]) {
    }

    fn save_dirty(&self) -> (dirty: bool) {
        false
    }

    fn mark_saved(&mut self) {
    }
}

/// A snapshot brings back the board it was taken from, whatever happened to it since.
pub proof fn lemma_bandai_karaoke_round_trip(
    s: BandaiKaraokeState,
    later: BandaiKaraokeState,
    state: MapperState,
)
    requires
        BandaiKaraoke::ok(s),
        BandaiKaraoke::ok(later),
        s.same_cart(later),
        BandaiKaraoke::captures(s, Some(state)),
    ensures
        BandaiKaraoke::snapshot_ok(later, state),
        BandaiKaraoke::after_apply(later, state) == Some(s),
{
}

/// No write changes the cart's ROM.
pub proof fn lemma_bandai_karaoke_rom_is_read_only(s: BandaiKaraokeState, addr: u16, data: u8)
    ensures
        BandaiKaraoke::after_cpu_write(s, addr, data).prg_rom == s.prg_rom,
        BandaiKaraoke::after_ppu_write(s, addr, data).prg_rom == s.prg_rom,
{
}

/// No write moves the bank at `$C000-$FFFF`.
pub proof fn lemma_bandai_karaoke_fixed_bank(s: BandaiKaraokeState, addr: u16, data: u8, read: u16)
    requires
        BandaiKaraoke::ok(s),
        read >= 0xC000,
    ensures
        ({
            let after = BandaiKaraoke::after_cpu_write(s, addr, data);
            BandaiKaraoke::cpu_byte(after, read) == BandaiKaraoke::cpu_byte(s, read)
        }),
{
}

/// Pattern RAM gives back what was stored.
pub proof fn lemma_bandai_karaoke_pattern_ram(s: BandaiKaraokeState, addr: u16, data: u8)
    requires
        BandaiKaraoke::ok(s),
        addr < 0x2000,
        0 <= s.chr_index(addr) < s.chr_ram.len(),
    ensures
        ({
            let after = BandaiKaraoke::after_ppu_write(s, addr, data);
            BandaiKaraoke::ppu_byte(after, addr) == data
        }),
{
}

} // verus!
