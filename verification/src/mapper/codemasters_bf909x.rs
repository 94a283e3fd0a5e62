//! Codemasters BF909x (iNES mapper 71).
//!
//! On a BF9093 any write to `$8000-$FFFF` selects the 16 KiB bank at `$8000-$BFFF`;
//! `$C000-$FFFF` has the last bank. On a BF9097 only writes to `$C000-$FFFF` do, and writes to
//! `$8000-$BFFF` pick a single-screen page with bit 4. The header tells them apart (submapper 1
//! is the BF9097), and a write to `$9000-$9FFF` gives a BF9097 away too.
use vstd::prelude::*;

use crate::mapper::{Mapper, NametableSource, NametableWriteTarget, PpuFetchKind};
use crate::mem::{
    bank_count, bank_offset, byte_at, chr_image, copy_if_ram, count_banks, has_chr_ram, in_bank,
    poke, poked, ram_copy, ram_fits, ram_restored, ram_size, read_at, restore_if_ram, take_chr,
    work_ram, wrapped_offset, zeros,
};
use crate::rom::{Cartridge, Mirroring};
use crate::save_state::mapper::{CodemastersBf909xSnap, MapperState};
use crate::save_state::{MirroringSnap, SaveStateError};

verus! {

pub struct CodemastersBf909x {
    pub prg_rom: Vec<u8>,
    pub chr: Vec<u8>,
    pub chr_ram: bool,
    pub prg_ram: Vec<u8>,
    pub prg_bank: u8,
    pub bf9097_mode: bool,
    pub mirroring: Mirroring,
    pub prg_bank_count_16k: usize,
}

/// The state of an [`CodemastersBf909x`] board.
#[verifier::ext_equal]
pub struct CodemastersBf909xState {
    pub prg_rom: Seq<u8>,
    pub chr: Seq<u8>,
    pub chr_ram: bool,
    pub prg_ram: Seq<u8>,
    pub prg_bank: u8,
    pub bf9097_mode: bool,
    pub mirroring: Mirroring,
    pub prg_bank_count_16k: usize,
}

impl View for CodemastersBf909x {
    type V = CodemastersBf909xState;

    open spec fn view(&self) -> CodemastersBf909xState {
        CodemastersBf909xState {
            prg_rom: self.prg_rom@,
            chr: self.chr@,
            chr_ram: self.chr_ram,
            prg_ram: self.prg_ram@,
            prg_bank: self.prg_bank,
            bf9097_mode: self.bf9097_mode,
            mirroring: self.mirroring,
            prg_bank_count_16k: self.prg_bank_count_16k,
        }
    }
}

impl CodemastersBf909xState {
    pub open spec fn power_on(cart: Cartridge) -> CodemastersBf909xState {
        CodemastersBf909xState {
            prg_rom: cart.prg_rom@,
            chr: chr_image(cart, 0x2000),
            chr_ram: has_chr_ram(cart),
            prg_ram: zeros(ram_size(cart, 0x2000)),
            prg_bank: 0,
            bf9097_mode: cart.submapper == 1,
            mirroring: cart.mirroring,
            prg_bank_count_16k: bank_count(cart.prg_rom@.len(), 0x4000) as usize,
        }
    }

    pub open spec fn prg_index(self, addr: u16) -> int {
        if addr < 0xC000 {
            in_bank(self.prg_bank as int % self.prg_bank_count_16k as int, 0x4000, addr as int)
        } else {
            in_bank(self.prg_bank_count_16k - 1, 0x4000, addr as int)
        }
    }

    pub open spec fn chr_index(self, addr: u16) -> int {
        addr as int
    }

    /// Whether `snap` was taken in this state.
    pub open spec fn captured(self, snap: CodemastersBf909xSnap) -> bool {
        &&& snap.chr_ram_data@ == ram_copy(self.chr_ram, self.chr)
        &&& snap.prg_bank == self.prg_bank
        &&& snap.bf9097_mode == self.bf9097_mode
        &&& snap.mirroring == MirroringSnap::of(self.mirroring)
    }

    /// The board with what `snap` holds.
    pub open spec fn restored(self, snap: CodemastersBf909xSnap) -> CodemastersBf909xState {
        CodemastersBf909xState {
            chr: ram_restored(self.chr_ram, self.chr, snap.chr_ram_data@),
            prg_bank: snap.prg_bank,
            bf9097_mode: snap.bf9097_mode,
            mirroring: snap.mirroring.live(),
            ..self
        }
    }

    /// Whether `other` is the same cart, at another time.
    pub open spec fn same_cart(self, other: CodemastersBf909xState) -> bool {
        &&& self.chr_ram ==> other.chr.len() == self.chr.len()
        &&& !self.chr_ram ==> other.chr == self.chr
        &&& other.prg_rom == self.prg_rom
        &&& other.chr_ram == self.chr_ram
        &&& other.prg_bank_count_16k == self.prg_bank_count_16k
    }
}

impl CodemastersBf909x {
    pub fn new(cart: Cartridge) -> (m: Self)
        requires
            ram_fits(cart),
        ensures
            Self::ok(m@),
            m@ == CodemastersBf909xState::power_on(cart),
    {
        let (chr, chr_ram): (Vec<u8>, bool) = take_chr(cart.chr_rom, cart.chr_ram, 0x2000);
        CodemastersBf909x {
            prg_bank_count_16k: count_banks(&cart.prg_rom, 0x4000),
            prg_rom: cart.prg_rom,
            chr,
            chr_ram,
            prg_ram: work_ram(cart.prg_ram_size, cart.prg_nvram_size, 0x2000),
            prg_bank: 0,
            bf9097_mode: cart.submapper == 1,
            mirroring: cart.mirroring,
        }
    }

    fn map_prg(&self, addr: u16) -> (i: usize)
        requires
            Self::ok(self@),
        ensures
            i == self@.prg_index(addr),
    {
        if addr < 0xC000 {
            wrapped_offset(&self.prg_rom, self.prg_bank_count_16k, self.prg_bank as usize, 0x4000, addr)
        } else {
            bank_offset(&self.prg_rom, self.prg_bank_count_16k, self.prg_bank_count_16k - 1, 0x4000, addr)
        }
    }

    fn map_chr(&self, addr: u16) -> (i: usize)
        ensures
            i == self@.chr_index(addr),
    {
        addr as usize
    }
}

impl Mapper for CodemastersBf909x {
    open spec fn ok(s: CodemastersBf909xState) -> bool {
        s.prg_bank_count_16k == bank_count(s.prg_rom.len(), 0x4000)
    }

    open spec fn cpu_byte(s: CodemastersBf909xState, addr: u16) -> u8 {
        if addr >= 0x8000 {
            byte_at(s.prg_rom, s.prg_index(addr))
        } else if addr >= 0x6000 {
            byte_at(s.prg_ram, addr - 0x6000)
        } else {
            0
        }
    }

    open spec fn after_cpu_write(s: CodemastersBf909xState, addr: u16, data: u8) -> CodemastersBf909xState {
        if addr >= 0x8000 {
            let promoted = CodemastersBf909xState { bf9097_mode: s.bf9097_mode || addr / 0x1000 == 9, ..s };
            if addr >= 0xC000 || !promoted.bf9097_mode {
                CodemastersBf909xState { prg_bank: data, ..promoted }
            } else {
                CodemastersBf909xState {
                    mirroring: if data & 0x10 != 0 {
                        Mirroring::SingleScreenUpper
                    } else {
                        Mirroring::SingleScreenLower
                    },
                    ..promoted
                }
            }
        } else if addr >= 0x6000 {
            CodemastersBf909xState { prg_ram: poked(s.prg_ram, addr - 0x6000, data), ..s }
        } else {
            s
        }
    }

    open spec fn ppu_byte(s: CodemastersBf909xState, addr: u16) -> u8 {
        if addr < 0x2000 {
            byte_at(s.chr, s.chr_index(addr))
        } else {
            0
        }
    }

    open spec fn after_ppu_write(s: CodemastersBf909xState, addr: u16, data: u8) -> CodemastersBf909xState {
        if s.chr_ram && addr < 0x2000 {
            CodemastersBf909xState { chr: poked(s.chr, s.chr_index(addr), data), ..s }
        } else {
            s
        }
    }

    fn cpu_read(&mut self, addr: u16) -> (byte: u8) {
        self.cpu_peek(addr)
    }

    fn cpu_peek(&self, addr: u16) -> (byte: u8) {
        match addr {
            0x6000..=0x7FFF => read_at(&self.prg_ram, (addr - 0x6000) as usize),
            0x8000..=0xFFFF => read_at(&self.prg_rom, self.map_prg(addr)),
            _ => 0,
        }
    }

    fn cpu_write(&mut self, addr: u16, data: u8) {
        match addr {
            0x6000..=0x7FFF => poke(&mut self.prg_ram, (addr - 0x6000) as usize, data),
            0x8000..=0xFFFF => {
                if addr / 0x1000 == 9 {
                    self.bf9097_mode = true;
                }
                if addr >= 0xC000 || !self.bf9097_mode {
                    self.prg_bank = data;
                } else {
                    self.mirroring = if data & 0x10 != 0 {
                        Mirroring::SingleScreenUpper
                    } else {
                        Mirroring::SingleScreenLower
                    };
                }
            }
            _ => {}
        }
    }

    fn ppu_read(&mut self, addr: u16) -> (byte: u8) {
        if addr < 0x2000 {
            read_at(&self.chr, self.map_chr(addr))
        } else {
            0
        }
    }

    fn ppu_write(&mut self, addr: u16, data: u8) {
        if self.chr_ram && addr < 0x2000 {
            let i: usize = self.map_chr(addr);
            poke(&mut self.chr, i, data);
        }
    }

    open spec fn mirrored(s: CodemastersBf909xState) -> Mirroring {
        s.mirroring
    }

    fn mirroring(&self) -> (mode: Mirroring) {
        self.mirroring
    }

    fn cpu_read_ex(&mut self, addr: u16) -> (byte: Option<u8>) {
        None
    }

    fn on_cpu_cycle(&mut self) {
    }

    fn irq_line(&self) -> (asserted: bool) {
        false
    }

    open spec fn captures(s: CodemastersBf909xState, state: Option<MapperState>) -> bool {
        match state {
            Some(MapperState::CodemastersBf909x(snap)) => s.captured(snap),
            _ => false,
        }
    }

    open spec fn after_apply(s: CodemastersBf909xState, state: MapperState) -> Option<CodemastersBf909xState> {
        match state {
            MapperState::CodemastersBf909x(snap) => Some(s.restored(snap)),
            _ => None,
        }
    }

    fn save_state_capture(&self) -> (state: Option<MapperState>) {
        Some(MapperState::CodemastersBf909x(CodemastersBf909xSnap {
            chr_ram_data: copy_if_ram(self.chr_ram, &self.chr),
            prg_bank: self.prg_bank,
            bf9097_mode: self.bf9097_mode,
            mirroring: MirroringSnap::from_live(self.mirroring),
        }))
    }

    fn save_state_apply(&mut self, state: &MapperState) -> (result: Result<(), SaveStateError>) {
        match state {
            MapperState::CodemastersBf909x(snap) => {
                restore_if_ram(self.chr_ram, &mut self.chr, &snap.chr_ram_data);
                self.prg_bank = snap.prg_bank;
                self.bf9097_mode = snap.bf9097_mode;
                self.mirroring = snap.mirroring.to_live();
                Ok(())
            }
            _ => Err(SaveStateError::UnsupportedMapper(0)),
        }
    }

    fn ppu_nametable_read(&mut self, slot: u8, offset: u16) -> (source: NametableSource) {
        NametableSource::Default
    }

    fn ppu_nametable_write(&mut self, slot: u8, offset: u16, data: u8) -> (target: NametableWriteTarget) {
        NametableWriteTarget::Default
    }

    fn on_ppu_addr(&mut self, addr: u16, ppu_cycle: u64, kind: PpuFetchKind) {
    }

    fn save_data(&self) -> (bytes: Option<&[u8]>) {
        None
    }

    fn load_save_data(&mut self, data: &[u8]) {
    }

    fn save_dirty(&self) -> (dirty: bool) {
        false
    }

    fn mark_saved(&mut self) {
    }
}

/// A snapshot brings back the board it was taken from, whatever happened to it since, except its work RAM.
pub proof fn lemma_codemasters_bf909x_round_trip(
    s: CodemastersBf909xState,
    later: CodemastersBf909xState,
    state: MapperState,
)
    requires
        CodemastersBf909x::ok(s),
        CodemastersBf909x::ok(later),
        s.same_cart(later),
        CodemastersBf909x::captures(s, Some(state)),
    ensures
        CodemastersBf909x::snapshot_ok(later, state),
        CodemastersBf909x::after_apply(later, state) == Some((CodemastersBf909xState { prg_ram: later.prg_ram, ..s })),
{
}

/// No write changes the cart's ROM.
pub proof fn lemma_codemasters_bf909x_rom_is_read_only(s: CodemastersBf909xState, addr: u16, data: u8)
    ensures
        CodemastersBf909x::after_cpu_write(s, addr, data).prg_rom == s.prg_rom,
        CodemastersBf909x::after_ppu_write(s, addr, data).prg_rom == s.prg_rom,
        !s.chr_ram ==> CodemastersBf909x::after_ppu_write(s, addr, data).chr == s.chr,
{
}

/// No write moves the bank at `$C000-$FFFF`.
pub proof fn lemma_codemasters_bf909x_fixed_bank(s: CodemastersBf909xState, addr: u16, data: u8, read: u16)
    requires
        CodemastersBf909x::ok(s),
        read >= 0xC000,
    ensures
        ({
            let after = CodemastersBf909x::after_cpu_write(s, addr, data);
            CodemastersBf909x::cpu_byte(after, read) == CodemastersBf909x::cpu_byte(s, read)
        }),
{
}

/// Pattern RAM gives back what was stored.
pub proof fn lemma_codemasters_bf909x_pattern_ram(s: CodemastersBf909xState, addr: u16, data: u8)
    requires
        CodemastersBf909x::ok(s),
        s.chr_ram,
        addr < 0x2000,
        0 <= s.chr_index(addr) < s.chr.len(),
    ensures
        ({
            let after = CodemastersBf909x::after_ppu_write(s, addr, data);
            CodemastersBf909x::ppu_byte(after, addr) == data
        }),
{
}

/// A board taken for a BF9097 stays one.
pub proof fn lemma_promotion_stays(s: CodemastersBf909xState, addr: u16, data: u8)
    requires
        s.bf9097_mode,
    ensures
        CodemastersBf909x::after_cpu_write(s, addr, data).bf9097_mode,
{
}

} // verus!
