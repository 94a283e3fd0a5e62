//! CPROM (iNES mapper 13).
//!
//! PRG-ROM is fixed, mirroring is vertical whatever the header says, and there are 16 KiB of
//! pattern RAM: `$0000-$0FFF` always has its first 4 KiB, `$1000-$1FFF` the 4 KiB that the low
//! two bits of a write to `$8000-$FFFF` select.
use vstd::prelude::*;

use crate::mapper::{Mapper, NametableSource, NametableWriteTarget, PpuFetchKind};
use crate::mem::{byte_at, copied, poke, poked, read_at, reload, reloaded, zeroed, zeros};
use crate::rom::{Cartridge, Mirroring};
use crate::save_state::mapper::{CpromSnap, MapperState};
use crate::save_state::SaveStateError;

verus! {

pub struct Cprom {
    pub prg_rom: Vec<u8>,
    pub chr_ram: Vec<u8>,
    pub upper_bank: u8,
    pub prg_len: usize,
}

/// The state of an [`Cprom`] board.
#[verifier::ext_equal]
pub struct CpromState {
    pub prg_rom: Seq<u8>,
    pub chr_ram: Seq<u8>,
    pub upper_bank: u8,
    pub prg_len: usize,
}

impl View for Cprom {
    type V = CpromState;

    open spec fn view(&self) -> CpromState {
        CpromState {
            prg_rom: self.prg_rom@,
            chr_ram: self.chr_ram@,
            upper_bank: self.upper_bank,
            prg_len: self.prg_len,
        }
    }
}

impl CpromState {
    pub open spec fn power_on(cart: Cartridge) -> CpromState {
        CpromState {
            prg_rom: cart.prg_rom@,
            chr_ram: zeros(0x4000),
            upper_bank: 0,
            prg_len: cart.prg_rom@.len() as usize,
        }
    }

    /// The ROM fills the window, repeated where it is smaller.
    pub open spec fn rom_byte(self, addr: u16) -> u8 {
        if self.prg_len == 0 {
            0
        } else {
            self.prg_rom[(addr - 0x8000) % self.prg_len as int]
        }
    }

    pub open spec fn chr_index(self, addr: u16) -> int {
        if addr < 0x1000 {
            addr as int
        } else {
            self.upper_bank * 0x1000 + (addr - 0x1000)
        }
    }

    /// Whether `snap` was taken in this state.
    pub open spec fn captured(self, snap: CpromSnap) -> bool {
        &&& snap.chr_ram_data@ == self.chr_ram
        &&& snap.upper_bank == self.upper_bank
    }

    /// The board with what `snap` holds.
    pub open spec fn restored(self, snap: CpromSnap) -> CpromState {
        CpromState {
            chr_ram: reloaded(self.chr_ram, snap.chr_ram_data@),
            upper_bank: snap.upper_bank,
            ..self
        }
    }

    /// Whether `other` is the same cart, at another time.
    pub open spec fn same_cart(self, other: CpromState) -> bool {
        &&& other.chr_ram.len() == self.chr_ram.len()
        &&& other.prg_rom == self.prg_rom
        &&& other.prg_len == self.prg_len
    }
}

impl Cprom {
    pub fn new(cart: Cartridge) -> (m: Self)
        ensures
            Self::ok(m@),
            m@ == CpromState::power_on(cart),
    {
        Cprom {
            prg_len: cart.prg_rom.len(),
            prg_rom: cart.prg_rom,
            chr_ram: zeroed(0x4000),
            upper_bank: 0,
        }
    }

    fn prg_byte(&self, addr: u16) -> (byte: u8)
        requires
            Self::ok(self@),
            addr >= 0x8000,
        ensures
            byte == self@.rom_byte(addr),
    {
        if self.prg_len == 0 {
            return 0;
        }
        self.prg_rom[(addr - 0x8000) as usize % self.prg_len]
    }

    fn map_chr(&self, addr: u16) -> (i: usize)
        ensures
            i == self@.chr_index(addr),
    {
        if addr < 0x1000 {
            addr as usize
        } else {
            self.upper_bank as usize * 0x1000 + (addr - 0x1000) as usize
        }
    }
}

impl Mapper for Cprom {
    open spec fn ok(s: CpromState) -> bool {
        s.prg_len == s.prg_rom.len()
    }

    open spec fn cpu_byte(s: CpromState, addr: u16) -> u8 {
        if addr >= 0x8000 {
            s.rom_byte(addr)
        } else {
            0
        }
    }

    open spec fn after_cpu_write(s: CpromState, addr: u16, data: u8) -> CpromState {
        if addr >= 0x8000 {
            CpromState { upper_bank: data & 0x03, ..s }
        } else {
            s
        }
    }

    open spec fn ppu_byte(s: CpromState, addr: u16) -> u8 {
        if addr < 0x2000 {
            byte_at(s.chr_ram, s.chr_index(addr))
        } else {
            0
        }
    }

    open spec fn after_ppu_write(s: CpromState, addr: u16, data: u8) -> CpromState {
        if addr < 0x2000 {
            CpromState { chr_ram: poked(s.chr_ram, s.chr_index(addr), data), ..s }
        } else {
            s
        }
    }

    open spec fn mirrored(s: CpromState) -> Mirroring {
        Mirroring::Vertical
    }

    fn cpu_read(&mut self, addr: u16) -> (byte: u8) {
        self.cpu_peek(addr)
    }

    fn cpu_peek(&self, addr: u16) -> (byte: u8) {
        if addr >= 0x8000 {
            self.prg_byte(addr)
        } else {
            0
        }
    }

    fn cpu_write(&mut self, addr: u16, data: u8) {
        if addr >= 0x8000 {
            self.upper_bank = data & 0x03;
        }
    }

    fn ppu_read(&mut self, addr: u16) -> (byte: u8) {
        if addr < 0x2000 {
            read_at(&self.chr_ram, self.map_chr(addr))
        } else {
            0
        }
    }

    fn ppu_write(&mut self, addr: u16, data: u8) {
        if addr < 0x2000 {
            let i: usize = self.map_chr(addr);
            poke(&mut self.chr_ram, i, data);
        }
    }

    fn mirroring(&self) -> (mode: Mirroring) {
        Mirroring::Vertical
    }

    fn cpu_read_ex(&mut self, addr: u16) -> (byte: Option<u8>) {
        None
    }

    fn on_cpu_cycle(&mut self) {
    }

    fn irq_line(&self) -> (asserted: bool) {
        false
    }

    open spec fn captures(s: CpromState, state: Option<MapperState>) -> bool {
        match state {
            Some(MapperState::Cprom(snap)) => s.captured(snap),
            _ => false,
        }
    }

    open spec fn after_apply(s: CpromState, state: MapperState) -> Option<CpromState> {
        match state {
            MapperState::Cprom(snap) => Some(s.restored(snap)),
            _ => None,
        }
    }

    fn save_state_capture(&self) -> (state: Option<MapperState>) {
        Some(MapperState::Cprom(CpromSnap {
            chr_ram_data: copied(&self.chr_ram),
            upper_bank: self.upper_bank,
        }))
    }

    fn save_state_apply(&mut self, state: &MapperState) -> (result: Result<(), SaveStateError>) {
        match state {
            MapperState::Cprom(snap) => {
                reload(&mut self.chr_ram, snap.chr_ram_data.as_slice());
                self.upper_bank = snap.upper_bank;
                Ok(())
            }
            _ => Err(SaveStateError::UnsupportedMapper(0)),
        }
    }

    fn ppu_nametable_read(&mut self, slot: u8, offset: u16) -> (source: NametableSource) {
        NametableSource::Default
    }

    fn ppu_nametable_write(&mut self, slot: u8, offset: u16, data: u8) -> (target: NametableWriteTarget) {
        NametableWriteTarget::Default
    }

    fn on_ppu_addr(&mut self, addr: u16, ppu_cycle: u64, kind: PpuFetchKind) {
    }

    fn save_data(&self) -> (bytes: Option<&[u8]>) {
        None
    }

    fn load_save_data(&mut self, data: &[u8]) {
    }

    fn save_dirty(&self) -> (dirty: bool) {
        false
    }

    fn mark_saved(&mut self) {
    }
}

/// A snapshot brings back the board it was taken from, whatever happened to it since.
pub proof fn lemma_cprom_round_trip(
    s: CpromState,
    later: CpromState,
    state: MapperState,
)
    requires
        Cprom::ok(s),
        Cprom::ok(later),
        s.same_cart(later),
        Cprom::captures(s, Some(state)),
    ensures
        Cprom::snapshot_ok(later, state),
        Cprom::after_apply(later, state) == Some(s),
{
}

/// No write changes the mirroring.
pub proof fn lemma_cprom_mirroring_is_fixed(s: CpromState, addr: u16, data: u8)
    ensures
        ({
            let written = Cprom::after_cpu_write(s, addr, data);
            let drawn = Cprom::after_ppu_write(s, addr, data);
            Cprom::mirrored(written) == Cprom::mirrored(s) && Cprom::mirrored(drawn) == Cprom::mirrored(s)
        }),
{
}

/// No write changes the cart's ROM.
pub proof fn lemma_cprom_rom_is_read_only(s: CpromState, addr: u16, data: u8)
    ensures
        Cprom::after_cpu_write(s, addr, data).prg_rom == s.prg_rom,
        Cprom::after_ppu_write(s, addr, data).prg_rom == s.prg_rom,
{
}

/// No write moves the bank at `$8000-$FFFF`.
pub proof fn lemma_cprom_fixed_bank(s: CpromState, addr: u16, data: u8, read: u16)
    requires
        Cprom::ok(s),
        read >= 0x8000,
    ensures
        ({
            let after = Cprom::after_cpu_write(s, addr, data);
            Cprom::cpu_byte(after, read) == Cprom::cpu_byte(s, read)
        }),
{
}

/// Pattern RAM gives back what was stored.
pub proof fn lemma_cprom_pattern_ram(s: CpromState, addr: u16, data: u8)
    requires
        Cprom::ok(s),
        addr < 0x2000,
        0 <= s.chr_index(addr) < s.chr_ram.len(),
    ensures
        ({
            let after = Cprom::after_ppu_write(s, addr, data);
            Cprom::ppu_byte(after, addr) == data
        }),
{
}

/// The first 4 KiB stay where they are.
pub proof fn lemma_lower_patterns_stay(s: CpromState, addr: u16, data: u8, read: u16)
    requires
        read < 0x1000,
    ensures
        Cprom::ppu_byte(Cprom::after_cpu_write(s, addr, data), read) == Cprom::ppu_byte(s, read),
{
}

} // verus!
