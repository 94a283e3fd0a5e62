//! CNROM with a diode array that hides the pattern ROM (iNES mapper 185).
//!
//! PRG-ROM, pattern ROM and mirroring are fixed. A write to `$8000-$FFFF` latches a byte, masked
//! by the ROM byte under it, and the diodes let the pattern ROM answer only for some latched
//! values. While they do not, the PPU reads `$FF`. At power-on they do not.
use vstd::prelude::*;

use crate::mapper::{Mapper, NametableSource, NametableWriteTarget, PpuFetchKind};
use crate::mem::{byte_or, read_or, zeroed, zeros};
use crate::rom::{Cartridge, Mirroring};
use crate::save_state::mapper::{CnromProtectSnap, MapperState};
use crate::save_state::SaveStateError;

verus! {

pub struct CnromProtect {
    pub prg_rom: Vec<u8>,
    pub chr_rom: Vec<u8>,
    /// Submappers 4 to 7 name the two low bits that unlock; any other goes by a heuristic.
    pub submapper: u8,
    /// The latch, after the ROM's mask. At power-on it holds a value that locks.
    pub latch: u8,
    pub mirroring: Mirroring,
}

/// The state of an [`CnromProtect`] board.
#[verifier::ext_equal]
pub struct CnromProtectState {
    pub prg_rom: Seq<u8>,
    pub chr_rom: Seq<u8>,
    pub submapper: u8,
    pub latch: u8,
    pub mirroring: Mirroring,
}

impl View for CnromProtect {
    type V = CnromProtectState;

    open spec fn view(&self) -> CnromProtectState {
        CnromProtectState {
            prg_rom: self.prg_rom@,
            chr_rom: self.chr_rom@,
            submapper: self.submapper,
            latch: self.latch,
            mirroring: self.mirroring,
        }
    }
}

/// A latch value that locks: zero, but for submapper 4, to which it is a key.
pub open spec fn boot_latch(submapper: u8) -> u8 {
    if submapper == 4 {
        1
    } else {
        0
    }
}

impl CnromProtectState {
    pub open spec fn power_on(cart: Cartridge) -> CnromProtectState {
        CnromProtectState {
            prg_rom: cart.prg_rom@,
            chr_rom: if cart.chr_rom@.len() == 0 { zeros(0x2000) } else { cart.chr_rom@ },
            submapper: cart.submapper,
            latch: boot_latch(cart.submapper),
            mirroring: cart.mirroring,
        }
    }

    pub open spec fn unlocked(self) -> bool {
        if 4 <= self.submapper <= 7 {
            self.latch & 0x03 == self.submapper - 4
        } else {
            self.latch & 0x0F != 0 && self.latch != 0x13
        }
    }

    /// The ROM fills the window, repeated where it is smaller.
    pub open spec fn rom_byte(self, addr: u16) -> u8 {
        if self.prg_rom.len() == 0 {
            0
        } else {
            self.prg_rom[(addr - 0x8000) % self.prg_rom.len() as int]
        }
    }

    /// Whether `snap` was taken in this state.
    pub open spec fn captured(self, snap: CnromProtectSnap) -> bool {
        &&& snap.latch == self.latch
        &&& snap.submapper == self.submapper
    }

    /// Whether `snap` is of this variant of the board.
    pub open spec fn accepts(self, snap: CnromProtectSnap) -> bool {
        snap.submapper == self.submapper
    }

    /// The board with what `snap` holds.
    pub open spec fn restored(self, snap: CnromProtectSnap) -> CnromProtectState {
        CnromProtectState {
            latch: snap.latch,
            ..self
        }
    }

    /// Whether `other` is the same cart, at another time.
    pub open spec fn same_cart(self, other: CnromProtectState) -> bool {
        &&& other.prg_rom == self.prg_rom
        &&& other.chr_rom == self.chr_rom
        &&& other.submapper == self.submapper
        &&& other.mirroring == self.mirroring
    }
}

impl CnromProtect {
    pub fn new(cart: Cartridge) -> (m: Self)
        ensures
            m@ == CnromProtectState::power_on(cart),
    {
        let chr_rom: Vec<u8> = if cart.chr_rom.len() == 0 { zeroed(0x2000) } else { cart.chr_rom };
        CnromProtect {
            prg_rom: cart.prg_rom,
            chr_rom,
            submapper: cart.submapper,
            latch: if cart.submapper == 4 { 1 } else { 0 },
            mirroring: cart.mirroring,
        }
    }

    fn chr_enabled(&self) -> (enabled: bool)
        ensures
            enabled == self@.unlocked(),
    {
        match self.submapper {
            4 => self.latch & 0x03 == 0,
            5 => self.latch & 0x03 == 1,
            6 => self.latch & 0x03 == 2,
            7 => self.latch & 0x03 == 3,
            _ => self.latch & 0x0F != 0 && self.latch != 0x13,
        }
    }

    fn prg_byte(&self, addr: u16) -> (byte: u8)
        requires
            addr >= 0x8000,
        ensures
            byte == self@.rom_byte(addr),
    {
        let len: usize = self.prg_rom.len();
        if len == 0 {
            return 0;
        }
        self.prg_rom[(addr - 0x8000) as usize % len]
    }
}

impl Mapper for CnromProtect {
    open spec fn ok(s: CnromProtectState) -> bool {
        true
    }

    open spec fn cpu_byte(s: CnromProtectState, addr: u16) -> u8 {
        if addr >= 0x8000 {
            s.rom_byte(addr)
        } else {
            0
        }
    }

    open spec fn after_cpu_write(s: CnromProtectState, addr: u16, data: u8) -> CnromProtectState {
        if addr >= 0x8000 {
            CnromProtectState { latch: data & s.rom_byte(addr), ..s }
        } else {
            s
        }
    }

    open spec fn ppu_byte(s: CnromProtectState, addr: u16) -> u8 {
        if addr >= 0x2000 {
            0
        } else if s.unlocked() {
            byte_or(s.chr_rom, addr as int, 0xFF)
        } else {
            0xFF
        }
    }

    open spec fn after_ppu_write(s: CnromProtectState, addr: u16, data: u8) -> CnromProtectState {
        s
    }

    fn cpu_read(&mut self, addr: u16) -> (byte: u8) {
        self.cpu_peek(addr)
    }

    fn cpu_peek(&self, addr: u16) -> (byte: u8) {
        if addr >= 0x8000 {
            self.prg_byte(addr)
        } else {
            0
        }
    }

    fn cpu_write(&mut self, addr: u16, data: u8) {
        if addr >= 0x8000 {
            self.latch = data & self.prg_byte(addr);
        }
    }

    fn ppu_read(&mut self, addr: u16) -> (byte: u8) {
        if addr < 0x2000 {
            if self.chr_enabled() {
                read_or(&self.chr_rom, addr as usize, 0xFF)
            } else {
                0xFF
            }
        } else {
            0
        }
    }

    fn ppu_write(&mut self, addr: u16, data: u8) {
    }

    open spec fn mirrored(s: CnromProtectState) -> Mirroring {
        s.mirroring
    }

    fn mirroring(&self) -> (mode: Mirroring) {
        self.mirroring
    }

    fn cpu_read_ex(&mut self, addr: u16) -> (byte: Option<u8>) {
        None
    }

    fn on_cpu_cycle(&mut self) {
    }

    fn irq_line(&self) -> (asserted: bool) {
        false
    }

    open spec fn captures(s: CnromProtectState, state: Option<MapperState>) -> bool {
        match state {
            Some(MapperState::CnromProtect(snap)) => s.captured(snap),
            _ => false,
        }
    }

    open spec fn after_apply(s: CnromProtectState, state: MapperState) -> Option<CnromProtectState> {
        match state {
            MapperState::CnromProtect(snap) => if s.accepts(snap) {
                Some(s.restored(snap))
            } else {
                None
            },
            _ => None,
        }
    }

    fn save_state_capture(&self) -> (state: Option<MapperState>) {
        Some(MapperState::CnromProtect(CnromProtectSnap {
            latch: self.latch,
            submapper: self.submapper,
        }))
    }

    fn save_state_apply(&mut self, state: &MapperState) -> (result: Result<(), SaveStateError>) {
        match state {
            MapperState::CnromProtect(snap) => {
                if snap.submapper != self.submapper {
                    return Err(SaveStateError::UnsupportedMapper(0));
                }
                self.latch = snap.latch;
                Ok(())
            }
            _ => Err(SaveStateError::UnsupportedMapper(0)),
        }
    }

    fn ppu_nametable_read(&mut self, slot: u8, offset: u16) -> (source: NametableSource) {
        NametableSource::Default
    }

    fn ppu_nametable_write(&mut self, slot: u8, offset: u16, data: u8) -> (target: NametableWriteTarget) {
        NametableWriteTarget::Default
    }

    fn on_ppu_addr(&mut self, addr: u16, ppu_cycle: u64, kind: PpuFetchKind) {
    }

    fn save_data(&self) -> (bytes: Option<&[u8]>) {
        None
    }

    fn load_save_data(&mut self, data: &[u8]) {
    }

    fn save_dirty(&self) -> (dirty: bool) {
        false
    }

    fn mark_saved(&mut self) {
    }
}

/// A snapshot brings back the board it was taken from, whatever happened to it since.
pub proof fn lemma_cnrom_protect_round_trip(
    s: CnromProtectState,
    later: CnromProtectState,
    state: MapperState,
)
    requires
        CnromProtect::ok(s),
        CnromProtect::ok(later),
        s.same_cart(later),
        CnromProtect::captures(s, Some(state)),
    ensures
        CnromProtect::snapshot_ok(later, state),
        CnromProtect::after_apply(later, state) == Some(s),
{
}

/// No write changes the mirroring.
pub proof fn lemma_cnrom_protect_mirroring_is_fixed(s: CnromProtectState, addr: u16, data: u8)
    ensures
        ({
            let written = CnromProtect::after_cpu_write(s, addr, data);
            let drawn = CnromProtect::after_ppu_write(s, addr, data);
            CnromProtect::mirrored(written) == CnromProtect::mirrored(s) && CnromProtect::mirrored(drawn) == CnromProtect::mirrored(s)
        }),
{
}

/// No write changes the cart's ROM.
pub proof fn lemma_cnrom_protect_rom_is_read_only(s: CnromProtectState, addr: u16, data: u8)
    ensures
        CnromProtect::after_cpu_write(s, addr, data).prg_rom == s.prg_rom,
        CnromProtect::after_ppu_write(s, addr, data).prg_rom == s.prg_rom,
        CnromProtect::after_ppu_write(s, addr, data).chr_rom == s.chr_rom,
{
}

/// At power-on the pattern ROM is hidden, whatever the submapper, and it stays hidden until
/// something is written to `$8000-$FFFF`.
pub proof fn lemma_locked_at_power_on(cart: Cartridge, addr: u16, written: u16, data: u8)
    requires
        addr < 0x2000,
    ensures
        ({
            let s = CnromProtectState::power_on(cart);
            &&& !s.unlocked()
            &&& CnromProtect::ppu_byte(s, addr) == 0xFF
            &&& written < 0x8000 ==> CnromProtect::after_cpu_write(s, written, data) == s
            &&& CnromProtect::after_ppu_write(s, written, data) == s
            &&& CnromProtect::after_cpu_cycle(s) == s
        }),
{
    crate::bits::lemma_byte_fields(0);
    crate::bits::lemma_byte_fields(1);
}

} // verus!
