//! Irem LROG017 (iNES mapper 77).
//!
//! One latch at `$8000-$FFFF`, masked by the ROM byte under the write: the low nibble selects a
//! 32 KiB PRG bank, the high nibble the 2 KiB CHR-ROM bank at `$0000-$07FF`. The rest of the
//! pattern tables, `$0800-$1FFF`, is RAM. The cart has nametable RAM for four screens.
use vstd::prelude::*;

use crate::mapper::{Mapper, NametableSource, NametableWriteTarget, PpuFetchKind};
use crate::mem::{
    bank_count, byte_at, copied, count_banks, in_bank, poke, poked, read_at, reload, reloaded,
    wrapped_offset, zeroed, zeros,
};
use crate::rom::{Cartridge, Mirroring};
use crate::save_state::mapper::{IremLrog017Snap, MapperState};
use crate::save_state::SaveStateError;

verus! {

pub struct IremLrog017 {
    pub prg_rom: Vec<u8>,
    pub chr_rom: Vec<u8>,
    pub chr_ram: Vec<u8>,
    /// The latch, after the ROM's mask.
    pub reg: u8,
    pub prg_bank_count_32k: usize,
    pub chr_rom_bank_count_2k: usize,
}

/// The state of an [`IremLrog017`] board.
#[verifier::ext_equal]
pub struct IremLrog017State {
    pub prg_rom: Seq<u8>,
    pub chr_rom: Seq<u8>,
    pub chr_ram: Seq<u8>,
    pub reg: u8,
    pub prg_bank_count_32k: usize,
    pub chr_rom_bank_count_2k: usize,
}

impl View for IremLrog017 {
    type V = IremLrog017State;

    open spec fn view(&self) -> IremLrog017State {
        IremLrog017State {
            prg_rom: self.prg_rom@,
            chr_rom: self.chr_rom@,
            chr_ram: self.chr_ram@,
            reg: self.reg,
            prg_bank_count_32k: self.prg_bank_count_32k,
            chr_rom_bank_count_2k: self.chr_rom_bank_count_2k,
        }
    }
}

impl IremLrog017State {
    pub open spec fn power_on(cart: Cartridge) -> IremLrog017State {
        let chr_rom = if cart.chr_rom@.len() == 0 {
            zeros(0x800)
        } else {
            cart.chr_rom@
        };
        IremLrog017State {
            prg_rom: cart.prg_rom@,
            chr_rom,
            chr_ram: zeros(0x1800),
            reg: 0,
            prg_bank_count_32k: bank_count(cart.prg_rom@.len(), 0x8000) as usize,
            chr_rom_bank_count_2k: bank_count(chr_rom.len(), 0x800) as usize,
        }
    }

    pub open spec fn prg_index(self, addr: u16) -> int {
        in_bank((self.reg & 0x0F) as int % self.prg_bank_count_32k as int, 0x8000, addr as int)
    }

    pub open spec fn chr_rom_index(self, addr: u16) -> int {
        in_bank(((self.reg >> 4) & 0x0F) as int % self.chr_rom_bank_count_2k as int, 0x800, addr as int)
    }

    /// Whether `snap` was taken in this state.
    pub open spec fn captured(self, snap: IremLrog017Snap) -> bool {
        &&& snap.chr_ram_data@ == self.chr_ram
        &&& snap.reg == self.reg
    }

    /// The board with what `snap` holds.
    pub open spec fn restored(self, snap: IremLrog017Snap) -> IremLrog017State {
        IremLrog017State {
            chr_ram: reloaded(self.chr_ram, snap.chr_ram_data@),
            reg: snap.reg,
            ..self
        }
    }

    /// Whether `other` is the same cart, at another time.
    pub open spec fn same_cart(self, other: IremLrog017State) -> bool {
        &&& other.chr_ram.len() == self.chr_ram.len()
        &&& other.prg_rom == self.prg_rom
        &&& other.chr_rom == self.chr_rom
        &&& other.prg_bank_count_32k == self.prg_bank_count_32k
        &&& other.chr_rom_bank_count_2k == self.chr_rom_bank_count_2k
    }
}

impl IremLrog017 {
    pub fn new(cart: Cartridge) -> (m: Self)
        ensures
            Self::ok(m@),
            m@ == IremLrog017State::power_on(cart),
    {
        let chr_rom: Vec<u8> = if cart.chr_rom.len() == 0 { zeroed(0x800) } else { cart.chr_rom };
        IremLrog017 {
            prg_bank_count_32k: count_banks(&cart.prg_rom, 0x8000),
            chr_rom_bank_count_2k: count_banks(&chr_rom, 0x800),
            prg_rom: cart.prg_rom,
            chr_rom,
            chr_ram: zeroed(0x1800),
            reg: 0,
        }
    }

    fn prg_byte(&self, addr: u16) -> (byte: u8)
        requires
            Self::ok(self@),
        ensures
            byte == byte_at(self@.prg_rom, self@.prg_index(addr)),
    {
        let bank: usize = (self.reg & 0x0F) as usize;
        read_at(&self.prg_rom, wrapped_offset(&self.prg_rom, self.prg_bank_count_32k, bank, 0x8000, addr))
    }

    fn chr_rom_byte(&self, addr: u16) -> (byte: u8)
        requires
            Self::ok(self@),
        ensures
            byte == byte_at(self@.chr_rom, self@.chr_rom_index(addr)),
    {
        let bank: usize = ((self.reg >> 4) & 0x0F) as usize;
        read_at(&self.chr_rom, wrapped_offset(&self.chr_rom, self.chr_rom_bank_count_2k, bank, 0x800, addr))
    }
}

impl Mapper for IremLrog017 {
    open spec fn ok(s: IremLrog017State) -> bool {
        &&& s.prg_bank_count_32k == bank_count(s.prg_rom.len(), 0x8000)
        &&& s.chr_rom_bank_count_2k == bank_count(s.chr_rom.len(), 0x800)
    }

    open spec fn cpu_byte(s: IremLrog017State, addr: u16) -> u8 {
        if addr >= 0x8000 {
            byte_at(s.prg_rom, s.prg_index(addr))
        } else {
            0
        }
    }

    open spec fn after_cpu_write(s: IremLrog017State, addr: u16, data: u8) -> IremLrog017State {
        if addr >= 0x8000 {
            IremLrog017State { reg: data & Self::cpu_byte(s, addr), ..s }
        } else {
            s
        }
    }

    open spec fn ppu_byte(s: IremLrog017State, addr: u16) -> u8 {
        if addr < 0x800 {
            byte_at(s.chr_rom, s.chr_rom_index(addr))
        } else if addr < 0x2000 {
            byte_at(s.chr_ram, addr - 0x800)
        } else {
            0
        }
    }

    open spec fn after_ppu_write(s: IremLrog017State, addr: u16, data: u8) -> IremLrog017State {
        if 0x800 <= addr < 0x2000 {
            IremLrog017State { chr_ram: poked(s.chr_ram, addr - 0x800, data), ..s }
        } else {
            s
        }
    }

    open spec fn mirrored(s: IremLrog017State) -> Mirroring {
        Mirroring::FourScreen
    }

    fn cpu_read(&mut self, addr: u16) -> (byte: u8) {
        self.cpu_peek(addr)
    }

    fn cpu_peek(&self, addr: u16) -> (byte: u8) {
        if addr >= 0x8000 {
            self.prg_byte(addr)
        } else {
            0
        }
    }

    fn cpu_write(&mut self, addr: u16, data: u8) {
        if addr >= 0x8000 {
            self.reg = data & self.prg_byte(addr);
        }
    }

    fn ppu_read(&mut self, addr: u16) -> (byte: u8) {
        match addr {
            0x0000..=0x07FF => self.chr_rom_byte(addr),
            0x0800..=0x1FFF => read_at(&self.chr_ram, (addr - 0x0800) as usize),
            _ => 0,
        }
    }

    fn ppu_write(&mut self, addr: u16, data: u8) {
        if 0x0800 <= addr && addr <= 0x1FFF {
            poke(&mut self.chr_ram, (addr - 0x0800) as usize, data);
        }
    }

    fn mirroring(&self) -> (mode: Mirroring) {
        Mirroring::FourScreen
    }

    fn cpu_read_ex(&mut self, addr: u16) -> (byte: Option<u8>) {
        None
    }

    fn on_cpu_cycle(&mut self) {
    }

    fn irq_line(&self) -> (asserted: bool) {
        false
    }

    open spec fn captures(s: IremLrog017State, state: Option<MapperState>) -> bool {
        match state {
            Some(MapperState::IremLrog017(snap)) => s.captured(snap),
            _ => false,
        }
    }

    open spec fn after_apply(s: IremLrog017State, state: MapperState) -> Option<IremLrog017State> {
        match state {
            MapperState::IremLrog017(snap) => Some(s.restored(snap)),
            _ => None,
        }
    }

    fn save_state_capture(&self) -> (state: Option<MapperState>) {
        Some(MapperState::IremLrog017(IremLrog017Snap {
            chr_ram_data: copied(&self.chr_ram),
            reg: self.reg,
        }))
    }

    fn save_state_apply(&mut self, state: &MapperState) -> (result: Result<(), SaveStateError>) {
        match state {
            MapperState::IremLrog017(snap) => {
                reload(&mut self.chr_ram, snap.chr_ram_data.as_slice());
                self.reg = snap.reg;
                Ok(())
            }
            _ => Err(SaveStateError::UnsupportedMapper(0)),
        }
    }

    fn ppu_nametable_read(&mut self, slot: u8, offset: u16) -> (source: NametableSource) {
        NametableSource::Default
    }

    fn ppu_nametable_write(&mut self, slot: u8, offset: u16, data: u8) -> (target: NametableWriteTarget) {
        NametableWriteTarget::Default
    }

    fn on_ppu_addr(&mut self, addr: u16, ppu_cycle: u64, kind: PpuFetchKind) {
    }

    fn save_data(&self) -> (bytes: Option<&[u8]>) {
        None
    }

    fn load_save_data(&mut self, data: &[u8]) {
    }

    fn save_dirty(&self) -> (dirty: bool) {
        false
    }

    fn mark_saved(&mut self) {
    }
}

/// A snapshot brings back the board it was taken from, whatever happened to it since.
pub proof fn lemma_irem_lrog017_round_trip(
    s: IremLrog017State,
    later: IremLrog017State,
    state: MapperState,
)
    requires
        IremLrog017::ok(s),
        IremLrog017::ok(later),
        s.same_cart(later),
        IremLrog017::captures(s, Some(state)),
    ensures
        IremLrog017::snapshot_ok(later, state),
        IremLrog017::after_apply(later, state) == Some(s),
{
}

/// No write changes the mirroring.
pub proof fn lemma_irem_lrog017_mirroring_is_fixed(s: IremLrog017State, addr: u16, data: u8)
    ensures
        ({
            let written = IremLrog017::after_cpu_write(s, addr, data);
            let drawn = IremLrog017::after_ppu_write(s, addr, data);
            IremLrog017::mirrored(written) == IremLrog017::mirrored(s) && IremLrog017::mirrored(drawn) == IremLrog017::mirrored(s)
        }),
{
}

/// No write changes the cart's ROM.
pub proof fn lemma_irem_lrog017_rom_is_read_only(s: IremLrog017State, addr: u16, data: u8)
    ensures
        IremLrog017::after_cpu_write(s, addr, data).prg_rom == s.prg_rom,
        IremLrog017::after_ppu_write(s, addr, data).prg_rom == s.prg_rom,
        IremLrog017::after_ppu_write(s, addr, data).chr_rom == s.chr_rom,
{
}

/// Pattern RAM gives back what was stored, and a bank switch does not move it.
pub proof fn lemma_lrog017_pattern_ram(s: IremLrog017State, addr: u16, data: u8, at: u16, latch: u8)
    requires
        s.chr_ram.len() == 0x1800,
        0x800 <= addr < 0x2000,
    ensures
        IremLrog017::ppu_byte(IremLrog017::after_ppu_write(s, addr, data), addr) == data,
        IremLrog017::ppu_byte(IremLrog017::after_cpu_write(s, at, latch), addr) == IremLrog017::ppu_byte(s, addr),
{
}

} // verus!
