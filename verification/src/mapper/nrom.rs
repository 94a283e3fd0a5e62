//! NROM: no banking at all (iNES mapper 0).
use vstd::prelude::*;

use crate::mapper::{Mapper, NametableSource, NametableWriteTarget, PpuFetchKind};
use crate::mem::{
    byte_at, dirtied, poke, poke_ram, poked, ram_fits, ram_size, read_at, reload, reloaded,
    work_ram, zeros,
};
use crate::rom::{Cartridge, Mirroring};
use crate::save_state::mapper::MapperState;
use crate::save_state::SaveStateError;

verus! {

pub struct Nrom {
    pub prg_rom: Vec<u8>,
    pub chr: Vec<u8>,
    pub prg_ram: Vec<u8>,
    pub mirroring: Mirroring,
    pub chr_ram: bool,
    pub prg_mask: usize,
    pub battery: bool,
    pub save_dirty: bool,
}

/// The state of an [`Nrom`] board.
#[verifier::ext_equal]
pub struct NromState {
    pub prg_rom: Seq<u8>,
    pub chr: Seq<u8>,
    pub prg_ram: Seq<u8>,
    pub mirroring: Mirroring,
    pub chr_ram: bool,
    pub prg_mask: usize,
    pub battery: bool,
    pub save_dirty: bool,
}

impl View for Nrom {
    type V = NromState;

    open spec fn view(&self) -> NromState {
        NromState {
            prg_rom: self.prg_rom@,
            chr: self.chr@,
            prg_ram: self.prg_ram@,
            mirroring: self.mirroring,
            chr_ram: self.chr_ram,
            prg_mask: self.prg_mask,
            battery: self.battery,
            save_dirty: self.save_dirty,
        }
    }
}

impl NromState {
    pub open spec fn power_on(cart: Cartridge) -> NromState {
        NromState {
            prg_rom: cart.prg_rom@,
            chr: cart.chr_rom@,
            prg_ram: zeros(ram_size(cart, 0x2000)),
            mirroring: cart.mirroring,
            chr_ram: cart.chr_ram,
            prg_mask: if cart.prg_rom@.len() > 0 { (cart.prg_rom@.len() - 1) as usize } else { 0 },
            battery: cart.battery_backed,
            save_dirty: false,
        }
    }

    /// Position of a `$8000-$FFFF` address in PRG-ROM: the address wraps by masking.
    pub open spec fn prg_index(self, addr: u16) -> int {
        ((addr - 0x8000) as usize & self.prg_mask) as int
    }

    pub open spec fn chr_index(self, addr: u16) -> int {
        addr as int
    }

    /// The board with battery RAM from a save; data of another length is ignored.
    pub open spec fn loaded(self, data: Seq<u8>) -> NromState {
        if self.battery {
            NromState { prg_ram: reloaded(self.prg_ram, data), ..self }
        } else {
            self
        }
    }
}

impl Nrom {
    pub fn new(cart: Cartridge) -> (m: Self)
        requires
            ram_fits(cart),
        ensures
            cart.prg_rom@.len() > 0 ==> Self::ok(m@),
            m@ == NromState::power_on(cart),
    {
        let prg_mask: usize = cart.prg_rom.len().saturating_sub(1);
        Nrom {
            prg_mask,
            prg_ram: work_ram(cart.prg_ram_size, cart.prg_nvram_size, 0x2000),
            prg_rom: cart.prg_rom,
            chr: cart.chr_rom,
            mirroring: cart.mirroring,
            chr_ram: cart.chr_ram,
            battery: cart.battery_backed,
            save_dirty: false,
        }
    }

    fn map_chr(&self, addr: u16) -> (i: usize)
        ensures
            i == self@.chr_index(addr),
    {
        addr as usize
    }
}

impl Mapper for Nrom {
    /// There is PRG-ROM to run, and the mask takes in all of it.
    open spec fn ok(s: NromState) -> bool {
        s.prg_rom.len() > 0 && s.prg_mask == s.prg_rom.len() - 1
    }

    open spec fn cpu_byte(s: NromState, addr: u16) -> u8 {
        if addr >= 0x8000 {
            s.prg_rom[s.prg_index(addr)]
        } else if addr >= 0x6000 {
            byte_at(s.prg_ram, addr - 0x6000)
        } else {
            0
        }
    }

    open spec fn after_cpu_write(s: NromState, addr: u16, data: u8) -> NromState {
        if 0x6000 <= addr < 0x8000 {
            NromState {
                prg_ram: poked(s.prg_ram, addr - 0x6000, data),
                save_dirty: dirtied(s.prg_ram, s.battery, s.save_dirty, addr - 0x6000, data),
                ..s
            }
        } else {
            s
        }
    }

    open spec fn ppu_byte(s: NromState, addr: u16) -> u8 {
        if addr < 0x2000 {
            byte_at(s.chr, s.chr_index(addr))
        } else {
            0
        }
    }

    open spec fn after_ppu_write(s: NromState, addr: u16, data: u8) -> NromState {
        if s.chr_ram && addr < 0x2000 {
            NromState { chr: poked(s.chr, s.chr_index(addr), data), ..s }
        } else {
            s
        }
    }

    fn cpu_read(&mut self, addr: u16) -> (byte: u8) {
        self.cpu_peek(addr)
    }

    fn cpu_peek(&self, addr: u16) -> (byte: u8) {
        match addr {
            0x6000..=0x7FFF => read_at(&self.prg_ram, (addr - 0x6000) as usize),
            0x8000..=0xFFFF => {
                let i: usize = (addr - 0x8000) as usize & self.prg_mask;
                proof {
                    crate::bits::lemma_mask_usize((addr - 0x8000) as usize, self.prg_mask);
                }
                self.prg_rom[i]
            }
            _ => 0,
        }
    }

    fn cpu_write(&mut self, addr: u16, data: u8) {
        if let 0x6000..=0x7FFF = addr {
            poke_ram(&mut self.prg_ram, &mut self.save_dirty, self.battery, (addr - 0x6000) as usize, data);
        }
    }

    fn ppu_read(&mut self, addr: u16) -> (byte: u8) {
        if addr < 0x2000 {
            read_at(&self.chr, self.map_chr(addr))
        } else {
            0
        }
    }

    fn ppu_write(&mut self, addr: u16, data: u8) {
        if self.chr_ram && addr < 0x2000 {
            let i: usize = self.map_chr(addr);
            poke(&mut self.chr, i, data);
        }
    }

    open spec fn mirrored(s: NromState) -> Mirroring {
        s.mirroring
    }

    fn mirroring(&self) -> (mode: Mirroring) {
        self.mirroring
    }

    fn cpu_read_ex(&mut self, addr: u16) -> (byte: Option<u8>) {
        None
    }

    fn on_cpu_cycle(&mut self) {
    }

    fn irq_line(&self) -> (asserted: bool) {
        false
    }

    open spec fn battery_bytes(s: NromState) -> Option<Seq<u8>> {
        if s.battery {
            Some(s.prg_ram)
        } else {
            None
        }
    }

    open spec fn after_load(s: NromState, data: Seq<u8>) -> NromState {
        s.loaded(data)
    }

    open spec fn save_due(s: NromState) -> bool {
        s.save_dirty
    }

    open spec fn after_save(s: NromState) -> NromState {
        NromState { save_dirty: false, ..s }
    }

    fn save_data(&self) -> (bytes: Option<&[u8]>) {
        if self.battery {
            Some(self.prg_ram.as_slice())
        } else {
            None
        }
    }

    fn load_save_data(&mut self, data: &[u8]) {
        if self.battery {
            reload(&mut self.prg_ram, data);
        }
    }

    fn save_dirty(&self) -> (dirty: bool) {
        self.save_dirty
    }

    fn mark_saved(&mut self) {
        self.save_dirty = false;
    }

    fn ppu_nametable_read(&mut self, slot: u8, offset: u16) -> (source: NametableSource) {
        NametableSource::Default
    }

    fn ppu_nametable_write(&mut self, slot: u8, offset: u16, data: u8) -> (target: NametableWriteTarget) {
        NametableWriteTarget::Default
    }

    fn on_ppu_addr(&mut self, addr: u16, ppu_cycle: u64, kind: PpuFetchKind) {
    }

    fn save_state_capture(&self) -> (state: Option<MapperState>) {
        None
    }

    fn save_state_apply(&mut self, state: &MapperState) -> (result: Result<(), SaveStateError>) {
        Err(SaveStateError::UnsupportedMapper(0))
    }
}

/// No write changes the mirroring.
pub proof fn lemma_nrom_mirroring_is_fixed(s: NromState, addr: u16, data: u8)
    ensures
        ({
            let written = Nrom::after_cpu_write(s, addr, data);
            let drawn = Nrom::after_ppu_write(s, addr, data);
            Nrom::mirrored(written) == Nrom::mirrored(s) && Nrom::mirrored(drawn) == Nrom::mirrored(s)
        }),
{
}

/// No write changes the cart's ROM.
pub proof fn lemma_nrom_rom_is_read_only(s: NromState, addr: u16, data: u8)
    ensures
        Nrom::after_cpu_write(s, addr, data).prg_rom == s.prg_rom,
        Nrom::after_ppu_write(s, addr, data).prg_rom == s.prg_rom,
        !s.chr_ram ==> Nrom::after_ppu_write(s, addr, data).chr == s.chr,
{
}

/// No write moves the bank at `$8000-$FFFF`.
pub proof fn lemma_nrom_fixed_bank(s: NromState, addr: u16, data: u8, read: u16)
    requires
        Nrom::ok(s),
        read >= 0x8000,
    ensures
        ({
            let after = Nrom::after_cpu_write(s, addr, data);
            Nrom::cpu_byte(after, read) == Nrom::cpu_byte(s, read)
        }),
{
}

/// Pattern RAM gives back what was stored.
pub proof fn lemma_nrom_pattern_ram(s: NromState, addr: u16, data: u8)
    requires
        Nrom::ok(s),
        s.chr_ram,
        addr < 0x2000,
        0 <= s.chr_index(addr) < s.chr.len(),
    ensures
        ({
            let after = Nrom::after_ppu_write(s, addr, data);
            Nrom::ppu_byte(after, addr) == data
        }),
{
}

/// Work RAM gives back what was stored; a battery save is due exactly when a byte changed.
pub proof fn lemma_nrom_work_ram(s: NromState, addr: u16, data: u8)
    requires
        Nrom::ok(s),
        0x6000 <= addr < 0x8000,
        addr - 0x6000 < s.prg_ram.len(),
    ensures
        ({
            let after = Nrom::after_cpu_write(s, addr, data);
            let changed = Nrom::cpu_byte(s, addr) != data;
            &&& Nrom::cpu_byte(after, addr) == data
            &&& !Nrom::save_due(s) ==> Nrom::save_due(after) == (s.battery && changed)
        }),
{
}

/// A save of one cart loaded into another of the same size brings the RAM over; a save of another
/// size changes nothing. Once saved, no save is due.
pub proof fn lemma_nrom_save_round_trip(s: NromState, fresh: NromState, other: Seq<u8>)
    requires
        s.battery,
        fresh.battery,
        fresh.prg_ram.len() == s.prg_ram.len(),
        other.len() != s.prg_ram.len(),
    ensures
        Nrom::battery_bytes(Nrom::after_load(fresh, s.prg_ram)) == Nrom::battery_bytes(s),
        Nrom::after_load(s, other) == s,
        !Nrom::save_due(Nrom::after_save(s)),
{
}

/// 16 KiB of PRG-ROM appear twice, 32 KiB once.
pub proof fn lemma_nrom_windows(s: NromState, addr: u16)
    requires
        Nrom::ok(s),
        s.prg_rom.len() == 0x4000 || s.prg_rom.len() == 0x8000,
        addr >= 0x8000,
    ensures
        Nrom::cpu_byte(s, addr) == s.prg_rom[(addr - 0x8000) % s.prg_rom.len() as int],
        Nrom::peeked(s, addr) == s.prg_rom[(addr - 0x8000) % s.prg_rom.len() as int],
{
    let x = (addr - 0x8000) as usize;
    crate::bits::lemma_wrap_masks(x);
}

} // verus!
