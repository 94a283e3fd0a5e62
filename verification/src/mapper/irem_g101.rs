//! Irem G-101 (iNES mapper 32).
//!
//! Registers repeat over `$8000-$BFFF`, four to a 4 KiB page:
//!
//! | page | effect |
//! |---|---|
//! | `$8000` | PRG register 0, 5 bits |
//! | `$9000` | bit 0: mirroring, vertical or horizontal; bit 1: PRG mode |
//! | `$A000` | PRG register 1, 5 bits |
//! | `$B000` | CHR register of the low three address bits |
//!
//! The four 8 KiB windows from `$8000` have, in mode 0, register 0, register 1, the last bank but
//! one and the last bank; mode 1 swaps the first with the third. Submapper 1 is a board without
//! the `$9000` register whose mirroring is fixed to the upper page.
use vstd::prelude::*;

use crate::mapper::{Mapper, NametableSource, NametableWriteTarget, PpuFetchKind};
use crate::mem::{
    bank_count, byte_at, chr_image, count_banks, dirtied, has_chr_ram, in_bank, masked_offset, poke,
    poke_ram, poked, ram_fits, ram_size, read_at, reload, reloaded, take_chr, work_ram, zeros,
};
use crate::rom::{Cartridge, Mirroring};
use crate::save_state::mapper::MapperState;
use crate::save_state::SaveStateError;

verus! {

pub struct IremG101 {
    pub prg_rom: Vec<u8>,
    pub chr: Vec<u8>,
    pub prg_ram: Vec<u8>,
    pub chr_ram: bool,
    pub major_league: bool,
    pub mirroring: Mirroring,
    pub prg_mode: u8,
    pub prg_reg0: u8,
    pub prg_reg1: u8,
    pub chr_regs: [u8; 8],
    /// Number of 8 KiB PRG banks less one; banks are selected by masking with it.
    pub prg_bank_mask: usize,
    /// Number of 1 KiB CHR banks less one.
    pub chr_bank_mask: usize,
    pub battery: bool,
    pub save_dirty: bool,
}

/// The state of an [`IremG101`] board.
#[verifier::ext_equal]
pub struct IremG101State {
    pub prg_rom: Seq<u8>,
    pub chr: Seq<u8>,
    pub prg_ram: Seq<u8>,
    pub chr_ram: bool,
    pub major_league: bool,
    pub mirroring: Mirroring,
    pub prg_mode: u8,
    pub prg_reg0: u8,
    pub prg_reg1: u8,
    pub chr_regs: Seq<u8>,
    pub prg_bank_mask: usize,
    pub chr_bank_mask: usize,
    pub battery: bool,
    pub save_dirty: bool,
}

impl View for IremG101 {
    type V = IremG101State;

    open spec fn view(&self) -> IremG101State {
        IremG101State {
            prg_rom: self.prg_rom@,
            chr: self.chr@,
            prg_ram: self.prg_ram@,
            chr_ram: self.chr_ram,
            major_league: self.major_league,
            mirroring: self.mirroring,
            prg_mode: self.prg_mode,
            prg_reg0: self.prg_reg0,
            prg_reg1: self.prg_reg1,
            chr_regs: self.chr_regs@,
            prg_bank_mask: self.prg_bank_mask,
            chr_bank_mask: self.chr_bank_mask,
            battery: self.battery,
            save_dirty: self.save_dirty,
        }
    }
}

impl IremG101State {
    pub open spec fn power_on(cart: Cartridge) -> IremG101State {
        IremG101State {
            prg_rom: cart.prg_rom@,
            chr: chr_image(cart, 0x2000),
            prg_ram: zeros(ram_size(cart, 0x2000)),
            chr_ram: has_chr_ram(cart),
            major_league: cart.submapper == 1,
            mirroring: if cart.submapper == 1 { Mirroring::SingleScreenUpper } else { cart.mirroring },
            prg_mode: 0,
            prg_reg0: 0,
            prg_reg1: 0,
            chr_regs: zeros(8),
            prg_bank_mask: (bank_count(cart.prg_rom@.len(), 0x2000) - 1) as usize,
            chr_bank_mask: (bank_count(chr_image(cart, 0x2000).len(), 0x400) - 1) as usize,
            battery: cart.battery_backed,
            save_dirty: false,
        }
    }

    pub open spec fn second_last(self) -> usize {
        if self.prg_bank_mask > 0 {
            (self.prg_bank_mask - 1) as usize
        } else {
            0
        }
    }

    /// What the four windows select, before the mask.
    pub open spec fn selector(self, slot: int) -> usize {
        if slot == 3 {
            self.prg_bank_mask
        } else if slot == 1 {
            self.prg_reg1 as usize
        } else if (slot == 0) == (self.prg_mode == 0) {
            self.prg_reg0 as usize
        } else {
            self.second_last()
        }
    }

    pub open spec fn prg_index(self, addr: u16) -> int {
        in_bank((self.selector((addr - 0x8000) / 0x2000) & self.prg_bank_mask) as int, 0x2000, addr as int)
    }

    pub open spec fn chr_index(self, addr: u16) -> int {
        in_bank((self.chr_regs[addr as int / 0x400] as usize & self.chr_bank_mask) as int, 0x400, addr as int)
    }

    /// The board after a write to a register.
    pub open spec fn wrote_register(self, addr: u16, data: u8) -> IremG101State {
        let page = addr / 0x1000;
        if page == 0x8 {
            IremG101State { prg_reg0: data & 0x1F, ..self }
        } else if page == 0x9 && !self.major_league {
            IremG101State {
                mirroring: if data & 0x01 == 0 { Mirroring::Vertical } else { Mirroring::Horizontal },
                prg_mode: (data >> 1) & 0x01,
                ..self
            }
        } else if page == 0xA {
            IremG101State { prg_reg1: data & 0x1F, ..self }
        } else if page == 0xB {
            IremG101State { chr_regs: self.chr_regs.update(addr as int % 8, data), ..self }
        } else {
            self
        }
    }

    /// The board with battery RAM from a save; data of another length is ignored.
    pub open spec fn loaded(self, data: Seq<u8>) -> IremG101State {
        if self.battery {
            IremG101State { prg_ram: reloaded(self.prg_ram, data), ..self }
        } else {
            self
        }
    }
}

impl IremG101 {
    pub fn new(cart: Cartridge) -> (m: Self)
        requires
            ram_fits(cart),
        ensures
            Self::ok(m@),
            m@ == IremG101State::power_on(cart),
    {
        let (chr, chr_ram): (Vec<u8>, bool) = take_chr(cart.chr_rom, cart.chr_ram, 0x2000);
        let major_league: bool = cart.submapper == 1;
        let m: IremG101 = IremG101 {
            prg_bank_mask: count_banks(&cart.prg_rom, 0x2000) - 1,
            chr_bank_mask: count_banks(&chr, 0x400) - 1,
            prg_rom: cart.prg_rom,
            chr,
            prg_ram: work_ram(cart.prg_ram_size, cart.prg_nvram_size, 0x2000),
            chr_ram,
            major_league,
            mirroring: if major_league { Mirroring::SingleScreenUpper } else { cart.mirroring },
            prg_mode: 0,
            prg_reg0: 0,
            prg_reg1: 0,
            chr_regs: [0; 8],
            battery: cart.battery_backed,
            save_dirty: false,
        };
        assert(m@.chr_regs =~= zeros(8));
        m
    }

    fn second_last_bank(&self) -> (bank: usize)
        ensures
            bank == self@.second_last(),
    {
        self.prg_bank_mask.saturating_sub(1)
    }

    fn map_prg(&self, addr: u16) -> (i: usize)
        requires
            Self::ok(self@),
            addr >= 0x8000,
        ensures
            i == self@.prg_index(addr),
    {
        let slot: u16 = (addr - 0x8000) / 0x2000;
        let bank: usize = match slot {
            0 => if self.prg_mode == 0 { self.prg_reg0 as usize } else { self.second_last_bank() },
            1 => self.prg_reg1 as usize,
            2 => if self.prg_mode == 0 { self.second_last_bank() } else { self.prg_reg0 as usize },
            _ => self.prg_bank_mask,
        };
        masked_offset(&self.prg_rom, self.prg_bank_mask, bank, 0x2000, addr)
    }

    fn map_chr(&self, addr: u16) -> (i: usize)
        requires
            Self::ok(self@),
            addr < 0x2000,
        ensures
            i == self@.chr_index(addr),
    {
        let bank: usize = self.chr_regs[addr as usize / 0x400] as usize;
        masked_offset(&self.chr, self.chr_bank_mask, bank, 0x400, addr)
    }

    fn write_register(&mut self, addr: u16, data: u8)
        requires
            Self::ok(old(self)@),
        ensures
            Self::ok(final(self)@),
            final(self)@ == old(self)@.wrote_register(addr, data),
    {
        match addr / 0x1000 {
            0x8 => {
                self.prg_reg0 = data & 0x1F;
            }
            0x9 => {
                if !self.major_league {
                    self.mirroring = if data & 0x01 == 0 { Mirroring::Vertical } else { Mirroring::Horizontal };
                    self.prg_mode = (data >> 1) & 0x01;
                }
            }
            0xA => {
                self.prg_reg1 = data & 0x1F;
            }
            0xB => {
                self.chr_regs[addr as usize % 8] = data;
            }
            _ => {}
        }
    }
}

impl Mapper for IremG101 {
    open spec fn ok(s: IremG101State) -> bool {
        &&& s.prg_bank_mask + 1 == bank_count(s.prg_rom.len(), 0x2000)
        &&& s.chr_bank_mask + 1 == bank_count(s.chr.len(), 0x400)
        &&& s.chr_regs.len() == 8
    }

    open spec fn cpu_byte(s: IremG101State, addr: u16) -> u8 {
        if addr >= 0x8000 {
            byte_at(s.prg_rom, s.prg_index(addr))
        } else if addr >= 0x6000 {
            byte_at(s.prg_ram, addr - 0x6000)
        } else {
            0
        }
    }

    open spec fn after_cpu_write(s: IremG101State, addr: u16, data: u8) -> IremG101State {
        if addr >= 0x8000 {
            s.wrote_register(addr, data)
        } else if addr >= 0x6000 {
            IremG101State {
                prg_ram: poked(s.prg_ram, addr - 0x6000, data),
                save_dirty: dirtied(s.prg_ram, s.battery, s.save_dirty, addr - 0x6000, data),
                ..s
            }
        } else {
            s
        }
    }

    open spec fn ppu_byte(s: IremG101State, addr: u16) -> u8 {
        if addr < 0x2000 {
            byte_at(s.chr, s.chr_index(addr))
        } else {
            0
        }
    }

    open spec fn after_ppu_write(s: IremG101State, addr: u16, data: u8) -> IremG101State {
        if s.chr_ram && addr < 0x2000 {
            IremG101State { chr: poked(s.chr, s.chr_index(addr), data), ..s }
        } else {
            s
        }
    }

    fn cpu_read(&mut self, addr: u16) -> (byte: u8) {
        self.cpu_peek(addr)
    }

    fn cpu_peek(&self, addr: u16) -> (byte: u8) {
        match addr {
            0x6000..=0x7FFF => read_at(&self.prg_ram, (addr - 0x6000) as usize),
            0x8000..=0xFFFF => read_at(&self.prg_rom, self.map_prg(addr)),
            _ => 0,
        }
    }

    fn cpu_write(&mut self, addr: u16, data: u8) {
        match addr {
            0x6000..=0x7FFF => {
                poke_ram(&mut self.prg_ram, &mut self.save_dirty, self.battery, (addr - 0x6000) as usize, data);
            }
            0x8000..=0xFFFF => self.write_register(addr, data),
            _ => {}
        }
    }

    fn ppu_read(&mut self, addr: u16) -> (byte: u8) {
        if addr < 0x2000 {
            read_at(&self.chr, self.map_chr(addr))
        } else {
            0
        }
    }

    fn ppu_write(&mut self, addr: u16, data: u8) {
        if self.chr_ram && addr < 0x2000 {
            let i: usize = self.map_chr(addr);
            poke(&mut self.chr, i, data);
        }
    }

    open spec fn mirrored(s: IremG101State) -> Mirroring {
        s.mirroring
    }

    fn mirroring(&self) -> (mode: Mirroring) {
        self.mirroring
    }

    fn cpu_read_ex(&mut self, addr: u16) -> (byte: Option<u8>) {
        None
    }

    fn on_cpu_cycle(&mut self) {
    }

    fn irq_line(&self) -> (asserted: bool) {
        false
    }

    open spec fn battery_bytes(s: IremG101State) -> Option<Seq<u8>> {
        if s.battery {
            Some(s.prg_ram)
        } else {
            None
        }
    }

    open spec fn after_load(s: IremG101State, data: Seq<u8>) -> IremG101State {
        s.loaded(data)
    }

    open spec fn save_due(s: IremG101State) -> bool {
        s.save_dirty
    }

    open spec fn after_save(s: IremG101State) -> IremG101State {
        IremG101State { save_dirty: false, ..s }
    }

    fn save_data(&self) -> (bytes: Option<&[u8]>) {
        if self.battery {
            Some(self.prg_ram.as_slice())
        } else {
            None
        }
    }

    fn load_save_data(&mut self, data: &[u8]) {
        if self.battery {
            reload(&mut self.prg_ram, data);
        }
    }

    fn save_dirty(&self) -> (dirty: bool) {
        self.save_dirty
    }

    fn mark_saved(&mut self) {
        self.save_dirty = false;
    }

    fn ppu_nametable_read(&mut self, slot: u8, offset: u16) -> (source: NametableSource) {
        NametableSource::Default
    }

    fn ppu_nametable_write(&mut self, slot: u8, offset: u16, data: u8) -> (target: NametableWriteTarget) {
        NametableWriteTarget::Default
    }

    fn on_ppu_addr(&mut self, addr: u16, ppu_cycle: u64, kind: PpuFetchKind) {
    }

    fn save_state_capture(&self) -> (state: Option<MapperState>) {
        None
    }

    fn save_state_apply(&mut self, state: &MapperState) -> (result: Result<(), SaveStateError>) {
        Err(SaveStateError::UnsupportedMapper(0))
    }
}

/// No write changes the cart's ROM.
pub proof fn lemma_irem_g101_rom_is_read_only(s: IremG101State, addr: u16, data: u8)
    ensures
        IremG101::after_cpu_write(s, addr, data).prg_rom == s.prg_rom,
        IremG101::after_ppu_write(s, addr, data).prg_rom == s.prg_rom,
        !s.chr_ram ==> IremG101::after_ppu_write(s, addr, data).chr == s.chr,
{
}

/// No write moves the bank at `$E000-$FFFF`.
pub proof fn lemma_irem_g101_fixed_bank(s: IremG101State, addr: u16, data: u8, read: u16)
    requires
        IremG101::ok(s),
        read >= 0xE000,
    ensures
        ({
            let after = IremG101::after_cpu_write(s, addr, data);
            IremG101::cpu_byte(after, read) == IremG101::cpu_byte(s, read)
        }),
{
}

/// Pattern RAM gives back what was stored.
pub proof fn lemma_irem_g101_pattern_ram(s: IremG101State, addr: u16, data: u8)
    requires
        IremG101::ok(s),
        s.chr_ram,
        addr < 0x2000,
        0 <= s.chr_index(addr) < s.chr.len(),
    ensures
        ({
            let after = IremG101::after_ppu_write(s, addr, data);
            IremG101::ppu_byte(after, addr) == data
        }),
{
}

/// Work RAM gives back what was stored; a battery save is due exactly when a byte changed.
pub proof fn lemma_irem_g101_work_ram(s: IremG101State, addr: u16, data: u8)
    requires
        IremG101::ok(s),
        0x6000 <= addr < 0x8000,
        addr - 0x6000 < s.prg_ram.len(),
    ensures
        ({
            let after = IremG101::after_cpu_write(s, addr, data);
            let changed = IremG101::cpu_byte(s, addr) != data;
            &&& IremG101::cpu_byte(after, addr) == data
            &&& !IremG101::save_due(s) ==> IremG101::save_due(after) == (s.battery && changed)
        }),
{
}

/// A save of one cart loaded into another of the same size brings the RAM over; a save of another
/// size changes nothing. Once saved, no save is due.
pub proof fn lemma_irem_g101_save_round_trip(s: IremG101State, fresh: IremG101State, other: Seq<u8>)
    requires
        s.battery,
        fresh.battery,
        fresh.prg_ram.len() == s.prg_ram.len(),
        other.len() != s.prg_ram.len(),
    ensures
        IremG101::battery_bytes(IremG101::after_load(fresh, s.prg_ram)) == IremG101::battery_bytes(s),
        IremG101::after_load(s, other) == s,
        !IremG101::save_due(IremG101::after_save(s)),
{
}

/// On the board without the register nothing changes the mirroring.
pub proof fn lemma_major_league_mirroring_is_fixed(s: IremG101State, addr: u16, data: u8)
    requires
        s.major_league,
    ensures
        IremG101::after_cpu_write(s, addr, data).mirroring == s.mirroring,
        IremG101::after_cpu_write(s, addr, data).prg_mode == s.prg_mode,
{
}

} // verus!
