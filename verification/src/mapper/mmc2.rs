//! MMC2 (iNES mapper 9).
//!
//! | page | effect |
//! |---|---|
//! | `$A000` | 8 KiB PRG bank at `$8000-$9FFF`, 4 bits |
//! | `$B000`, `$C000` | 4 KiB CHR banks of `$0000-$0FFF`, for latch FD and FE |
//! | `$D000`, `$E000` | 4 KiB CHR banks of `$1000-$1FFF`, for latch FD and FE |
//! | `$F000` | bit 0: mirroring, vertical or horizontal |
//!
//! The last three PRG banks are at `$A000-$FFFF`. Each pattern table has a latch, which the PPU
//! itself flips: an access to `$0FD8` or `$0FE8` sets the left one to FD or FE, an access to
//! `$1FD8-$1FDF` or `$1FE8-$1FEF` the right one. The access that flips a latch still sees the bank
//! from before.
use vstd::prelude::*;

use crate::mapper::{Mapper, NametableSource, NametableWriteTarget, PpuFetchKind};
use crate::mem::{
    bank_count, bank_offset, byte_at, chr_image, count_banks, has_chr_ram, in_bank, poke, poked,
    read_at, take_chr, wrapped_offset,
};
use crate::rom::{Cartridge, Mirroring};
use crate::save_state::mapper::MapperState;
use crate::save_state::SaveStateError;

verus! {

pub struct Mmc2 {
    pub prg_rom: Vec<u8>,
    pub chr: Vec<u8>,
    pub chr_ram: bool,
    pub mirroring: Mirroring,
    pub prg_bank_count_8k: usize,
    pub chr_bank_count_4k: usize,
    pub prg_bank: u8,
    pub left_fd: u8,
    pub left_fe: u8,
    pub right_fd: u8,
    pub right_fe: u8,
    /// 0 for FD, 1 for FE.
    pub left_latch: u8,
    pub right_latch: u8,
}

/// The state of an [`Mmc2`] board.
#[verifier::ext_equal]
pub struct Mmc2State {
    pub prg_rom: Seq<u8>,
    pub chr: Seq<u8>,
    pub chr_ram: bool,
    pub mirroring: Mirroring,
    pub prg_bank_count_8k: usize,
    pub chr_bank_count_4k: usize,
    pub prg_bank: u8,
    pub left_fd: u8,
    pub left_fe: u8,
    pub right_fd: u8,
    pub right_fe: u8,
    pub left_latch: u8,
    pub right_latch: u8,
}

impl View for Mmc2 {
    type V = Mmc2State;

    open spec fn view(&self) -> Mmc2State {
        Mmc2State {
            prg_rom: self.prg_rom@,
            chr: self.chr@,
            chr_ram: self.chr_ram,
            mirroring: self.mirroring,
            prg_bank_count_8k: self.prg_bank_count_8k,
            chr_bank_count_4k: self.chr_bank_count_4k,
            prg_bank: self.prg_bank,
            left_fd: self.left_fd,
            left_fe: self.left_fe,
            right_fd: self.right_fd,
            right_fe: self.right_fe,
            left_latch: self.left_latch,
            right_latch: self.right_latch,
        }
    }
}

impl Mmc2State {
    pub open spec fn power_on(cart: Cartridge) -> Mmc2State {
        Mmc2State {
            prg_rom: cart.prg_rom@,
            chr: chr_image(cart, 0x2000),
            chr_ram: has_chr_ram(cart),
            mirroring: cart.mirroring,
            prg_bank_count_8k: bank_count(cart.prg_rom@.len(), 0x2000) as usize,
            chr_bank_count_4k: bank_count(chr_image(cart, 0x2000).len(), 0x1000) as usize,
            prg_bank: 0,
            left_fd: 0,
            left_fe: 0,
            right_fd: 0,
            right_fe: 0,
            left_latch: 1,
            right_latch: 1,
        }
    }

    /// The bank of PRG window `slot`: the last three banks follow the switchable one. A cart with
    /// fewer banks has its first one in their place.
    pub open spec fn prg_slot(self, slot: int) -> int {
        if slot == 0 {
            self.prg_bank as int % self.prg_bank_count_8k as int
        } else if self.prg_bank_count_8k >= 4 - slot {
            self.prg_bank_count_8k - (4 - slot)
        } else {
            0
        }
    }

    pub open spec fn prg_index(self, addr: u16) -> int {
        in_bank(self.prg_slot((addr - 0x8000) / 0x2000), 0x2000, addr as int)
    }

    pub open spec fn chr_index(self, addr: u16) -> int {
        let selector = if addr < 0x1000 {
            if self.left_latch == 0 { self.left_fd } else { self.left_fe }
        } else {
            if self.right_latch == 0 { self.right_fd } else { self.right_fe }
        };
        in_bank(selector as int % self.chr_bank_count_4k as int, 0x1000, addr as int)
    }

    /// The board after the PPU has accessed `addr`.
    pub open spec fn latched(self, addr: u16) -> Mmc2State {
        if addr == 0x0FD8 {
            Mmc2State { left_latch: 0, ..self }
        } else if addr == 0x0FE8 {
            Mmc2State { left_latch: 1, ..self }
        } else if 0x1FD8 <= addr <= 0x1FDF {
            Mmc2State { right_latch: 0, ..self }
        } else if 0x1FE8 <= addr <= 0x1FEF {
            Mmc2State { right_latch: 1, ..self }
        } else {
            self
        }
    }
}

impl Mmc2 {
    pub fn new(cart: Cartridge) -> (m: Self)
        ensures
            Self::ok(m@),
            m@ == Mmc2State::power_on(cart),
    {
        let (chr, chr_ram): (Vec<u8>, bool) = take_chr(cart.chr_rom, cart.chr_ram, 0x2000);
        Mmc2 {
            prg_bank_count_8k: count_banks(&cart.prg_rom, 0x2000),
            chr_bank_count_4k: count_banks(&chr, 0x1000),
            prg_rom: cart.prg_rom,
            chr,
            chr_ram,
            mirroring: cart.mirroring,
            prg_bank: 0,
            left_fd: 0,
            left_fe: 0,
            right_fd: 0,
            right_fe: 0,
            left_latch: 1,
            right_latch: 1,
        }
    }

    fn map_prg(&self, addr: u16) -> (i: usize)
        requires
            Self::ok(self@),
            addr >= 0x8000,
        ensures
            i == self@.prg_index(addr),
    {
        let bank: usize = match addr {
            0x8000..=0x9FFF => self.prg_bank as usize % self.prg_bank_count_8k,
            0xA000..=0xBFFF => self.prg_bank_count_8k.saturating_sub(3),
            0xC000..=0xDFFF => self.prg_bank_count_8k.saturating_sub(2),
            _ => self.prg_bank_count_8k.saturating_sub(1),
        };
        bank_offset(&self.prg_rom, self.prg_bank_count_8k, bank, 0x2000, addr)
    }

    fn map_chr(&self, addr: u16) -> (i: usize)
        requires
            Self::ok(self@),
        ensures
            i == self@.chr_index(addr),
    {
        let bank: u8 = if addr < 0x1000 {
            if self.left_latch == 0 { self.left_fd } else { self.left_fe }
        } else {
            if self.right_latch == 0 { self.right_fd } else { self.right_fe }
        };
        wrapped_offset(&self.chr, self.chr_bank_count_4k, bank as usize, 0x1000, addr)
    }

    fn update_latch(&mut self, addr: u16)
        requires
            Self::ok(old(self)@),
        ensures
            Self::ok(final(self)@),
            final(self)@ == old(self)@.latched(addr),
    {
        match addr {
            0x0FD8 => {
                self.left_latch = 0;
            }
            0x0FE8 => {
                self.left_latch = 1;
            }
            0x1FD8..=0x1FDF => {
                self.right_latch = 0;
            }
            0x1FE8..=0x1FEF => {
                self.right_latch = 1;
            }
            _ => {}
        }
    }
}

impl Mapper for Mmc2 {
    open spec fn ok(s: Mmc2State) -> bool {
        &&& s.prg_bank_count_8k == bank_count(s.prg_rom.len(), 0x2000)
        &&& s.chr_bank_count_4k == bank_count(s.chr.len(), 0x1000)
    }

    open spec fn cpu_byte(s: Mmc2State, addr: u16) -> u8 {
        if addr >= 0x8000 {
            byte_at(s.prg_rom, s.prg_index(addr))
        } else {
            0
        }
    }

    open spec fn after_cpu_write(s: Mmc2State, addr: u16, data: u8) -> Mmc2State {
        let page = addr / 0x1000;
        if page == 0xA {
            Mmc2State { prg_bank: data & 0x0F, ..s }
        } else if page == 0xB {
            Mmc2State { left_fd: data & 0x1F, ..s }
        } else if page == 0xC {
            Mmc2State { left_fe: data & 0x1F, ..s }
        } else if page == 0xD {
            Mmc2State { right_fd: data & 0x1F, ..s }
        } else if page == 0xE {
            Mmc2State { right_fe: data & 0x1F, ..s }
        } else if page == 0xF {
            Mmc2State {
                mirroring: if data & 0x01 != 0 { Mirroring::Horizontal } else { Mirroring::Vertical },
                ..s
            }
        } else {
            s
        }
    }

    open spec fn ppu_byte(s: Mmc2State, addr: u16) -> u8 {
        if addr < 0x2000 {
            byte_at(s.chr, s.chr_index(addr))
        } else {
            0
        }
    }

    open spec fn after_ppu_read(s: Mmc2State, addr: u16) -> Mmc2State {
        s.latched(addr)
    }

    open spec fn after_ppu_write(s: Mmc2State, addr: u16, data: u8) -> Mmc2State {
        if s.chr_ram && addr < 0x2000 {
            (Mmc2State { chr: poked(s.chr, s.chr_index(addr), data), ..s }).latched(addr)
        } else {
            s.latched(addr)
        }
    }

    fn cpu_read(&mut self, addr: u16) -> (byte: u8) {
        self.cpu_peek(addr)
    }

    fn cpu_peek(&self, addr: u16) -> (byte: u8) {
        if addr >= 0x8000 {
            read_at(&self.prg_rom, self.map_prg(addr))
        } else {
            0
        }
    }

    fn cpu_write(&mut self, addr: u16, data: u8) {
        match addr / 0x1000 {
            0xA => {
                self.prg_bank = data & 0x0F;
            }
            0xB => {
                self.left_fd = data & 0x1F;
            }
            0xC => {
                self.left_fe = data & 0x1F;
            }
            0xD => {
                self.right_fd = data & 0x1F;
            }
            0xE => {
                self.right_fe = data & 0x1F;
            }
            0xF => {
                self.mirroring = if data & 0x01 != 0 { Mirroring::Horizontal } else { Mirroring::Vertical };
            }
            _ => {}
        }
    }

    fn ppu_read(&mut self, addr: u16) -> (byte: u8) {
        if addr >= 0x2000 {
            return 0;
        }
        let byte: u8 = read_at(&self.chr, self.map_chr(addr));
        self.update_latch(addr);
        byte
    }

    fn ppu_write(&mut self, addr: u16, data: u8) {
        if self.chr_ram && addr < 0x2000 {
            let i: usize = self.map_chr(addr);
            poke(&mut self.chr, i, data);
        }
        if addr < 0x2000 {
            self.update_latch(addr);
        }
    }

    open spec fn mirrored(s: Mmc2State) -> Mirroring {
        s.mirroring
    }

    fn mirroring(&self) -> (mode: Mirroring) {
        self.mirroring
    }

    fn cpu_read_ex(&mut self, addr: u16) -> (byte: Option<u8>) {
        None
    }

    fn on_cpu_cycle(&mut self) {
    }

    fn irq_line(&self) -> (asserted: bool) {
        false
    }

    fn ppu_nametable_read(&mut self, slot: u8, offset: u16) -> (source: NametableSource) {
        NametableSource::Default
    }

    fn ppu_nametable_write(&mut self, slot: u8, offset: u16, data: u8) -> (target: NametableWriteTarget) {
        NametableWriteTarget::Default
    }

    fn on_ppu_addr(&mut self, addr: u16, ppu_cycle: u64, kind: PpuFetchKind) {
    }

    fn save_data(&self) -> (bytes: Option<&[u8]>) {
        None
    }

    fn load_save_data(&mut self, data: &[u8]) {
    }

    fn save_dirty(&self) -> (dirty: bool) {
        false
    }

    fn mark_saved(&mut self) {
    }

    fn save_state_capture(&self) -> (state: Option<MapperState>) {
        None
    }

    fn save_state_apply(&mut self, state: &MapperState) -> (result: Result<(), SaveStateError>) {
        Err(SaveStateError::UnsupportedMapper(0))
    }
}

/// No write changes the cart's ROM.
pub proof fn lemma_mmc2_rom_is_read_only(s: Mmc2State, addr: u16, data: u8)
    ensures
        Mmc2::after_cpu_write(s, addr, data).prg_rom == s.prg_rom,
        Mmc2::after_ppu_write(s, addr, data).prg_rom == s.prg_rom,
        !s.chr_ram ==> Mmc2::after_ppu_write(s, addr, data).chr == s.chr,
{
}

/// No write moves the bank at `$A000-$FFFF`.
pub proof fn lemma_mmc2_fixed_bank(s: Mmc2State, addr: u16, data: u8, read: u16)
    requires
        Mmc2::ok(s),
        read >= 0xA000,
    ensures
        ({
            let after = Mmc2::after_cpu_write(s, addr, data);
            Mmc2::cpu_byte(after, read) == Mmc2::cpu_byte(s, read)
        }),
{
}

/// The access that flips a latch sees the bank from before it; later ones see the bank of the
/// latch, until it is flipped again.
pub proof fn lemma_latches_act_after_the_access(s: Mmc2State, trigger: u16, addr: u16)
    requires
        Mmc2::ok(s),
        trigger < 0x2000,
        addr < 0x2000,
    ensures
        Mmc2::ppu_byte(s, trigger) == byte_at(s.chr, s.chr_index(trigger)),
        ({
            let bank = if addr < 0x1000 {
                if trigger == 0x0FD8 {
                    s.left_fd
                } else if trigger == 0x0FE8 {
                    s.left_fe
                } else if s.left_latch == 0 {
                    s.left_fd
                } else {
                    s.left_fe
                }
            } else {
                if 0x1FD8 <= trigger <= 0x1FDF {
                    s.right_fd
                } else if 0x1FE8 <= trigger <= 0x1FEF {
                    s.right_fe
                } else if s.right_latch == 0 {
                    s.right_fd
                } else {
                    s.right_fe
                }
            };
            Mmc2::ppu_byte(Mmc2::after_ppu_read(s, trigger), addr) == byte_at(
                s.chr,
                in_bank(bank as int % s.chr_bank_count_4k as int, 0x1000, addr as int),
            )
        }),
{
}

} // verus!
