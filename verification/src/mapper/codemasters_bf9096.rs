//! Codemasters BF9096 (iNES mapper 232), four games on one cart.
//!
//! Writes to `$8000-$BFFF` select a 64 KiB block, writes to `$C000-$FFFF` a 16 KiB page within
//! it. The page is at `$8000-$BFFF`; `$C000-$FFFF` has the block's last page. The block number
//! is in bits 3 and 4, which the Aladdin adapter (submapper 1) swaps.
use vstd::prelude::*;

use crate::mapper::{Mapper, NametableSource, NametableWriteTarget, PpuFetchKind};
use crate::mem::{
    bank_count, byte_at, chr_image, copy_if_ram, count_banks, has_chr_ram, in_bank, poke, poked,
    ram_copy, ram_restored, read_at, restore_if_ram, take_chr, wrapped_offset,
};
use crate::rom::{Cartridge, Mirroring};
use crate::save_state::mapper::{CodemastersBf9096Snap, MapperState};
use crate::save_state::SaveStateError;

verus! {

pub struct CodemastersBf9096 {
    pub prg_rom: Vec<u8>,
    pub chr: Vec<u8>,
    pub chr_ram: bool,
    pub prg_block: u8,
    pub prg_page: u8,
    pub aladdin_mode: bool,
    pub mirroring: Mirroring,
    pub prg_bank_count_16k: usize,
}

/// The state of an [`CodemastersBf9096`] board.
#[verifier::ext_equal]
pub struct CodemastersBf9096State {
    pub prg_rom: Seq<u8>,
    pub chr: Seq<u8>,
    pub chr_ram: bool,
    pub prg_block: u8,
    pub prg_page: u8,
    pub aladdin_mode: bool,
    pub mirroring: Mirroring,
    pub prg_bank_count_16k: usize,
}

impl View for CodemastersBf9096 {
    type V = CodemastersBf9096State;

    open spec fn view(&self) -> CodemastersBf9096State {
        CodemastersBf9096State {
            prg_rom: self.prg_rom@,
            chr: self.chr@,
            chr_ram: self.chr_ram,
            prg_block: self.prg_block,
            prg_page: self.prg_page,
            aladdin_mode: self.aladdin_mode,
            mirroring: self.mirroring,
            prg_bank_count_16k: self.prg_bank_count_16k,
        }
    }
}

impl CodemastersBf9096State {
    pub open spec fn power_on(cart: Cartridge) -> CodemastersBf9096State {
        CodemastersBf9096State {
            prg_rom: cart.prg_rom@,
            chr: chr_image(cart, 0x2000),
            chr_ram: has_chr_ram(cart),
            prg_block: 0,
            prg_page: 0,
            aladdin_mode: cart.submapper == 1,
            mirroring: cart.mirroring,
            prg_bank_count_16k: bank_count(cart.prg_rom@.len(), 0x4000) as usize,
        }
    }

    pub open spec fn prg_index(self, addr: u16) -> int {
        let page = if addr < 0xC000 {
            self.prg_page as usize
        } else {
            0x03
        };
        let bank = (((self.prg_block as usize) << 2) | page) as int;
        in_bank(bank % self.prg_bank_count_16k as int, 0x4000, addr as int)
    }

    pub open spec fn chr_index(self, addr: u16) -> int {
        addr as int
    }

    /// The block that `data` selects.
    pub open spec fn block_of(self, data: u8) -> u8 {
        if self.aladdin_mode {
            ((data >> 4) & 0x01) | ((data >> 2) & 0x02)
        } else {
            (data >> 3) & 0x03
        }
    }

    /// Whether `snap` was taken in this state.
    pub open spec fn captured(self, snap: CodemastersBf9096Snap) -> bool {
        &&& snap.chr_ram_data@ == ram_copy(self.chr_ram, self.chr)
        &&& snap.prg_block == self.prg_block
        &&& snap.prg_page == self.prg_page
        &&& snap.aladdin_mode == self.aladdin_mode
    }

    /// Whether `snap` is of this variant of the board.
    pub open spec fn accepts(self, snap: CodemastersBf9096Snap) -> bool {
        snap.aladdin_mode == self.aladdin_mode
    }

    /// The board with what `snap` holds.
    pub open spec fn restored(self, snap: CodemastersBf9096Snap) -> CodemastersBf9096State {
        CodemastersBf9096State {
            chr: ram_restored(self.chr_ram, self.chr, snap.chr_ram_data@),
            prg_block: snap.prg_block,
            prg_page: snap.prg_page,
            ..self
        }
    }

    /// Whether `other` is the same cart, at another time.
    pub open spec fn same_cart(self, other: CodemastersBf9096State) -> bool {
        &&& self.chr_ram ==> other.chr.len() == self.chr.len()
        &&& !self.chr_ram ==> other.chr == self.chr
        &&& other.prg_rom == self.prg_rom
        &&& other.chr_ram == self.chr_ram
        &&& other.aladdin_mode == self.aladdin_mode
        &&& other.mirroring == self.mirroring
        &&& other.prg_bank_count_16k == self.prg_bank_count_16k
    }
}

impl CodemastersBf9096 {
    pub fn new(cart: Cartridge) -> (m: Self)
        ensures
            Self::ok(m@),
            m@ == CodemastersBf9096State::power_on(cart),
    {
        let (chr, chr_ram): (Vec<u8>, bool) = take_chr(cart.chr_rom, cart.chr_ram, 0x2000);
        CodemastersBf9096 {
            prg_bank_count_16k: count_banks(&cart.prg_rom, 0x4000),
            prg_rom: cart.prg_rom,
            chr,
            chr_ram,
            prg_block: 0,
            prg_page: 0,
            aladdin_mode: cart.submapper == 1,
            mirroring: cart.mirroring,
        }
    }

    fn switch_bank_index(&self) -> (bank: usize)
        ensures
            bank == ((self.prg_block as usize) << 2) | (self.prg_page as usize),
    {
        ((self.prg_block as usize) << 2) | (self.prg_page as usize)
    }

    fn fixed_bank_index(&self) -> (bank: usize)
        ensures
            bank == ((self.prg_block as usize) << 2) | 0x03,
    {
        ((self.prg_block as usize) << 2) | 0x03
    }

    fn prg_byte(&self, bank: usize, addr: u16) -> (byte: u8)
        requires
            Self::ok(self@),
        ensures
            byte == byte_at(
                self@.prg_rom,
                in_bank(bank as int % self@.prg_bank_count_16k as int, 0x4000, addr as int),
            ),
    {
        read_at(&self.prg_rom, wrapped_offset(&self.prg_rom, self.prg_bank_count_16k, bank, 0x4000, addr))
    }

    fn map_chr(&self, addr: u16) -> (i: usize)
        ensures
            i == self@.chr_index(addr),
    {
        addr as usize
    }
}

impl Mapper for CodemastersBf9096 {
    open spec fn ok(s: CodemastersBf9096State) -> bool {
        s.prg_bank_count_16k == bank_count(s.prg_rom.len(), 0x4000)
    }

    open spec fn cpu_byte(s: CodemastersBf9096State, addr: u16) -> u8 {
        if addr >= 0x8000 {
            byte_at(s.prg_rom, s.prg_index(addr))
        } else {
            0
        }
    }

    open spec fn after_cpu_write(s: CodemastersBf9096State, addr: u16, data: u8) -> CodemastersBf9096State {
        if addr >= 0xC000 {
            CodemastersBf9096State { prg_page: data & 0x03, ..s }
        } else if addr >= 0x8000 {
            CodemastersBf9096State { prg_block: s.block_of(data), ..s }
        } else {
            s
        }
    }

    open spec fn ppu_byte(s: CodemastersBf9096State, addr: u16) -> u8 {
        if addr < 0x2000 {
            byte_at(s.chr, s.chr_index(addr))
        } else {
            0
        }
    }

    open spec fn after_ppu_write(s: CodemastersBf9096State, addr: u16, data: u8) -> CodemastersBf9096State {
        if s.chr_ram && addr < 0x2000 {
            CodemastersBf9096State { chr: poked(s.chr, s.chr_index(addr), data), ..s }
        } else {
            s
        }
    }

    fn cpu_read(&mut self, addr: u16) -> (byte: u8) {
        self.cpu_peek(addr)
    }

    fn cpu_peek(&self, addr: u16) -> (byte: u8) {
        match addr {
            0x8000..=0xBFFF => self.prg_byte(self.switch_bank_index(), addr),
            0xC000..=0xFFFF => self.prg_byte(self.fixed_bank_index(), addr),
            _ => 0,
        }
    }

    fn cpu_write(&mut self, addr: u16, data: u8) {
        match addr {
            0x8000..=0xBFFF => {
                self.prg_block = if self.aladdin_mode {
                    ((data >> 4) & 0x01) | ((data >> 2) & 0x02)
                } else {
                    (data >> 3) & 0x03
                };
            }
            0xC000..=0xFFFF => {
                self.prg_page = data & 0x03;
            }
            _ => {}
        }
    }

    fn ppu_read(&mut self, addr: u16) -> (byte: u8) {
        if addr < 0x2000 {
            read_at(&self.chr, self.map_chr(addr))
        } else {
            0
        }
    }

    fn ppu_write(&mut self, addr: u16, data: u8) {
        if self.chr_ram && addr < 0x2000 {
            let i: usize = self.map_chr(addr);
            poke(&mut self.chr, i, data);
        }
    }

    open spec fn mirrored(s: CodemastersBf9096State) -> Mirroring {
        s.mirroring
    }

    fn mirroring(&self) -> (mode: Mirroring) {
        self.mirroring
    }

    fn cpu_read_ex(&mut self, addr: u16) -> (byte: Option<u8>) {
        None
    }

    fn on_cpu_cycle(&mut self) {
    }

    fn irq_line(&self) -> (asserted: bool) {
        false
    }

    open spec fn captures(s: CodemastersBf9096State, state: Option<MapperState>) -> bool {
        match state {
            Some(MapperState::CodemastersBf9096(snap)) => s.captured(snap),
            _ => false,
        }
    }

    open spec fn after_apply(s: CodemastersBf9096State, state: MapperState) -> Option<CodemastersBf9096State> {
        match state {
            MapperState::CodemastersBf9096(snap) => if s.accepts(snap) {
                Some(s.restored(snap))
            } else {
                None
            },
            _ => None,
        }
    }

    fn save_state_capture(&self) -> (state: Option<MapperState>) {
        Some(MapperState::CodemastersBf9096(CodemastersBf9096Snap {
            chr_ram_data: copy_if_ram(self.chr_ram, &self.chr),
            prg_block: self.prg_block,
            prg_page: self.prg_page,
            aladdin_mode: self.aladdin_mode,
        }))
    }

    fn save_state_apply(&mut self, state: &MapperState) -> (result: Result<(), SaveStateError>) {
        match state {
            MapperState::CodemastersBf9096(snap) => {
                if snap.aladdin_mode != self.aladdin_mode {
                    return Err(SaveStateError::UnsupportedMapper(0));
                }
                restore_if_ram(self.chr_ram, &mut self.chr, &snap.chr_ram_data);
                self.prg_block = snap.prg_block;
                self.prg_page = snap.prg_page;
                Ok(())
            }
            _ => Err(SaveStateError::UnsupportedMapper(0)),
        }
    }

    fn ppu_nametable_read(&mut self, slot: u8, offset: u16) -> (source: NametableSource) {
        NametableSource::Default
    }

    fn ppu_nametable_write(&mut self, slot: u8, offset: u16, data: u8) -> (target: NametableWriteTarget) {
        NametableWriteTarget::Default
    }

    fn on_ppu_addr(&mut self, addr: u16, ppu_cycle: u64, kind: PpuFetchKind) {
    }

    fn save_data(&self) -> (bytes: Option<&[u8]>) {
        None
    }

    fn load_save_data(&mut self, data: &[u8]) {
    }

    fn save_dirty(&self) -> (dirty: bool) {
        false
    }

    fn mark_saved(&mut self) {
    }
}

/// A snapshot brings back the board it was taken from, whatever happened to it since.
pub proof fn lemma_codemasters_bf9096_round_trip(
    s: CodemastersBf9096State,
    later: CodemastersBf9096State,
    state: MapperState,
)
    requires
        CodemastersBf9096::ok(s),
        CodemastersBf9096::ok(later),
        s.same_cart(later),
        CodemastersBf9096::captures(s, Some(state)),
    ensures
        CodemastersBf9096::snapshot_ok(later, state),
        CodemastersBf9096::after_apply(later, state) == Some(s),
{
}

/// No write changes the mirroring.
pub proof fn lemma_codemasters_bf9096_mirroring_is_fixed(s: CodemastersBf9096State, addr: u16, data: u8)
    ensures
        ({
            let written = CodemastersBf9096::after_cpu_write(s, addr, data);
            let drawn = CodemastersBf9096::after_ppu_write(s, addr, data);
            CodemastersBf9096::mirrored(written) == CodemastersBf9096::mirrored(s) && CodemastersBf9096::mirrored(drawn) == CodemastersBf9096::mirrored(s)
        }),
{
}

/// No write changes the cart's ROM.
pub proof fn lemma_codemasters_bf9096_rom_is_read_only(s: CodemastersBf9096State, addr: u16, data: u8)
    ensures
        CodemastersBf9096::after_cpu_write(s, addr, data).prg_rom == s.prg_rom,
        CodemastersBf9096::after_ppu_write(s, addr, data).prg_rom == s.prg_rom,
        !s.chr_ram ==> CodemastersBf9096::after_ppu_write(s, addr, data).chr == s.chr,
{
}

/// Pattern RAM gives back what was stored.
pub proof fn lemma_codemasters_bf9096_pattern_ram(s: CodemastersBf9096State, addr: u16, data: u8)
    requires
        CodemastersBf9096::ok(s),
        s.chr_ram,
        addr < 0x2000,
        0 <= s.chr_index(addr) < s.chr.len(),
    ensures
        ({
            let after = CodemastersBf9096::after_ppu_write(s, addr, data);
            CodemastersBf9096::ppu_byte(after, addr) == data
        }),
{
}

/// The adapter swaps the two bits of the block number.
pub proof fn lemma_aladdin_swaps(s: CodemastersBf9096State, data: u8)
    requires
        s.aladdin_mode,
    ensures
        ({
            let plain = (CodemastersBf9096State { aladdin_mode: false, ..s }).block_of(data);
            s.block_of(data) == ((plain & 1) << 1) | (plain >> 1)
        }),
        s.block_of(data) <= 3,
{
    assert(((data >> 4) & 0x01) | ((data >> 2) & 0x02) == ((((data >> 3) & 0x03) & 1) << 1) | (((data >> 3) & 0x03)
        >> 1) && ((data >> 4) & 0x01) | ((data >> 2) & 0x02) <= 3) by (bit_vector);
}

} // verus!
