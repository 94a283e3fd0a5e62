//! Namco 118 and its relatives (iNES mappers 88, 95, 154 and 206).
//!
//! Writes to `$8000-$9FFF` reach eight bank registers: an even address selects one by its low three
//! bits, an odd address stores into it. Registers 6 and 7 are the 8 KiB PRG banks at `$8000` and
//! `$A000`; the last 16 KiB are at `$C000-$FFFF`. Registers 0 and 1 are 2 KiB CHR banks from
//! `$0000`, registers 2 to 5 are 1 KiB CHR banks from `$1000`.
//!
//! - Mapper 88 wires one CHR address line so that registers 0 and 1 reach the low half of the
//!   pattern memory and the others the high half, 32 KiB each on its 64 KiB carts.
//! - Mapper 154 does so too, and takes a single-screen page from bit 6 of every write.
//! - Mapper 95 takes the nametable page from bit 5 of registers 0 and 1, for two nametables each.
//! - Mapper 206 is the plain chip.
use vstd::prelude::*;

use crate::mapper::{Mapper, NametableSource, NametableWriteTarget, PpuFetchKind};
use crate::mem::{
    bank_count, bank_offset, byte_at, chr_image, copied, copy_if_ram, count_banks, dirtied,
    has_chr_ram, in_bank, poke, poke_ram, poked, ram_copy, ram_fits, ram_restored, ram_size,
    read_at, reload, reloaded, restore_if_ram, take_chr, work_ram, zeros,
};
use crate::rom::{Cartridge, Mirroring};
use crate::save_state::mapper::{MapperState, Namco118Snap, Namco118VariantSnap};
use crate::save_state::{MirroringSnap, SaveStateError};

verus! {

#[derive(Debug, Clone, Copy, PartialEq, Eq, Structural)]
pub enum Variant {
    Mapper206,
    Mapper88,
    Mapper95,
    Mapper154,
}

pub struct Namco118 {
    pub prg_rom: Vec<u8>,
    pub chr: Vec<u8>,
    pub chr_ram: bool,
    pub prg_ram: Vec<u8>,
    pub variant: Variant,
    pub bank_regs: [u8; 8],
    pub bank_select: u8,
    pub mirroring: Mirroring,
    pub prg_bank_count_8k: usize,
    pub chr_bank_count_1k: usize,
    pub battery: bool,
    pub save_dirty: bool,
}

/// The state of an [`Namco118`] board.
#[verifier::ext_equal]
pub struct Namco118State {
    pub prg_rom: Seq<u8>,
    pub chr: Seq<u8>,
    pub chr_ram: bool,
    pub prg_ram: Seq<u8>,
    pub variant: Variant,
    pub bank_regs: Seq<u8>,
    pub bank_select: u8,
    pub mirroring: Mirroring,
    pub prg_bank_count_8k: usize,
    pub chr_bank_count_1k: usize,
    pub battery: bool,
    pub save_dirty: bool,
}

impl View for Namco118 {
    type V = Namco118State;

    open spec fn view(&self) -> Namco118State {
        Namco118State {
            prg_rom: self.prg_rom@,
            chr: self.chr@,
            chr_ram: self.chr_ram,
            prg_ram: self.prg_ram@,
            variant: self.variant,
            bank_regs: self.bank_regs@,
            bank_select: self.bank_select,
            mirroring: self.mirroring,
            prg_bank_count_8k: self.prg_bank_count_8k,
            chr_bank_count_1k: self.chr_bank_count_1k,
            battery: self.battery,
            save_dirty: self.save_dirty,
        }
    }
}

impl Namco118State {
    pub open spec fn power_on(cart: Cartridge, variant: Variant) -> Namco118State {
        Namco118State {
            prg_rom: cart.prg_rom@,
            chr: chr_image(cart, 0x2000),
            chr_ram: has_chr_ram(cart),
            prg_ram: zeros(ram_size(cart, 0x2000)),
            variant,
            bank_regs: zeros(8),
            bank_select: 0,
            mirroring: cart.mirroring,
            prg_bank_count_8k: bank_count(cart.prg_rom@.len(), 0x2000) as usize,
            chr_bank_count_1k: bank_count(chr_image(cart, 0x2000).len(), 0x400) as usize,
            battery: cart.battery_backed,
            save_dirty: false,
        }
    }

    /// The variant as a snapshot names it.
    pub open spec fn tag(self) -> Namco118VariantSnap {
        match self.variant {
            Variant::Mapper206 => Namco118VariantSnap::Mapper206,
            Variant::Mapper88 => Namco118VariantSnap::Mapper88,
            Variant::Mapper95 => Namco118VariantSnap::Mapper95,
            Variant::Mapper154 => Namco118VariantSnap::Mapper154,
        }
    }

    /// Whether the variant wires the extra CHR address line.
    pub open spec fn splits_chr(self) -> bool {
        self.variant == Variant::Mapper88 || self.variant == Variant::Mapper154
    }

    /// What a CHR register selects.
    pub open spec fn chr_select(self, reg: int) -> u8 {
        if !self.splits_chr() {
            self.bank_regs[reg]
        } else if reg < 2 {
            self.bank_regs[reg] & 0x3F
        } else {
            self.bank_regs[reg] | 0x40
        }
    }

    pub open spec fn prg_bank(self, slot: int) -> int {
        if slot < 2 {
            self.bank_regs[6 + slot] as int % self.prg_bank_count_8k as int
        } else if slot == 2 && self.prg_bank_count_8k >= 2 {
            self.prg_bank_count_8k - 2
        } else {
            self.prg_bank_count_8k - 1
        }
    }

    pub open spec fn prg_byte_index(self, addr: u16) -> int {
        in_bank(self.prg_bank((addr - 0x8000) / 0x2000), 0x2000, addr as int)
    }

    /// The 1 KiB bank of a window: the first four take theirs in pairs.
    pub open spec fn chr_bank(self, slot: int) -> int {
        if slot < 4 {
            self.chr_select(slot / 2) as int / 2 * 2 + slot % 2
        } else {
            self.chr_select(slot - 2) as int
        }
    }

    /// How many banks a half of the pattern memory has.
    pub open spec fn half_banks(self) -> int {
        self.chr_bank_count_1k as int / 2
    }

    /// The bank behind a window. Where the extra line splits the pattern memory, the first four
    /// windows stay in its low half and the others in its high half.
    pub open spec fn chr_page(self, slot: int) -> int {
        if !self.splits_chr() || self.half_banks() == 0 {
            self.chr_bank(slot) % self.chr_bank_count_1k as int
        } else if slot < 4 {
            self.chr_bank(slot) % self.half_banks()
        } else {
            self.half_banks() + self.chr_bank(slot) % self.half_banks()
        }
    }

    pub open spec fn chr_index(self, addr: u16) -> int {
        in_bank(self.chr_page(addr as int / 0x400), 0x400, addr as int)
    }

    /// The board after a write to `$8000-$9FFF`.
    pub open spec fn wrote_register(self, addr: u16, data: u8) -> Namco118State {
        let mirrored = if self.variant == Variant::Mapper154 {
            Namco118State {
                mirroring: if data & 0x40 != 0 {
                    Mirroring::SingleScreenUpper
                } else {
                    Mirroring::SingleScreenLower
                },
                ..self
            }
        } else {
            self
        };
        if addr % 2 == 0 {
            Namco118State { bank_select: data & 0x07, ..mirrored }
        } else {
            Namco118State { bank_regs: mirrored.bank_regs.update(mirrored.bank_select as int, data), ..mirrored }
        }
    }

    /// Whether mapper 95 gives nametable `slot` the second page.
    pub open spec fn second_page(self, slot: u8) -> bool {
        (if slot < 2 { self.bank_regs[0] } else { self.bank_regs[1] }) & 0x20 != 0
    }

    /// The board with battery RAM from a save; data of another length is ignored.
    pub open spec fn loaded(self, data: Seq<u8>) -> Namco118State {
        if self.battery {
            Namco118State { prg_ram: reloaded(self.prg_ram, data), ..self }
        } else {
            self
        }
    }

    /// Whether `snap` was taken in this state.
    pub open spec fn captured(self, snap: Namco118Snap) -> bool {
        &&& snap.variant == self.tag()
        &&& snap.prg_ram@ == self.prg_ram
        &&& snap.chr_ram_data@ == ram_copy(self.chr_ram, self.chr)
        &&& snap.bank_regs@ == self.bank_regs
        &&& snap.bank_select == self.bank_select
        &&& snap.mirroring == MirroringSnap::of(self.mirroring)
        &&& snap.save_dirty == self.save_dirty
    }

    /// Whether `snap` is of this variant of the board.
    pub open spec fn accepts(self, snap: Namco118Snap) -> bool {
        snap.variant == self.tag()
    }

    /// The board with what `snap` holds.
    pub open spec fn restored(self, snap: Namco118Snap) -> Namco118State {
        Namco118State {
            prg_ram: reloaded(self.prg_ram, snap.prg_ram@),
            chr: ram_restored(self.chr_ram, self.chr, snap.chr_ram_data@),
            bank_regs: snap.bank_regs@,
            bank_select: snap.bank_select,
            mirroring: snap.mirroring.live(),
            save_dirty: snap.save_dirty,
            ..self
        }
    }

    /// Whether `other` is the same cart, at another time.
    pub open spec fn same_cart(self, other: Namco118State) -> bool {
        &&& other.prg_ram.len() == self.prg_ram.len()
        &&& self.chr_ram ==> other.chr.len() == self.chr.len()
        &&& !self.chr_ram ==> other.chr == self.chr
        &&& other.prg_rom == self.prg_rom
        &&& other.chr_ram == self.chr_ram
        &&& other.variant == self.variant
        &&& other.prg_bank_count_8k == self.prg_bank_count_8k
        &&& other.chr_bank_count_1k == self.chr_bank_count_1k
        &&& other.battery == self.battery
    }
}

impl Namco118 {
    pub fn new(cart: Cartridge, variant: Variant) -> (m: Self)
        requires
            ram_fits(cart),
        ensures
            Self::ok(m@),
            m@ == Namco118State::power_on(cart, variant),
    {
        let (chr, chr_ram): (Vec<u8>, bool) = take_chr(cart.chr_rom, cart.chr_ram, 0x2000);
        let m: Namco118 = Namco118 {
            prg_bank_count_8k: count_banks(&cart.prg_rom, 0x2000),
            chr_bank_count_1k: count_banks(&chr, 0x400),
            prg_rom: cart.prg_rom,
            chr,
            chr_ram,
            prg_ram: work_ram(cart.prg_ram_size, cart.prg_nvram_size, 0x2000),
            variant,
            bank_regs: [0; 8],
            bank_select: 0,
            mirroring: cart.mirroring,
            battery: cart.battery_backed,
            save_dirty: false,
        };
        assert(m@.bank_regs =~= zeros(8));
        m
    }

    pub fn new_206(cart: Cartridge) -> (m: Self)
        requires
            ram_fits(cart),
        ensures
            Self::ok(m@),
            m@ == Namco118State::power_on(cart, Variant::Mapper206),
    {
        Namco118::new(cart, Variant::Mapper206)
    }

    pub fn new_88(cart: Cartridge) -> (m: Self)
        requires
            ram_fits(cart),
        ensures
            Self::ok(m@),
            m@ == Namco118State::power_on(cart, Variant::Mapper88),
    {
        Namco118::new(cart, Variant::Mapper88)
    }

    pub fn new_95(cart: Cartridge) -> (m: Self)
        requires
            ram_fits(cart),
        ensures
            Self::ok(m@),
            m@ == Namco118State::power_on(cart, Variant::Mapper95),
    {
        Namco118::new(cart, Variant::Mapper95)
    }

    pub fn new_154(cart: Cartridge) -> (m: Self)
        requires
            ram_fits(cart),
        ensures
            Self::ok(m@),
            m@ == Namco118State::power_on(cart, Variant::Mapper154),
    {
        Namco118::new(cart, Variant::Mapper154)
    }

    fn tag_now(&self) -> (tag: Namco118VariantSnap)
        ensures
            tag == self@.tag(),
    {
        match self.variant {
            Variant::Mapper206 => Namco118VariantSnap::Mapper206,
            Variant::Mapper88 => Namco118VariantSnap::Mapper88,
            Variant::Mapper95 => Namco118VariantSnap::Mapper95,
            Variant::Mapper154 => Namco118VariantSnap::Mapper154,
        }
    }

    fn has_split_chr(&self) -> (yes: bool)
        ensures
            yes == self@.splits_chr(),
    {
        self.variant == Variant::Mapper88 || self.variant == Variant::Mapper154
    }

    pub fn chr_reg(&self, idx: usize) -> (bank: u8)
        requires
            idx < 8,
        ensures
            bank == self@.chr_select(idx as int),
    {
        let raw: u8 = self.bank_regs[idx];
        if !self.has_split_chr() {
            raw
        } else if idx < 2 {
            raw & 0x3F
        } else {
            raw | 0x40
        }
    }

    fn prg_index(&self, addr: u16) -> (i: usize)
        requires
            Self::ok(self@),
            addr >= 0x8000,
        ensures
            i == self@.prg_byte_index(addr),
    {
        let slot: usize = (addr - 0x8000) as usize / 0x2000;
        let bank: usize = if slot < 2 {
            self.bank_regs[6 + slot] as usize % self.prg_bank_count_8k
        } else if slot == 2 {
            self.prg_bank_count_8k.saturating_sub(2)
        } else {
            self.prg_bank_count_8k - 1
        };
        bank_offset(&self.prg_rom, self.prg_bank_count_8k, bank, 0x2000, addr)
    }

    fn map_chr(&self, addr: u16) -> (i: usize)
        requires
            Self::ok(self@),
            addr < 0x2000,
        ensures
            i == self@.chr_index(addr),
    {
        let slot: usize = addr as usize / 0x400;
        let bank: usize = if slot < 4 {
            self.chr_reg(slot / 2) as usize / 2 * 2 + slot % 2
        } else {
            self.chr_reg(slot - 2) as usize
        };
        let half: usize = self.chr_bank_count_1k / 2;
        let page: usize = if !self.has_split_chr() || half == 0 {
            bank % self.chr_bank_count_1k
        } else if slot < 4 {
            bank % half
        } else {
            half + bank % half
        };
        bank_offset(&self.chr, self.chr_bank_count_1k, page, 0x400, addr)
    }

    fn write_register(&mut self, addr: u16, data: u8)
        requires
            Self::ok(old(self)@),
        ensures
            Self::ok(final(self)@),
            final(self)@ == old(self)@.wrote_register(addr, data),
    {
        proof {
            crate::bits::lemma_mask_u8(data, 0x07);
        }
        if self.variant == Variant::Mapper154 {
            self.mirroring = if (data & 0x40) != 0 {
                Mirroring::SingleScreenUpper
            } else {
                Mirroring::SingleScreenLower
            };
        }
        if addr % 2 == 0 {
            self.bank_select = data & 0x07;
        } else {
            let idx: usize = self.bank_select as usize;
            self.bank_regs[idx] = data;
        }
    }

    fn takes_second_page(&self, slot: u8) -> (yes: bool)
        ensures
            yes == self@.second_page(slot),
    {
        let r: u8 = if slot < 2 { self.bank_regs[0] } else { self.bank_regs[1] };
        (r & 0x20) != 0
    }
}

impl Mapper for Namco118 {
    open spec fn ok(s: Namco118State) -> bool {
        &&& s.prg_bank_count_8k == bank_count(s.prg_rom.len(), 0x2000)
        &&& s.chr_bank_count_1k == bank_count(s.chr.len(), 0x400)
        &&& s.bank_regs.len() == 8
        &&& s.bank_select < 8
    }

    open spec fn cpu_byte(s: Namco118State, addr: u16) -> u8 {
        if addr >= 0x8000 {
            byte_at(s.prg_rom, s.prg_byte_index(addr))
        } else if addr >= 0x6000 {
            byte_at(s.prg_ram, addr - 0x6000)
        } else {
            0
        }
    }

    open spec fn after_cpu_write(s: Namco118State, addr: u16, data: u8) -> Namco118State {
        if 0x6000 <= addr < 0x8000 {
            Namco118State {
                prg_ram: poked(s.prg_ram, addr - 0x6000, data),
                save_dirty: dirtied(s.prg_ram, s.battery, s.save_dirty, addr - 0x6000, data),
                ..s
            }
        } else if 0x8000 <= addr < 0xA000 {
            s.wrote_register(addr, data)
        } else {
            s
        }
    }

    open spec fn ppu_byte(s: Namco118State, addr: u16) -> u8 {
        if addr < 0x2000 {
            byte_at(s.chr, s.chr_index(addr))
        } else {
            0
        }
    }

    open spec fn after_ppu_write(s: Namco118State, addr: u16, data: u8) -> Namco118State {
        if s.chr_ram && addr < 0x2000 {
            Namco118State { chr: poked(s.chr, s.chr_index(addr), data), ..s }
        } else {
            s
        }
    }

    open spec fn snapshot_ok(s: Namco118State, state: MapperState) -> bool {
        match state {
            MapperState::Namco118(snap) => s.accepts(snap) ==> snap.bank_select < 8,
            _ => true,
        }
    }

    fn cpu_read(&mut self, addr: u16) -> (byte: u8) {
        self.cpu_peek(addr)
    }

    fn cpu_peek(&self, addr: u16) -> (byte: u8) {
        match addr {
            0x6000..=0x7FFF => read_at(&self.prg_ram, (addr - 0x6000) as usize),
            0x8000..=0xFFFF => read_at(&self.prg_rom, self.prg_index(addr)),
            _ => 0,
        }
    }

    fn cpu_write(&mut self, addr: u16, data: u8) {
        match addr {
            0x6000..=0x7FFF => {
                poke_ram(&mut self.prg_ram, &mut self.save_dirty, self.battery, (addr - 0x6000) as usize, data);
            }
            0x8000..=0x9FFF => self.write_register(addr, data),
            _ => {}
        }
    }

    fn ppu_read(&mut self, addr: u16) -> (byte: u8) {
        if addr < 0x2000 {
            read_at(&self.chr, self.map_chr(addr))
        } else {
            0
        }
    }

    fn ppu_write(&mut self, addr: u16, data: u8) {
        if self.chr_ram && addr < 0x2000 {
            let i: usize = self.map_chr(addr);
            poke(&mut self.chr, i, data);
        }
    }

    open spec fn mirrored(s: Namco118State) -> Mirroring {
        s.mirroring
    }

    fn mirroring(&self) -> (mode: Mirroring) {
        self.mirroring
    }

    fn cpu_read_ex(&mut self, addr: u16) -> (byte: Option<u8>) {
        None
    }

    fn on_cpu_cycle(&mut self) {
    }

    fn irq_line(&self) -> (asserted: bool) {
        false
    }

    open spec fn nametable_source(s: Namco118State, slot: u8, offset: u16) -> NametableSource {
        if s.variant != Variant::Mapper95 {
            NametableSource::Default
        } else if s.second_page(slot) {
            NametableSource::CiramB
        } else {
            NametableSource::CiramA
        }
    }

    open spec fn nametable_target(s: Namco118State, slot: u8, offset: u16, data: u8) -> NametableWriteTarget {
        if s.variant != Variant::Mapper95 {
            NametableWriteTarget::Default
        } else if s.second_page(slot) {
            NametableWriteTarget::CiramB
        } else {
            NametableWriteTarget::CiramA
        }
    }

    fn ppu_nametable_read(&mut self, slot: u8, offset: u16) -> (source: NametableSource) {
        if self.variant != Variant::Mapper95 {
            return NametableSource::Default;
        }
        if self.takes_second_page(slot) {
            NametableSource::CiramB
        } else {
            NametableSource::CiramA
        }
    }

    fn ppu_nametable_write(&mut self, slot: u8, offset: u16, data: u8) -> (target: NametableWriteTarget) {
        if self.variant != Variant::Mapper95 {
            return NametableWriteTarget::Default;
        }
        if self.takes_second_page(slot) {
            NametableWriteTarget::CiramB
        } else {
            NametableWriteTarget::CiramA
        }
    }

    open spec fn battery_bytes(s: Namco118State) -> Option<Seq<u8>> {
        if s.battery {
            Some(s.prg_ram)
        } else {
            None
        }
    }

    open spec fn after_load(s: Namco118State, data: Seq<u8>) -> Namco118State {
        s.loaded(data)
    }

    open spec fn save_due(s: Namco118State) -> bool {
        s.save_dirty
    }

    open spec fn after_save(s: Namco118State) -> Namco118State {
        Namco118State { save_dirty: false, ..s }
    }

    fn save_data(&self) -> (bytes: Option<&[u8]>) {
        if self.battery {
            Some(self.prg_ram.as_slice())
        } else {
            None
        }
    }

    fn load_save_data(&mut self, data: &[u8]) {
        if self.battery {
            reload(&mut self.prg_ram, data);
        }
    }

    fn save_dirty(&self) -> (dirty: bool) {
        self.save_dirty
    }

    fn mark_saved(&mut self) {
        self.save_dirty = false;
    }

    open spec fn captures(s: Namco118State, state: Option<MapperState>) -> bool {
        match state {
            Some(MapperState::Namco118(snap)) => s.captured(snap),
            _ => false,
        }
    }

    open spec fn after_apply(s: Namco118State, state: MapperState) -> Option<Namco118State> {
        match state {
            MapperState::Namco118(snap) => if s.accepts(snap) {
                Some(s.restored(snap))
            } else {
                None
            },
            _ => None,
        }
    }

    fn save_state_capture(&self) -> (state: Option<MapperState>) {
        Some(MapperState::Namco118(Namco118Snap {
            variant: self.tag_now(),
            prg_ram: copied(&self.prg_ram),
            chr_ram_data: copy_if_ram(self.chr_ram, &self.chr),
            bank_regs: self.bank_regs,
            bank_select: self.bank_select,
            mirroring: MirroringSnap::from_live(self.mirroring),
            save_dirty: self.save_dirty,
        }))
    }

    fn save_state_apply(&mut self, state: &MapperState) -> (result: Result<(), SaveStateError>) {
        match state {
            MapperState::Namco118(snap) => {
                if snap.variant != self.tag_now() {
                    return Err(SaveStateError::UnsupportedMapper(0));
                }
                reload(&mut self.prg_ram, snap.prg_ram.as_slice());
                restore_if_ram(self.chr_ram, &mut self.chr, &snap.chr_ram_data);
                self.bank_regs = snap.bank_regs;
                self.bank_select = snap.bank_select;
                self.mirroring = snap.mirroring.to_live();
                self.save_dirty = snap.save_dirty;
                Ok(())
            }
            _ => Err(SaveStateError::UnsupportedMapper(0)),
        }
    }

    fn on_ppu_addr(&mut self, addr: u16, ppu_cycle: u64, kind: PpuFetchKind) {
    }
}

/// A snapshot brings back the board it was taken from, whatever happened to it since.
pub proof fn lemma_namco118_round_trip(
    s: Namco118State,
    later: Namco118State,
    state: MapperState,
)
    requires
        Namco118::ok(s),
        Namco118::ok(later),
        s.same_cart(later),
        Namco118::captures(s, Some(state)),
    ensures
        Namco118::snapshot_ok(later, state),
        Namco118::after_apply(later, state) == Some(s),
{
}

/// No write changes the cart's ROM.
pub proof fn lemma_namco118_rom_is_read_only(s: Namco118State, addr: u16, data: u8)
    ensures
        Namco118::after_cpu_write(s, addr, data).prg_rom == s.prg_rom,
        Namco118::after_ppu_write(s, addr, data).prg_rom == s.prg_rom,
        !s.chr_ram ==> Namco118::after_ppu_write(s, addr, data).chr == s.chr,
{
}

/// No write moves the bank at `$C000-$FFFF`.
pub proof fn lemma_namco118_fixed_bank(s: Namco118State, addr: u16, data: u8, read: u16)
    requires
        Namco118::ok(s),
        read >= 0xC000,
    ensures
        ({
            let after = Namco118::after_cpu_write(s, addr, data);
            Namco118::cpu_byte(after, read) == Namco118::cpu_byte(s, read)
        }),
{
}

/// Pattern RAM gives back what was stored.
pub proof fn lemma_namco118_pattern_ram(s: Namco118State, addr: u16, data: u8)
    requires
        Namco118::ok(s),
        s.chr_ram,
        addr < 0x2000,
        0 <= s.chr_index(addr) < s.chr.len(),
    ensures
        ({
            let after = Namco118::after_ppu_write(s, addr, data);
            Namco118::ppu_byte(after, addr) == data
        }),
{
}

/// Work RAM gives back what was stored; a battery save is due exactly when a byte changed.
pub proof fn lemma_namco118_work_ram(s: Namco118State, addr: u16, data: u8)
    requires
        Namco118::ok(s),
        0x6000 <= addr < 0x8000,
        addr - 0x6000 < s.prg_ram.len(),
    ensures
        ({
            let after = Namco118::after_cpu_write(s, addr, data);
            let changed = Namco118::cpu_byte(s, addr) != data;
            &&& Namco118::cpu_byte(after, addr) == data
            &&& !Namco118::save_due(s) ==> Namco118::save_due(after) == (s.battery && changed)
        }),
{
}

/// A save of one cart loaded into another of the same size brings the RAM over; a save of another
/// size changes nothing. Once saved, no save is due.
pub proof fn lemma_namco118_save_round_trip(s: Namco118State, fresh: Namco118State, other: Seq<u8>)
    requires
        s.battery,
        fresh.battery,
        fresh.prg_ram.len() == s.prg_ram.len(),
        other.len() != s.prg_ram.len(),
    ensures
        Namco118::battery_bytes(Namco118::after_load(fresh, s.prg_ram)) == Namco118::battery_bytes(s),
        Namco118::after_load(s, other) == s,
        !Namco118::save_due(Namco118::after_save(s)),
{
}

/// The extra address line splits the pattern memory: registers 0 and 1 read its low half, the
/// others its high half. On a 64 KiB cart each half is 32 KiB.
pub proof fn lemma_split_chr(s: Namco118State, addr: u16)
    requires
        Namco118::ok(s),
        s.splits_chr(),
        s.chr.len() >= 0x800,
        addr < 0x2000,
    ensures
        addr < 0x1000 ==> 0 <= s.chr_index(addr) < s.half_banks() * 0x400,
        addr >= 0x1000 ==> s.half_banks() * 0x400 <= s.chr_index(addr) < s.half_banks() * 0x800,
        s.half_banks() * 0x800 <= s.chr.len(),
        s.chr.len() % 0x800 == 0 ==> s.half_banks() * 0x800 == s.chr.len(),
        s.chr.len() == 0x10000 ==> s.half_banks() * 0x400 == 0x8000,
{
    let slot = addr as int / 0x400;
    let bank = s.chr_bank(slot);
    assert(0 <= bank % s.half_banks() < s.half_banks()) by (nonlinear_arith)
        requires
            s.half_banks() > 0,
    ;
}

/// At power-on a 64 KiB cart shows the start of its low half at `$0000` and the start of its high
/// half in every window from `$1000` on.
pub proof fn lemma_split_chr_at_power_on(cart: Cartridge, variant: Variant, offset: u16)
    requires
        variant == Variant::Mapper88 || variant == Variant::Mapper154,
        !cart.chr_ram,
        cart.chr_rom@.len() == 0x10000,
        offset < 0x400,
    ensures
        ({
            let s = Namco118State::power_on(cart, variant);
            &&& Namco118::ppu_byte(s, offset) == cart.chr_rom@[offset as int]
            &&& forall|slot: int| #![trigger s.chr_page(slot)] 4 <= slot < 8 ==> s.chr_page(slot) == 0x20
            &&& Namco118::ppu_byte(s, (0x1000 + offset) as u16) == cart.chr_rom@[0x8000 + offset]
        }),
{
    assert(0u8 & 0x3F == 0 && 0u8 | 0x40 == 0x40) by (bit_vector);
}

} // verus!
