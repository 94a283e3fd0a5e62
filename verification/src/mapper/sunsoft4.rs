//! Sunsoft-4 (iNES mapper 68).
//!
//! | page | effect |
//! |---|---|
//! | `$8000`, `$9000`, `$A000`, `$B000` | 2 KiB CHR banks 0 to 3 |
//! | `$C000`, `$D000` | nametable registers 0 and 1, bit 7 set on top |
//! | `$E000` | bits 0-1: mirroring as below; bit 4: nametables from CHR-ROM |
//! | `$F000` | bits 0-3: 16 KiB PRG bank at `$8000-$BFFF`; bit 4: work RAM enable |
//!
//! The mirrorings are vertical, horizontal, single-screen lower and upper. `$C000-$FFFF` has the
//! last PRG bank. Nametables from CHR-ROM come out of 1 KiB banks that the
//! nametable registers select; the mirroring tells which register serves which nametable.
use vstd::prelude::*;

use crate::mapper::bandai_fcg::{mirroring_of, select_mirroring};
use crate::mapper::{Mapper, NametableSource, NametableWriteTarget, PpuFetchKind};
use crate::mem::{
    bank_count, bank_offset, byte_at, chr_image, copied, copy_if_ram, count_banks, dirtied,
    has_chr_ram, in_bank, poke, poke_ram, poked, ram_copy, ram_fits, ram_restored, ram_size,
    read_at, reload, reloaded, restore_if_ram, take_chr, work_ram, wrapped_offset, zeros,
};
use crate::rom::{Cartridge, Mirroring};
use crate::save_state::mapper::{MapperState, Sunsoft4Snap};
use crate::save_state::{MirroringSnap, SaveStateError};

verus! {

pub struct Sunsoft4 {
    pub prg_rom: Vec<u8>,
    pub chr: Vec<u8>,
    pub chr_ram: bool,
    pub prg_ram: Vec<u8>,
    pub prg_bank: u8,
    pub prg_ram_enabled: bool,
    pub chr_banks: [u8; 4],
    pub nt_regs: [u8; 2],
    pub use_chr_for_nametables: bool,
    pub prg_bank_count_16k: usize,
    pub chr_bank_count_2k: usize,
    pub chr_bank_count_1k: usize,
    pub mirroring: Mirroring,
    pub battery: bool,
    pub save_dirty: bool,
}

/// The state of an [`Sunsoft4`] board.
#[verifier::ext_equal]
pub struct Sunsoft4State {
    pub prg_rom: Seq<u8>,
    pub chr: Seq<u8>,
    pub chr_ram: bool,
    pub prg_ram: Seq<u8>,
    pub prg_bank: u8,
    pub prg_ram_enabled: bool,
    pub chr_banks: Seq<u8>,
    pub nt_regs: Seq<u8>,
    pub use_chr_for_nametables: bool,
    pub prg_bank_count_16k: usize,
    pub chr_bank_count_2k: usize,
    pub chr_bank_count_1k: usize,
    pub mirroring: Mirroring,
    pub battery: bool,
    pub save_dirty: bool,
}

impl View for Sunsoft4 {
    type V = Sunsoft4State;

    open spec fn view(&self) -> Sunsoft4State {
        Sunsoft4State {
            prg_rom: self.prg_rom@,
            chr: self.chr@,
            chr_ram: self.chr_ram,
            prg_ram: self.prg_ram@,
            prg_bank: self.prg_bank,
            prg_ram_enabled: self.prg_ram_enabled,
            chr_banks: self.chr_banks@,
            nt_regs: self.nt_regs@,
            use_chr_for_nametables: self.use_chr_for_nametables,
            prg_bank_count_16k: self.prg_bank_count_16k,
            chr_bank_count_2k: self.chr_bank_count_2k,
            chr_bank_count_1k: self.chr_bank_count_1k,
            mirroring: self.mirroring,
            battery: self.battery,
            save_dirty: self.save_dirty,
        }
    }
}

impl Sunsoft4State {
    pub open spec fn power_on(cart: Cartridge) -> Sunsoft4State {
        Sunsoft4State {
            prg_rom: cart.prg_rom@,
            chr: chr_image(cart, 0x2000),
            chr_ram: has_chr_ram(cart),
            prg_ram: zeros(ram_size(cart, 0x2000)),
            prg_bank: 0,
            prg_ram_enabled: false,
            chr_banks: zeros(4),
            nt_regs: zeros(2),
            use_chr_for_nametables: false,
            prg_bank_count_16k: bank_count(cart.prg_rom@.len(), 0x4000) as usize,
            chr_bank_count_2k: bank_count(chr_image(cart, 0x2000).len(), 0x800) as usize,
            chr_bank_count_1k: bank_count(chr_image(cart, 0x2000).len(), 0x400) as usize,
            mirroring: cart.mirroring,
            battery: cart.battery_backed,
            save_dirty: false,
        }
    }

    pub open spec fn prg_byte_index(self, addr: u16) -> int {
        if addr < 0xC000 {
            in_bank(self.prg_bank as int % self.prg_bank_count_16k as int, 0x4000, addr as int)
        } else {
            in_bank(self.prg_bank_count_16k - 1, 0x4000, addr as int)
        }
    }

    pub open spec fn chr_index(self, addr: u16) -> int {
        in_bank(self.chr_banks[addr as int / 0x800 % 4] as int % self.chr_bank_count_2k as int, 0x800, addr as int)
    }

    /// The nametable register that serves nametable `slot`.
    pub open spec fn nt_reg(self, slot: u8) -> int {
        match self.mirroring {
            Mirroring::Vertical => slot as int % 2,
            Mirroring::Horizontal => slot as int / 2 % 2,
            Mirroring::SingleScreenLower => 0,
            Mirroring::SingleScreenUpper => 1,
            Mirroring::FourScreen => slot as int % 2,
        }
    }

    /// The byte of nametable `slot` when it comes from CHR-ROM.
    pub open spec fn nt_byte(self, slot: u8, offset: u16) -> u8 {
        let bank = (self.nt_regs[self.nt_reg(slot)] & 0x7F) as int % self.chr_bank_count_1k as int;
        byte_at(self.chr, in_bank(bank, 0x400, offset as int))
    }

    /// The board after a write to the register of page `page`.
    pub open spec fn wrote_register(self, page: int, data: u8) -> Sunsoft4State {
        if page < 0xC {
            Sunsoft4State { chr_banks: self.chr_banks.update(page - 8, data), ..self }
        } else if page < 0xE {
            Sunsoft4State { nt_regs: self.nt_regs.update(page - 0xC, data | 0x80), ..self }
        } else if page == 0xE {
            Sunsoft4State {
                mirroring: mirroring_of(data),
                use_chr_for_nametables: data & 0x10 != 0,
                ..self
            }
        } else {
            Sunsoft4State { prg_bank: data & 0x0F, prg_ram_enabled: data & 0x10 != 0, ..self }
        }
    }

    /// The board with battery RAM from a save; data of another length is ignored.
    pub open spec fn loaded(self, data: Seq<u8>) -> Sunsoft4State {
        if self.battery {
            Sunsoft4State { prg_ram: reloaded(self.prg_ram, data), ..self }
        } else {
            self
        }
    }

    /// Whether `snap` was taken in this state.
    pub open spec fn captured(self, snap: Sunsoft4Snap) -> bool {
        &&& snap.prg_ram@ == self.prg_ram
        &&& snap.chr_ram_data@ == ram_copy(self.chr_ram, self.chr)
        &&& snap.prg_bank == self.prg_bank
        &&& snap.prg_ram_enabled == self.prg_ram_enabled
        &&& snap.chr_banks@ == self.chr_banks
        &&& snap.nt_regs@ == self.nt_regs
        &&& snap.use_chr_for_nametables == self.use_chr_for_nametables
        &&& snap.mirroring == MirroringSnap::of(self.mirroring)
        &&& snap.save_dirty == self.save_dirty
    }

    /// The board with what `snap` holds.
    pub open spec fn restored(self, snap: Sunsoft4Snap) -> Sunsoft4State {
        Sunsoft4State {
            prg_ram: reloaded(self.prg_ram, snap.prg_ram@),
            chr: ram_restored(self.chr_ram, self.chr, snap.chr_ram_data@),
            prg_bank: snap.prg_bank,
            prg_ram_enabled: snap.prg_ram_enabled,
            chr_banks: snap.chr_banks@,
            nt_regs: snap.nt_regs@,
            use_chr_for_nametables: snap.use_chr_for_nametables,
            mirroring: snap.mirroring.live(),
            save_dirty: snap.save_dirty,
            ..self
        }
    }

    /// Whether `other` is the same cart, at another time.
    pub open spec fn same_cart(self, other: Sunsoft4State) -> bool {
        &&& other.prg_ram.len() == self.prg_ram.len()
        &&& self.chr_ram ==> other.chr.len() == self.chr.len()
        &&& !self.chr_ram ==> other.chr == self.chr
        &&& other.prg_rom == self.prg_rom
        &&& other.chr_ram == self.chr_ram
        &&& other.prg_bank_count_16k == self.prg_bank_count_16k
        &&& other.chr_bank_count_2k == self.chr_bank_count_2k
        &&& other.chr_bank_count_1k == self.chr_bank_count_1k
        &&& other.battery == self.battery
    }
}

impl Sunsoft4 {
    pub fn new(cart: Cartridge) -> (m: Self)
        requires
            ram_fits(cart),
        ensures
            Self::ok(m@),
            m@ == Sunsoft4State::power_on(cart),
    {
        let (chr, chr_ram): (Vec<u8>, bool) = take_chr(cart.chr_rom, cart.chr_ram, 0x2000);
        let m: Sunsoft4 = Sunsoft4 {
            prg_bank_count_16k: count_banks(&cart.prg_rom, 0x4000),
            chr_bank_count_2k: count_banks(&chr, 0x800),
            chr_bank_count_1k: count_banks(&chr, 0x400),
            prg_rom: cart.prg_rom,
            chr,
            chr_ram,
            prg_ram: work_ram(cart.prg_ram_size, cart.prg_nvram_size, 0x2000),
            prg_bank: 0,
            prg_ram_enabled: false,
            chr_banks: [0; 4],
            nt_regs: [0; 2],
            use_chr_for_nametables: false,
            mirroring: cart.mirroring,
            battery: cart.battery_backed,
            save_dirty: false,
        };
        assert(m@.chr_banks =~= zeros(4));
        assert(m@.nt_regs =~= zeros(2));
        m
    }

    fn prg_index(&self, addr: u16) -> (i: usize)
        requires
            Self::ok(self@),
        ensures
            i == self@.prg_byte_index(addr),
    {
        if addr < 0xC000 {
            wrapped_offset(&self.prg_rom, self.prg_bank_count_16k, self.prg_bank as usize, 0x4000, addr)
        } else {
            bank_offset(&self.prg_rom, self.prg_bank_count_16k, self.prg_bank_count_16k - 1, 0x4000, addr)
        }
    }

    fn map_chr(&self, addr: u16) -> (i: usize)
        requires
            Self::ok(self@),
        ensures
            i == self@.chr_index(addr),
    {
        let bank: usize = self.chr_banks[addr as usize / 0x800 % 4] as usize;
        wrapped_offset(&self.chr, self.chr_bank_count_2k, bank, 0x800, addr)
    }

    fn nt_reg_for_slot(&self, slot: u8) -> (reg: u8)
        ensures
            reg == self@.nt_reg(slot),
            reg < 2,
    {
        match self.mirroring {
            Mirroring::Vertical => slot % 2,
            Mirroring::Horizontal => slot / 2 % 2,
            Mirroring::SingleScreenLower => 0,
            Mirroring::SingleScreenUpper => 1,
            Mirroring::FourScreen => slot % 2,
        }
    }

    fn write_register(&mut self, page: u16, data: u8)
        requires
            Self::ok(old(self)@),
            8 <= page <= 0xF,
        ensures
            Self::ok(final(self)@),
            final(self)@ == old(self)@.wrote_register(page as int, data),
    {
        match page {
            0x8..=0xB => {
                self.chr_banks[page as usize - 8] = data;
            }
            0xC..=0xD => {
                self.nt_regs[page as usize - 0xC] = data | 0x80;
            }
            0xE => {
                self.mirroring = select_mirroring(data);
                self.use_chr_for_nametables = (data & 0x10) != 0;
            }
            _ => {
                self.prg_bank = data & 0x0F;
                self.prg_ram_enabled = (data & 0x10) != 0;
            }
        }
    }
}

impl Mapper for Sunsoft4 {
    open spec fn ok(s: Sunsoft4State) -> bool {
        &&& s.prg_bank_count_16k == bank_count(s.prg_rom.len(), 0x4000)
        &&& s.chr_bank_count_2k == bank_count(s.chr.len(), 0x800)
        &&& s.chr_bank_count_1k == bank_count(s.chr.len(), 0x400)
        &&& s.chr_banks.len() == 4
        &&& s.nt_regs.len() == 2
    }

    open spec fn cpu_byte(s: Sunsoft4State, addr: u16) -> u8 {
        if addr >= 0x8000 {
            byte_at(s.prg_rom, s.prg_byte_index(addr))
        } else if addr >= 0x6000 && s.prg_ram_enabled {
            byte_at(s.prg_ram, addr - 0x6000)
        } else {
            0
        }
    }

    open spec fn after_cpu_write(s: Sunsoft4State, addr: u16, data: u8) -> Sunsoft4State {
        if addr >= 0x8000 {
            s.wrote_register(addr as int / 0x1000, data)
        } else if addr >= 0x6000 && s.prg_ram_enabled {
            Sunsoft4State {
                prg_ram: poked(s.prg_ram, addr - 0x6000, data),
                save_dirty: dirtied(s.prg_ram, s.battery, s.save_dirty, addr - 0x6000, data),
                ..s
            }
        } else {
            s
        }
    }

    open spec fn ppu_byte(s: Sunsoft4State, addr: u16) -> u8 {
        if addr < 0x2000 {
            byte_at(s.chr, s.chr_index(addr))
        } else {
            0
        }
    }

    open spec fn after_ppu_write(s: Sunsoft4State, addr: u16, data: u8) -> Sunsoft4State {
        if s.chr_ram && addr < 0x2000 {
            Sunsoft4State { chr: poked(s.chr, s.chr_index(addr), data), ..s }
        } else {
            s
        }
    }

    fn cpu_read(&mut self, addr: u16) -> (byte: u8) {
        self.cpu_peek(addr)
    }

    fn cpu_peek(&self, addr: u16) -> (byte: u8) {
        match addr {
            0x6000..=0x7FFF => {
                if !self.prg_ram_enabled {
                    return 0;
                }
                read_at(&self.prg_ram, (addr - 0x6000) as usize)
            }
            0x8000..=0xFFFF => read_at(&self.prg_rom, self.prg_index(addr)),
            _ => 0,
        }
    }

    fn cpu_write(&mut self, addr: u16, data: u8) {
        match addr {
            0x6000..=0x7FFF => {
                if self.prg_ram_enabled {
                    poke_ram(&mut self.prg_ram, &mut self.save_dirty, self.battery, (addr - 0x6000) as usize, data);
                }
            }
            0x8000..=0xFFFF => self.write_register(addr / 0x1000, data),
            _ => {}
        }
    }

    fn ppu_read(&mut self, addr: u16) -> (byte: u8) {
        if addr < 0x2000 {
            read_at(&self.chr, self.map_chr(addr))
        } else {
            0
        }
    }

    fn ppu_write(&mut self, addr: u16, data: u8) {
        if self.chr_ram && addr < 0x2000 {
            let i: usize = self.map_chr(addr);
            poke(&mut self.chr, i, data);
        }
    }

    open spec fn mirrored(s: Sunsoft4State) -> Mirroring {
        s.mirroring
    }

    fn mirroring(&self) -> (mode: Mirroring) {
        self.mirroring
    }

    fn cpu_read_ex(&mut self, addr: u16) -> (byte: Option<u8>) {
        None
    }

    fn on_cpu_cycle(&mut self) {
    }

    fn irq_line(&self) -> (asserted: bool) {
        false
    }

    open spec fn nametable_source(s: Sunsoft4State, slot: u8, offset: u16) -> NametableSource {
        if s.use_chr_for_nametables {
            NametableSource::Byte(s.nt_byte(slot, offset))
        } else {
            NametableSource::Default
        }
    }

    fn ppu_nametable_read(&mut self, slot: u8, offset: u16) -> (source: NametableSource) {
        if !self.use_chr_for_nametables {
            return NametableSource::Default;
        }
        let reg_idx: usize = self.nt_reg_for_slot(slot) as usize;
        let bank: usize = (self.nt_regs[reg_idx] & 0x7F) as usize;
        let i: usize = wrapped_offset(&self.chr, self.chr_bank_count_1k, bank, 0x400, offset);
        NametableSource::Byte(read_at(&self.chr, i))
    }

    open spec fn battery_bytes(s: Sunsoft4State) -> Option<Seq<u8>> {
        if s.battery {
            Some(s.prg_ram)
        } else {
            None
        }
    }

    open spec fn after_load(s: Sunsoft4State, data: Seq<u8>) -> Sunsoft4State {
        s.loaded(data)
    }

    open spec fn save_due(s: Sunsoft4State) -> bool {
        s.save_dirty
    }

    open spec fn after_save(s: Sunsoft4State) -> Sunsoft4State {
        Sunsoft4State { save_dirty: false, ..s }
    }

    fn save_data(&self) -> (bytes: Option<&[u8]>) {
        if self.battery {
            Some(self.prg_ram.as_slice())
        } else {
            None
        }
    }

    fn load_save_data(&mut self, data: &[u8]) {
        if self.battery {
            reload(&mut self.prg_ram, data);
        }
    }

    fn save_dirty(&self) -> (dirty: bool) {
        self.save_dirty
    }

    fn mark_saved(&mut self) {
        self.save_dirty = false;
    }

    open spec fn captures(s: Sunsoft4State, state: Option<MapperState>) -> bool {
        match state {
            Some(MapperState::Sunsoft4(snap)) => s.captured(snap),
            _ => false,
        }
    }

    open spec fn after_apply(s: Sunsoft4State, state: MapperState) -> Option<Sunsoft4State> {
        match state {
            MapperState::Sunsoft4(snap) => Some(s.restored(snap)),
            _ => None,
        }
    }

    fn save_state_capture(&self) -> (state: Option<MapperState>) {
        Some(MapperState::Sunsoft4(Sunsoft4Snap {
            prg_ram: copied(&self.prg_ram),
            chr_ram_data: copy_if_ram(self.chr_ram, &self.chr),
            prg_bank: self.prg_bank,
            prg_ram_enabled: self.prg_ram_enabled,
            chr_banks: self.chr_banks,
            nt_regs: self.nt_regs,
            use_chr_for_nametables: self.use_chr_for_nametables,
            mirroring: MirroringSnap::from_live(self.mirroring),
            save_dirty: self.save_dirty,
        }))
    }

    fn save_state_apply(&mut self, state: &MapperState) -> (result: Result<(), SaveStateError>) {
        match state {
            MapperState::Sunsoft4(snap) => {
                reload(&mut self.prg_ram, snap.prg_ram.as_slice());
                restore_if_ram(self.chr_ram, &mut self.chr, &snap.chr_ram_data);
                self.prg_bank = snap.prg_bank;
                self.prg_ram_enabled = snap.prg_ram_enabled;
                self.chr_banks = snap.chr_banks;
                self.nt_regs = snap.nt_regs;
                self.use_chr_for_nametables = snap.use_chr_for_nametables;
                self.mirroring = snap.mirroring.to_live();
                self.save_dirty = snap.save_dirty;
                Ok(())
            }
            _ => Err(SaveStateError::UnsupportedMapper(0)),
        }
    }

    fn ppu_nametable_write(&mut self, slot: u8, offset: u16, data: u8) -> (target: NametableWriteTarget) {
        NametableWriteTarget::Default
    }

    fn on_ppu_addr(&mut self, addr: u16, ppu_cycle: u64, kind: PpuFetchKind) {
    }
}

/// A snapshot brings back the board it was taken from, whatever happened to it since.
pub proof fn lemma_sunsoft4_round_trip(
    s: Sunsoft4State,
    later: Sunsoft4State,
    state: MapperState,
)
    requires
        Sunsoft4::ok(s),
        Sunsoft4::ok(later),
        s.same_cart(later),
        Sunsoft4::captures(s, Some(state)),
    ensures
        Sunsoft4::snapshot_ok(later, state),
        Sunsoft4::after_apply(later, state) == Some(s),
{
}

/// No write changes the cart's ROM.
pub proof fn lemma_sunsoft4_rom_is_read_only(s: Sunsoft4State, addr: u16, data: u8)
    ensures
        Sunsoft4::after_cpu_write(s, addr, data).prg_rom == s.prg_rom,
        Sunsoft4::after_ppu_write(s, addr, data).prg_rom == s.prg_rom,
        !s.chr_ram ==> Sunsoft4::after_ppu_write(s, addr, data).chr == s.chr,
{
}

/// No write moves the bank at `$C000-$FFFF`.
pub proof fn lemma_sunsoft4_fixed_bank(s: Sunsoft4State, addr: u16, data: u8, read: u16)
    requires
        Sunsoft4::ok(s),
        read >= 0xC000,
    ensures
        ({
            let after = Sunsoft4::after_cpu_write(s, addr, data);
            Sunsoft4::cpu_byte(after, read) == Sunsoft4::cpu_byte(s, read)
        }),
{
}

/// Pattern RAM gives back what was stored.
pub proof fn lemma_sunsoft4_pattern_ram(s: Sunsoft4State, addr: u16, data: u8)
    requires
        Sunsoft4::ok(s),
        s.chr_ram,
        addr < 0x2000,
        0 <= s.chr_index(addr) < s.chr.len(),
    ensures
        ({
            let after = Sunsoft4::after_ppu_write(s, addr, data);
            Sunsoft4::ppu_byte(after, addr) == data
        }),
{
}

/// Work RAM gives back what was stored; a battery save is due exactly when a byte changed.
pub proof fn lemma_sunsoft4_work_ram(s: Sunsoft4State, addr: u16, data: u8)
    requires
        Sunsoft4::ok(s),
        0x6000 <= addr < 0x8000,
        addr - 0x6000 < s.prg_ram.len(),
        s.prg_ram_enabled,
    ensures
        ({
            let after = Sunsoft4::after_cpu_write(s, addr, data);
            let changed = Sunsoft4::cpu_byte(s, addr) != data;
            &&& Sunsoft4::cpu_byte(after, addr) == data
            &&& !Sunsoft4::save_due(s) ==> Sunsoft4::save_due(after) == (s.battery && changed)
        }),
{
}

/// A save of one cart loaded into another of the same size brings the RAM over; a save of another
/// size changes nothing. Once saved, no save is due.
pub proof fn lemma_sunsoft4_save_round_trip(s: Sunsoft4State, fresh: Sunsoft4State, other: Seq<u8>)
    requires
        s.battery,
        fresh.battery,
        fresh.prg_ram.len() == s.prg_ram.len(),
        other.len() != s.prg_ram.len(),
    ensures
        Sunsoft4::battery_bytes(Sunsoft4::after_load(fresh, s.prg_ram)) == Sunsoft4::battery_bytes(s),
        Sunsoft4::after_load(s, other) == s,
        !Sunsoft4::save_due(Sunsoft4::after_save(s)),
{
}

} // verus!
