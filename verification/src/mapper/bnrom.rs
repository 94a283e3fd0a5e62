//! BNROM and NINA-001 (iNES mapper 34), two boards with one number.
//!
//! BNROM (submapper 2) has pattern RAM and one register at `$8000-$FFFF`, masked by the ROM byte
//! under the write, that selects a 32 KiB PRG bank. NINA-001 (submapper 1) has three registers
//! over its work RAM: `$7FFD` selects the PRG bank, `$7FFE` and `$7FFF` the 4 KiB CHR banks of
//! the two pattern tables. Where the header names neither, a cart with CHR-ROM is a NINA-001.
use vstd::prelude::*;

use crate::mapper::{Mapper, NametableSource, NametableWriteTarget, PpuFetchKind};
use crate::mem::{
    bank_count, byte_at, copied, copy_if_ram, count_banks, dirtied, has_chr_ram, in_bank, poke,
    poke_ram, poked, ram_copy, ram_fits, ram_restored, ram_size, read_at, reload, reloaded,
    restore_if_ram, take_chr, work_ram, wrapped_offset, zeros,
};
use crate::rom::{Cartridge, Mirroring};
use crate::save_state::mapper::{BnromSnap, MapperState};
use crate::save_state::SaveStateError;

verus! {

#[derive(Debug, Clone, Copy, PartialEq, Eq, Structural)]
pub enum Variant {
    Bnrom,
    Nina001,
}

pub struct Bnrom {
    pub prg_rom: Vec<u8>,
    pub chr: Vec<u8>,
    pub chr_ram: bool,
    pub prg_ram: Vec<u8>,
    pub variant: Variant,
    pub prg_bank: u8,
    /// CHR banks of the two pattern tables; fixed on BNROM.
    pub chr_banks: [u8; 2],
    pub mirroring: Mirroring,
    pub prg_bank_count_32k: usize,
    pub chr_bank_count_4k: usize,
    pub battery: bool,
    pub save_dirty: bool,
}

/// The state of an [`Bnrom`] board.
#[verifier::ext_equal]
pub struct BnromState {
    pub prg_rom: Seq<u8>,
    pub chr: Seq<u8>,
    pub chr_ram: bool,
    pub prg_ram: Seq<u8>,
    pub variant: Variant,
    pub prg_bank: u8,
    pub chr_banks: Seq<u8>,
    pub mirroring: Mirroring,
    pub prg_bank_count_32k: usize,
    pub chr_bank_count_4k: usize,
    pub battery: bool,
    pub save_dirty: bool,
}

impl View for Bnrom {
    type V = BnromState;

    open spec fn view(&self) -> BnromState {
        BnromState {
            prg_rom: self.prg_rom@,
            chr: self.chr@,
            chr_ram: self.chr_ram,
            prg_ram: self.prg_ram@,
            variant: self.variant,
            prg_bank: self.prg_bank,
            chr_banks: self.chr_banks@,
            mirroring: self.mirroring,
            prg_bank_count_32k: self.prg_bank_count_32k,
            chr_bank_count_4k: self.chr_bank_count_4k,
            battery: self.battery,
            save_dirty: self.save_dirty,
        }
    }
}

impl BnromState {
    /// The board that a header describes.
    pub open spec fn variant_of(cart: Cartridge) -> Variant {
        if cart.submapper == 1 || (cart.submapper != 2 && !has_chr_ram(cart)) {
            Variant::Nina001
        } else {
            Variant::Bnrom
        }
    }

    pub open spec fn power_on(cart: Cartridge) -> BnromState {
        let variant = BnromState::variant_of(cart);
        let chr_ram = variant == Variant::Bnrom || has_chr_ram(cart);
        let chr = if chr_ram { zeros(0x2000) } else { cart.chr_rom@ };
        BnromState {
            prg_rom: cart.prg_rom@,
            chr,
            chr_ram,
            prg_ram: zeros(ram_size(cart, 0x2000)),
            variant,
            prg_bank: 0,
            chr_banks: seq![0u8, 1u8],
            mirroring: cart.mirroring,
            prg_bank_count_32k: bank_count(cart.prg_rom@.len(), 0x8000) as usize,
            chr_bank_count_4k: bank_count(chr.len(), 0x1000) as usize,
            battery: cart.battery_backed,
            save_dirty: false,
        }
    }

    pub open spec fn is_nina(self) -> bool {
        self.variant == Variant::Nina001
    }

    pub open spec fn prg_index(self, addr: u16) -> int {
        in_bank(self.prg_bank as int % self.prg_bank_count_32k as int, 0x8000, addr as int)
    }

    pub open spec fn chr_index(self, addr: u16) -> int {
        in_bank(self.chr_banks[addr as int / 0x1000] as int % self.chr_bank_count_4k as int, 0x1000, addr as int)
    }

    pub open spec fn ram_stored(self, addr: u16, data: u8) -> BnromState {
        BnromState {
            prg_ram: poked(self.prg_ram, addr - 0x6000, data),
            save_dirty: dirtied(self.prg_ram, self.battery, self.save_dirty, addr - 0x6000, data),
            ..self
        }
    }

    /// The board with battery RAM from a save; data of another length is ignored.
    pub open spec fn loaded(self, data: Seq<u8>) -> BnromState {
        if self.battery {
            BnromState { prg_ram: reloaded(self.prg_ram, data), ..self }
        } else {
            self
        }
    }

    /// Whether `snap` was taken in this state.
    pub open spec fn captured(self, snap: BnromSnap) -> bool {
        &&& snap.prg_ram@ == self.prg_ram
        &&& snap.chr_ram_data@ == ram_copy(self.chr_ram, self.chr)
        &&& snap.prg_bank == self.prg_bank
        &&& snap.chr_banks@ == self.chr_banks
        &&& snap.nina001 == self.is_nina()
        &&& snap.save_dirty == self.save_dirty
    }

    /// Whether `snap` is of this variant of the board.
    pub open spec fn accepts(self, snap: BnromSnap) -> bool {
        snap.nina001 == self.is_nina()
    }

    /// The board with what `snap` holds.
    pub open spec fn restored(self, snap: BnromSnap) -> BnromState {
        BnromState {
            prg_ram: reloaded(self.prg_ram, snap.prg_ram@),
            chr: ram_restored(self.chr_ram, self.chr, snap.chr_ram_data@),
            prg_bank: snap.prg_bank,
            chr_banks: snap.chr_banks@,
            save_dirty: snap.save_dirty,
            ..self
        }
    }

    /// Whether `other` is the same cart, at another time.
    pub open spec fn same_cart(self, other: BnromState) -> bool {
        &&& other.prg_ram.len() == self.prg_ram.len()
        &&& self.chr_ram ==> other.chr.len() == self.chr.len()
        &&& !self.chr_ram ==> other.chr == self.chr
        &&& other.prg_rom == self.prg_rom
        &&& other.chr_ram == self.chr_ram
        &&& other.variant == self.variant
        &&& other.mirroring == self.mirroring
        &&& other.prg_bank_count_32k == self.prg_bank_count_32k
        &&& other.chr_bank_count_4k == self.chr_bank_count_4k
        &&& other.battery == self.battery
    }
}

impl Bnrom {
    pub fn new(cart: Cartridge) -> (m: Self)
        requires
            ram_fits(cart),
        ensures
            Self::ok(m@),
            m@ == BnromState::power_on(cart),
    {
        let is_ram: bool = cart.chr_ram || cart.chr_rom.len() == 0;
        let variant: Variant = match cart.submapper {
            1 => Variant::Nina001,
            2 => Variant::Bnrom,
            _ => if is_ram { Variant::Bnrom } else { Variant::Nina001 },
        };
        let force_ram: bool = cart.chr_ram || variant == Variant::Bnrom;
        let (chr, chr_ram): (Vec<u8>, bool) = take_chr(cart.chr_rom, force_ram, 0x2000);
        let m: Bnrom = Bnrom {
            prg_bank_count_32k: count_banks(&cart.prg_rom, 0x8000),
            chr_bank_count_4k: count_banks(&chr, 0x1000),
            prg_rom: cart.prg_rom,
            chr,
            chr_ram,
            prg_ram: work_ram(cart.prg_ram_size, cart.prg_nvram_size, 0x2000),
            variant,
            prg_bank: 0,
            chr_banks: [0, 1],
            mirroring: cart.mirroring,
            battery: cart.battery_backed,
            save_dirty: false,
        };
        assert(m@.chr_banks =~= seq![0u8, 1u8]);
        m
    }

    fn is_nina_now(&self) -> (yes: bool)
        ensures
            yes == self@.is_nina(),
    {
        self.variant == Variant::Nina001
    }

    fn prg_byte(&self, addr: u16) -> (byte: u8)
        requires
            Self::ok(self@),
        ensures
            byte == byte_at(self@.prg_rom, self@.prg_index(addr)),
    {
        let i: usize = wrapped_offset(&self.prg_rom, self.prg_bank_count_32k, self.prg_bank as usize, 0x8000, addr);
        read_at(&self.prg_rom, i)
    }

    fn map_chr(&self, addr: u16) -> (i: usize)
        requires
            Self::ok(self@),
            addr < 0x2000,
        ensures
            i == self@.chr_index(addr),
    {
        let bank: usize = self.chr_banks[addr as usize / 0x1000] as usize;
        wrapped_offset(&self.chr, self.chr_bank_count_4k, bank, 0x1000, addr)
    }

    fn write_ram(&mut self, addr: u16, data: u8)
        requires
            Self::ok(old(self)@),
            addr >= 0x6000,
        ensures
            Self::ok(final(self)@),
            final(self)@ == old(self)@.ram_stored(addr, data),
    {
        poke_ram(&mut self.prg_ram, &mut self.save_dirty, self.battery, (addr - 0x6000) as usize, data);
    }
}

impl Mapper for Bnrom {
    open spec fn ok(s: BnromState) -> bool {
        &&& s.prg_bank_count_32k == bank_count(s.prg_rom.len(), 0x8000)
        &&& s.chr_bank_count_4k == bank_count(s.chr.len(), 0x1000)
        &&& s.chr_banks.len() == 2
    }

    open spec fn cpu_byte(s: BnromState, addr: u16) -> u8 {
        if addr >= 0x8000 {
            byte_at(s.prg_rom, s.prg_index(addr))
        } else if addr >= 0x6000 {
            byte_at(s.prg_ram, addr - 0x6000)
        } else {
            0
        }
    }

    open spec fn after_cpu_write(s: BnromState, addr: u16, data: u8) -> BnromState {
        match s.variant {
            Variant::Nina001 => if addr == 0x7FFD {
                BnromState { prg_bank: data, ..s }
            } else if addr == 0x7FFE {
                BnromState { chr_banks: s.chr_banks.update(0, data), ..s }
            } else if addr == 0x7FFF {
                BnromState { chr_banks: s.chr_banks.update(1, data), ..s }
            } else if 0x6000 <= addr < 0x8000 {
                s.ram_stored(addr, data)
            } else {
                s
            },
            Variant::Bnrom => if addr >= 0x8000 {
                BnromState { prg_bank: data & Self::cpu_byte(s, addr), ..s }
            } else if addr >= 0x6000 {
                s.ram_stored(addr, data)
            } else {
                s
            },
        }
    }

    open spec fn ppu_byte(s: BnromState, addr: u16) -> u8 {
        if addr < 0x2000 {
            byte_at(s.chr, s.chr_index(addr))
        } else {
            0
        }
    }

    open spec fn after_ppu_write(s: BnromState, addr: u16, data: u8) -> BnromState {
        if s.chr_ram && addr < 0x2000 {
            BnromState { chr: poked(s.chr, s.chr_index(addr), data), ..s }
        } else {
            s
        }
    }

    fn cpu_read(&mut self, addr: u16) -> (byte: u8) {
        self.cpu_peek(addr)
    }

    fn cpu_peek(&self, addr: u16) -> (byte: u8) {
        match addr {
            0x6000..=0x7FFF => read_at(&self.prg_ram, (addr - 0x6000) as usize),
            0x8000..=0xFFFF => self.prg_byte(addr),
            _ => 0,
        }
    }

    fn cpu_write(&mut self, addr: u16, data: u8) {
        match self.variant {
            Variant::Nina001 => match addr {
                0x7FFD => {
                    self.prg_bank = data;
                }
                0x7FFE => {
                    self.chr_banks[0] = data;
                }
                0x7FFF => {
                    self.chr_banks[1] = data;
                }
                0x6000..=0x7FFC => self.write_ram(addr, data),
                _ => {}
            },
            Variant::Bnrom => match addr {
                0x6000..=0x7FFF => self.write_ram(addr, data),
                0x8000..=0xFFFF => {
                    let rom_byte: u8 = self.prg_byte(addr);
                    self.prg_bank = data & rom_byte;
                }
                _ => {}
            },
        }
    }

    fn ppu_read(&mut self, addr: u16) -> (byte: u8) {
        if addr < 0x2000 {
            read_at(&self.chr, self.map_chr(addr))
        } else {
            0
        }
    }

    fn ppu_write(&mut self, addr: u16, data: u8) {
        if self.chr_ram && addr < 0x2000 {
            let i: usize = self.map_chr(addr);
            poke(&mut self.chr, i, data);
        }
    }

    open spec fn mirrored(s: BnromState) -> Mirroring {
        s.mirroring
    }

    fn mirroring(&self) -> (mode: Mirroring) {
        self.mirroring
    }

    fn cpu_read_ex(&mut self, addr: u16) -> (byte: Option<u8>) {
        None
    }

    fn on_cpu_cycle(&mut self) {
    }

    fn irq_line(&self) -> (asserted: bool) {
        false
    }

    open spec fn battery_bytes(s: BnromState) -> Option<Seq<u8>> {
        if s.battery {
            Some(s.prg_ram)
        } else {
            None
        }
    }

    open spec fn after_load(s: BnromState, data: Seq<u8>) -> BnromState {
        s.loaded(data)
    }

    open spec fn save_due(s: BnromState) -> bool {
        s.save_dirty
    }

    open spec fn after_save(s: BnromState) -> BnromState {
        BnromState { save_dirty: false, ..s }
    }

    fn save_data(&self) -> (bytes: Option<&[u8]>) {
        if self.battery {
            Some(self.prg_ram.as_slice())
        } else {
            None
        }
    }

    fn load_save_data(&mut self, data: &[u8]) {
        if self.battery {
            reload(&mut self.prg_ram, data);
        }
    }

    fn save_dirty(&self) -> (dirty: bool) {
        self.save_dirty
    }

    fn mark_saved(&mut self) {
        self.save_dirty = false;
    }

    open spec fn captures(s: BnromState, state: Option<MapperState>) -> bool {
        match state {
            Some(MapperState::Bnrom(snap)) => s.captured(snap),
            _ => false,
        }
    }

    open spec fn after_apply(s: BnromState, state: MapperState) -> Option<BnromState> {
        match state {
            MapperState::Bnrom(snap) => if s.accepts(snap) {
                Some(s.restored(snap))
            } else {
                None
            },
            _ => None,
        }
    }

    fn save_state_capture(&self) -> (state: Option<MapperState>) {
        Some(MapperState::Bnrom(BnromSnap {
            prg_ram: copied(&self.prg_ram),
            chr_ram_data: copy_if_ram(self.chr_ram, &self.chr),
            prg_bank: self.prg_bank,
            chr_banks: self.chr_banks,
            nina001: self.is_nina_now(),
            save_dirty: self.save_dirty,
        }))
    }

    fn save_state_apply(&mut self, state: &MapperState) -> (result: Result<(), SaveStateError>) {
        match state {
            MapperState::Bnrom(snap) => {
                if snap.nina001 != self.is_nina_now() {
                    return Err(SaveStateError::UnsupportedMapper(0));
                }
                reload(&mut self.prg_ram, snap.prg_ram.as_slice());
                restore_if_ram(self.chr_ram, &mut self.chr, &snap.chr_ram_data);
                self.prg_bank = snap.prg_bank;
                self.chr_banks = snap.chr_banks;
                self.save_dirty = snap.save_dirty;
                Ok(())
            }
            _ => Err(SaveStateError::UnsupportedMapper(0)),
        }
    }

    fn ppu_nametable_read(&mut self, slot: u8, offset: u16) -> (source: NametableSource) {
        NametableSource::Default
    }

    fn ppu_nametable_write(&mut self, slot: u8, offset: u16, data: u8) -> (target: NametableWriteTarget) {
        NametableWriteTarget::Default
    }

    fn on_ppu_addr(&mut self, addr: u16, ppu_cycle: u64, kind: PpuFetchKind) {
    }
}

/// A snapshot brings back the board it was taken from, whatever happened to it since.
pub proof fn lemma_bnrom_round_trip(
    s: BnromState,
    later: BnromState,
    state: MapperState,
)
    requires
        Bnrom::ok(s),
        Bnrom::ok(later),
        s.same_cart(later),
        Bnrom::captures(s, Some(state)),
    ensures
        Bnrom::snapshot_ok(later, state),
        Bnrom::after_apply(later, state) == Some(s),
{
}

/// No write changes the mirroring.
pub proof fn lemma_bnrom_mirroring_is_fixed(s: BnromState, addr: u16, data: u8)
    ensures
        ({
            let written = Bnrom::after_cpu_write(s, addr, data);
            let drawn = Bnrom::after_ppu_write(s, addr, data);
            Bnrom::mirrored(written) == Bnrom::mirrored(s) && Bnrom::mirrored(drawn) == Bnrom::mirrored(s)
        }),
{
}

/// No write changes the cart's ROM.
pub proof fn lemma_bnrom_rom_is_read_only(s: BnromState, addr: u16, data: u8)
    ensures
        Bnrom::after_cpu_write(s, addr, data).prg_rom == s.prg_rom,
        Bnrom::after_ppu_write(s, addr, data).prg_rom == s.prg_rom,
        !s.chr_ram ==> Bnrom::after_ppu_write(s, addr, data).chr == s.chr,
{
}

/// Pattern RAM gives back what was stored.
pub proof fn lemma_bnrom_pattern_ram(s: BnromState, addr: u16, data: u8)
    requires
        Bnrom::ok(s),
        s.chr_ram,
        addr < 0x2000,
        0 <= s.chr_index(addr) < s.chr.len(),
    ensures
        ({
            let after = Bnrom::after_ppu_write(s, addr, data);
            Bnrom::ppu_byte(after, addr) == data
        }),
{
}

/// Work RAM gives back what was stored; a battery save is due exactly when a byte changed.
pub proof fn lemma_bnrom_work_ram(s: BnromState, addr: u16, data: u8)
    requires
        Bnrom::ok(s),
        0x6000 <= addr < 0x8000,
        addr - 0x6000 < s.prg_ram.len(),
        s.variant == Variant::Bnrom || addr < 0x7FFD,
    ensures
        ({
            let after = Bnrom::after_cpu_write(s, addr, data);
            let changed = Bnrom::cpu_byte(s, addr) != data;
            &&& Bnrom::cpu_byte(after, addr) == data
            &&& !Bnrom::save_due(s) ==> Bnrom::save_due(after) == (s.battery && changed)
        }),
{
}

/// A save of one cart loaded into another of the same size brings the RAM over; a save of another
/// size changes nothing. Once saved, no save is due.
pub proof fn lemma_bnrom_save_round_trip(s: BnromState, fresh: BnromState, other: Seq<u8>)
    requires
        s.battery,
        fresh.battery,
        fresh.prg_ram.len() == s.prg_ram.len(),
        other.len() != s.prg_ram.len(),
    ensures
        Bnrom::battery_bytes(Bnrom::after_load(fresh, s.prg_ram)) == Bnrom::battery_bytes(s),
        Bnrom::after_load(s, other) == s,
        !Bnrom::save_due(Bnrom::after_save(s)),
{
}

} // verus!
