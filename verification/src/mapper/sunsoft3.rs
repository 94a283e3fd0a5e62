//! Sunsoft-3 (iNES mapper 67).
//!
//! Registers answer in the upper half of each 4 KiB page:
//!
//! | address | effect |
//! |---|---|
//! | `$8800`, `$9800`, `$A800`, `$B800` | 2 KiB CHR banks 0 to 3 |
//! | `$C800` | IRQ counter, high byte and low byte in turn |
//! | `$D800` | bit 4: IRQ enable; acknowledges, and makes the next counter byte the high one |
//! | `$E800` | mirroring: vertical, horizontal, single-screen lower, upper |
//! | `$F800` | 16 KiB PRG bank at `$8000-$BFFF`; `$C000-$FFFF` has the last bank |
//!
//! The counter counts CPU cycles down while enabled. When it goes below zero it raises the
//! interrupt and disables itself.
use vstd::prelude::*;

use crate::mapper::bandai_fcg::{mirroring_of, select_mirroring};
use crate::mapper::{after_cycles, Mapper, NametableSource, NametableWriteTarget, PpuFetchKind};
use crate::mem::{
    bank_count, bank_offset, byte_at, chr_image, copied, copy_if_ram, count_banks, dirtied,
    has_chr_ram, in_bank, poke, poke_ram, poked, ram_copy, ram_fits, ram_restored, ram_size,
    read_at, reload, reloaded, restore_if_ram, set_high_byte, set_low_byte, take_chr,
    with_high_byte, with_low_byte, work_ram, wrapped_offset, zeros,
};
use crate::rom::{Cartridge, Mirroring};
use crate::save_state::mapper::{MapperState, Sunsoft3Snap};
use crate::save_state::{MirroringSnap, SaveStateError};

verus! {

pub struct Sunsoft3 {
    pub prg_rom: Vec<u8>,
    pub chr: Vec<u8>,
    pub chr_ram: bool,
    pub prg_ram: Vec<u8>,
    pub prg_bank: u8,
    pub chr_banks: [u8; 4],
    pub prg_bank_count_16k: usize,
    pub chr_bank_count_2k: usize,
    pub mirroring: Mirroring,
    /// The next counter byte is the low one.
    pub irq_toggle: bool,
    pub irq_counter: u16,
    pub irq_enabled: bool,
    pub irq_line: bool,
    pub battery: bool,
    pub save_dirty: bool,
}

/// The state of an [`Sunsoft3`] board.
#[verifier::ext_equal]
pub struct Sunsoft3State {
    pub prg_rom: Seq<u8>,
    pub chr: Seq<u8>,
    pub chr_ram: bool,
    pub prg_ram: Seq<u8>,
    pub prg_bank: u8,
    pub chr_banks: Seq<u8>,
    pub prg_bank_count_16k: usize,
    pub chr_bank_count_2k: usize,
    pub mirroring: Mirroring,
    pub irq_toggle: bool,
    pub irq_counter: u16,
    pub irq_enabled: bool,
    pub irq_line: bool,
    pub battery: bool,
    pub save_dirty: bool,
}

impl View for Sunsoft3 {
    type V = Sunsoft3State;

    open spec fn view(&self) -> Sunsoft3State {
        Sunsoft3State {
            prg_rom: self.prg_rom@,
            chr: self.chr@,
            chr_ram: self.chr_ram,
            prg_ram: self.prg_ram@,
            prg_bank: self.prg_bank,
            chr_banks: self.chr_banks@,
            prg_bank_count_16k: self.prg_bank_count_16k,
            chr_bank_count_2k: self.chr_bank_count_2k,
            mirroring: self.mirroring,
            irq_toggle: self.irq_toggle,
            irq_counter: self.irq_counter,
            irq_enabled: self.irq_enabled,
            irq_line: self.irq_line,
            battery: self.battery,
            save_dirty: self.save_dirty,
        }
    }
}

impl Sunsoft3State {
    pub open spec fn power_on(cart: Cartridge) -> Sunsoft3State {
        Sunsoft3State {
            prg_rom: cart.prg_rom@,
            chr: chr_image(cart, 0x2000),
            chr_ram: has_chr_ram(cart),
            prg_ram: zeros(ram_size(cart, 0x2000)),
            prg_bank: 0,
            chr_banks: zeros(4),
            prg_bank_count_16k: bank_count(cart.prg_rom@.len(), 0x4000) as usize,
            chr_bank_count_2k: bank_count(chr_image(cart, 0x2000).len(), 0x800) as usize,
            mirroring: cart.mirroring,
            irq_toggle: false,
            irq_counter: 0,
            irq_enabled: false,
            irq_line: false,
            battery: cart.battery_backed,
            save_dirty: false,
        }
    }

    pub open spec fn prg_byte_index(self, addr: u16) -> int {
        if addr < 0xC000 {
            in_bank(self.prg_bank as int % self.prg_bank_count_16k as int, 0x4000, addr as int)
        } else {
            in_bank(self.prg_bank_count_16k - 1, 0x4000, addr as int)
        }
    }

    pub open spec fn chr_index(self, addr: u16) -> int {
        in_bank(self.chr_banks[addr as int / 0x800 % 4] as int % self.chr_bank_count_2k as int, 0x800, addr as int)
    }

    /// The board after a write to the register of page `page`.
    pub open spec fn wrote_register(self, page: int, data: u8) -> Sunsoft3State {
        if page < 0xC {
            Sunsoft3State { chr_banks: self.chr_banks.update(page - 8, data), ..self }
        } else if page == 0xC {
            Sunsoft3State {
                irq_counter: if self.irq_toggle {
                    with_low_byte(self.irq_counter, data)
                } else {
                    with_high_byte(self.irq_counter, data)
                },
                irq_toggle: !self.irq_toggle,
                ..self
            }
        } else if page == 0xD {
            Sunsoft3State { irq_enabled: data & 0x10 != 0, irq_toggle: false, irq_line: false, ..self }
        } else if page == 0xE {
            Sunsoft3State { mirroring: mirroring_of(data), ..self }
        } else {
            Sunsoft3State { prg_bank: data, ..self }
        }
    }

    /// The board with battery RAM from a save; data of another length is ignored.
    pub open spec fn loaded(self, data: Seq<u8>) -> Sunsoft3State {
        if self.battery {
            Sunsoft3State { prg_ram: reloaded(self.prg_ram, data), ..self }
        } else {
            self
        }
    }

    /// Whether `snap` was taken in this state.
    pub open spec fn captured(self, snap: Sunsoft3Snap) -> bool {
        &&& snap.prg_ram@ == self.prg_ram
        &&& snap.chr_ram_data@ == ram_copy(self.chr_ram, self.chr)
        &&& snap.prg_bank == self.prg_bank
        &&& snap.chr_banks@ == self.chr_banks
        &&& snap.mirroring == MirroringSnap::of(self.mirroring)
        &&& snap.irq_toggle == self.irq_toggle
        &&& snap.irq_counter == self.irq_counter
        &&& snap.irq_enabled == self.irq_enabled
        &&& snap.irq_line == self.irq_line
        &&& snap.save_dirty == self.save_dirty
    }

    /// The board with what `snap` holds.
    pub open spec fn restored(self, snap: Sunsoft3Snap) -> Sunsoft3State {
        Sunsoft3State {
            prg_ram: reloaded(self.prg_ram, snap.prg_ram@),
            chr: ram_restored(self.chr_ram, self.chr, snap.chr_ram_data@),
            prg_bank: snap.prg_bank,
            chr_banks: snap.chr_banks@,
            mirroring: snap.mirroring.live(),
            irq_toggle: snap.irq_toggle,
            irq_counter: snap.irq_counter,
            irq_enabled: snap.irq_enabled,
            irq_line: snap.irq_line,
            save_dirty: snap.save_dirty,
            ..self
        }
    }

    /// Whether `other` is the same cart, at another time.
    pub open spec fn same_cart(self, other: Sunsoft3State) -> bool {
        &&& other.prg_ram.len() == self.prg_ram.len()
        &&& self.chr_ram ==> other.chr.len() == self.chr.len()
        &&& !self.chr_ram ==> other.chr == self.chr
        &&& other.prg_rom == self.prg_rom
        &&& other.chr_ram == self.chr_ram
        &&& other.prg_bank_count_16k == self.prg_bank_count_16k
        &&& other.chr_bank_count_2k == self.chr_bank_count_2k
        &&& other.battery == self.battery
    }
}

impl Sunsoft3 {
    pub fn new(cart: Cartridge) -> (m: Self)
        requires
            ram_fits(cart),
        ensures
            Self::ok(m@),
            m@ == Sunsoft3State::power_on(cart),
    {
        let (chr, chr_ram): (Vec<u8>, bool) = take_chr(cart.chr_rom, cart.chr_ram, 0x2000);
        let m: Sunsoft3 = Sunsoft3 {
            prg_bank_count_16k: count_banks(&cart.prg_rom, 0x4000),
            chr_bank_count_2k: count_banks(&chr, 0x800),
            prg_rom: cart.prg_rom,
            chr,
            chr_ram,
            prg_ram: work_ram(cart.prg_ram_size, cart.prg_nvram_size, 0x2000),
            prg_bank: 0,
            chr_banks: [0; 4],
            mirroring: cart.mirroring,
            irq_toggle: false,
            irq_counter: 0,
            irq_enabled: false,
            irq_line: false,
            battery: cart.battery_backed,
            save_dirty: false,
        };
        assert(m@.chr_banks =~= zeros(4));
        m
    }

    fn prg_index(&self, addr: u16) -> (i: usize)
        requires
            Self::ok(self@),
        ensures
            i == self@.prg_byte_index(addr),
    {
        if addr < 0xC000 {
            wrapped_offset(&self.prg_rom, self.prg_bank_count_16k, self.prg_bank as usize, 0x4000, addr)
        } else {
            bank_offset(&self.prg_rom, self.prg_bank_count_16k, self.prg_bank_count_16k - 1, 0x4000, addr)
        }
    }

    fn map_chr(&self, addr: u16) -> (i: usize)
        requires
            Self::ok(self@),
        ensures
            i == self@.chr_index(addr),
    {
        let bank: usize = self.chr_banks[addr as usize / 0x800 % 4] as usize;
        wrapped_offset(&self.chr, self.chr_bank_count_2k, bank, 0x800, addr)
    }

    fn write_register(&mut self, page: u16, data: u8)
        requires
            Self::ok(old(self)@),
            8 <= page <= 0xF,
        ensures
            Self::ok(final(self)@),
            final(self)@ == old(self)@.wrote_register(page as int, data),
    {
        match page {
            0x8..=0xB => {
                self.chr_banks[page as usize - 8] = data;
            }
            0xC => {
                self.irq_counter = if self.irq_toggle {
                    set_low_byte(self.irq_counter, data)
                } else {
                    set_high_byte(self.irq_counter, data)
                };
                self.irq_toggle = !self.irq_toggle;
            }
            0xD => {
                self.irq_enabled = (data & 0x10) != 0;
                self.irq_toggle = false;
                self.irq_line = false;
            }
            0xE => {
                self.mirroring = select_mirroring(data);
            }
            _ => {
                self.prg_bank = data;
            }
        }
    }
}

impl Mapper for Sunsoft3 {
    open spec fn ok(s: Sunsoft3State) -> bool {
        &&& s.prg_bank_count_16k == bank_count(s.prg_rom.len(), 0x4000)
        &&& s.chr_bank_count_2k == bank_count(s.chr.len(), 0x800)
        &&& s.chr_banks.len() == 4
    }

    open spec fn cpu_byte(s: Sunsoft3State, addr: u16) -> u8 {
        if addr >= 0x8000 {
            byte_at(s.prg_rom, s.prg_byte_index(addr))
        } else if addr >= 0x6000 {
            byte_at(s.prg_ram, addr - 0x6000)
        } else {
            0
        }
    }

    open spec fn after_cpu_write(s: Sunsoft3State, addr: u16, data: u8) -> Sunsoft3State {
        if 0x6000 <= addr < 0x8000 {
            Sunsoft3State {
                prg_ram: poked(s.prg_ram, addr - 0x6000, data),
                save_dirty: dirtied(s.prg_ram, s.battery, s.save_dirty, addr - 0x6000, data),
                ..s
            }
        } else if addr >= 0x8000 && addr % 0x1000 >= 0x800 {
            s.wrote_register(addr as int / 0x1000, data)
        } else {
            s
        }
    }

    open spec fn ppu_byte(s: Sunsoft3State, addr: u16) -> u8 {
        if addr < 0x2000 {
            byte_at(s.chr, s.chr_index(addr))
        } else {
            0
        }
    }

    open spec fn after_ppu_write(s: Sunsoft3State, addr: u16, data: u8) -> Sunsoft3State {
        if s.chr_ram && addr < 0x2000 {
            Sunsoft3State { chr: poked(s.chr, s.chr_index(addr), data), ..s }
        } else {
            s
        }
    }

    open spec fn after_cpu_cycle(s: Sunsoft3State) -> Sunsoft3State {
        if !s.irq_enabled {
            s
        } else if s.irq_counter > 0 {
            Sunsoft3State { irq_counter: (s.irq_counter - 1) as u16, ..s }
        } else {
            Sunsoft3State { irq_counter: 0xFFFF, irq_enabled: false, irq_line: true, ..s }
        }
    }

    open spec fn irq(s: Sunsoft3State) -> bool {
        s.irq_line
    }

    fn cpu_read(&mut self, addr: u16) -> (byte: u8) {
        self.cpu_peek(addr)
    }

    fn cpu_peek(&self, addr: u16) -> (byte: u8) {
        match addr {
            0x6000..=0x7FFF => read_at(&self.prg_ram, (addr - 0x6000) as usize),
            0x8000..=0xFFFF => read_at(&self.prg_rom, self.prg_index(addr)),
            _ => 0,
        }
    }

    fn cpu_write(&mut self, addr: u16, data: u8) {
        match addr {
            0x6000..=0x7FFF => {
                poke_ram(&mut self.prg_ram, &mut self.save_dirty, self.battery, (addr - 0x6000) as usize, data);
            }
            0x8000..=0xFFFF => {
                if addr % 0x1000 >= 0x800 {
                    self.write_register(addr / 0x1000, data);
                }
            }
            _ => {}
        }
    }

    fn ppu_read(&mut self, addr: u16) -> (byte: u8) {
        if addr < 0x2000 {
            read_at(&self.chr, self.map_chr(addr))
        } else {
            0
        }
    }

    fn ppu_write(&mut self, addr: u16, data: u8) {
        if self.chr_ram && addr < 0x2000 {
            let i: usize = self.map_chr(addr);
            poke(&mut self.chr, i, data);
        }
    }

    open spec fn mirrored(s: Sunsoft3State) -> Mirroring {
        s.mirroring
    }

    fn mirroring(&self) -> (mode: Mirroring) {
        self.mirroring
    }

    fn cpu_read_ex(&mut self, addr: u16) -> (byte: Option<u8>) {
        None
    }

    fn on_cpu_cycle(&mut self) {
        if !self.irq_enabled {
            return;
        }
        if self.irq_counter == 0 {
            self.irq_counter = 0xFFFF;
            self.irq_enabled = false;
            self.irq_line = true;
        } else {
            self.irq_counter = self.irq_counter - 1;
        }
    }

    fn irq_line(&self) -> (asserted: bool) {
        self.irq_line
    }

    open spec fn battery_bytes(s: Sunsoft3State) -> Option<Seq<u8>> {
        if s.battery {
            Some(s.prg_ram)
        } else {
            None
        }
    }

    open spec fn after_load(s: Sunsoft3State, data: Seq<u8>) -> Sunsoft3State {
        s.loaded(data)
    }

    open spec fn save_due(s: Sunsoft3State) -> bool {
        s.save_dirty
    }

    open spec fn after_save(s: Sunsoft3State) -> Sunsoft3State {
        Sunsoft3State { save_dirty: false, ..s }
    }

    fn save_data(&self) -> (bytes: Option<&[u8]>) {
        if self.battery {
            Some(self.prg_ram.as_slice())
        } else {
            None
        }
    }

    fn load_save_data(&mut self, data: &[u8]) {
        if self.battery {
            reload(&mut self.prg_ram, data);
        }
    }

    fn save_dirty(&self) -> (dirty: bool) {
        self.save_dirty
    }

    fn mark_saved(&mut self) {
        self.save_dirty = false;
    }

    open spec fn captures(s: Sunsoft3State, state: Option<MapperState>) -> bool {
        match state {
            Some(MapperState::Sunsoft3(snap)) => s.captured(snap),
            _ => false,
        }
    }

    open spec fn after_apply(s: Sunsoft3State, state: MapperState) -> Option<Sunsoft3State> {
        match state {
            MapperState::Sunsoft3(snap) => Some(s.restored(snap)),
            _ => None,
        }
    }

    fn save_state_capture(&self) -> (state: Option<MapperState>) {
        Some(MapperState::Sunsoft3(Sunsoft3Snap {
            prg_ram: copied(&self.prg_ram),
            chr_ram_data: copy_if_ram(self.chr_ram, &self.chr),
            prg_bank: self.prg_bank,
            chr_banks: self.chr_banks,
            mirroring: MirroringSnap::from_live(self.mirroring),
            irq_toggle: self.irq_toggle,
            irq_counter: self.irq_counter,
            irq_enabled: self.irq_enabled,
            irq_line: self.irq_line,
            save_dirty: self.save_dirty,
        }))
    }

    fn save_state_apply(&mut self, state: &MapperState) -> (result: Result<(), SaveStateError>) {
        match state {
            MapperState::Sunsoft3(snap) => {
                reload(&mut self.prg_ram, snap.prg_ram.as_slice());
                restore_if_ram(self.chr_ram, &mut self.chr, &snap.chr_ram_data);
                self.prg_bank = snap.prg_bank;
                self.chr_banks = snap.chr_banks;
                self.mirroring = snap.mirroring.to_live();
                self.irq_toggle = snap.irq_toggle;
                self.irq_counter = snap.irq_counter;
                self.irq_enabled = snap.irq_enabled;
                self.irq_line = snap.irq_line;
                self.save_dirty = snap.save_dirty;
                Ok(())
            }
            _ => Err(SaveStateError::UnsupportedMapper(0)),
        }
    }

    fn ppu_nametable_read(&mut self, slot: u8, offset: u16) -> (source: NametableSource) {
        NametableSource::Default
    }

    fn ppu_nametable_write(&mut self, slot: u8, offset: u16, data: u8) -> (target: NametableWriteTarget) {
        NametableWriteTarget::Default
    }

    fn on_ppu_addr(&mut self, addr: u16, ppu_cycle: u64, kind: PpuFetchKind) {
    }
}

/// A snapshot brings back the board it was taken from, whatever happened to it since.
pub proof fn lemma_sunsoft3_round_trip(
    s: Sunsoft3State,
    later: Sunsoft3State,
    state: MapperState,
)
    requires
        Sunsoft3::ok(s),
        Sunsoft3::ok(later),
        s.same_cart(later),
        Sunsoft3::captures(s, Some(state)),
    ensures
        Sunsoft3::snapshot_ok(later, state),
        Sunsoft3::after_apply(later, state) == Some(s),
{
}

/// No write changes the cart's ROM.
pub proof fn lemma_sunsoft3_rom_is_read_only(s: Sunsoft3State, addr: u16, data: u8)
    ensures
        Sunsoft3::after_cpu_write(s, addr, data).prg_rom == s.prg_rom,
        Sunsoft3::after_ppu_write(s, addr, data).prg_rom == s.prg_rom,
        !s.chr_ram ==> Sunsoft3::after_ppu_write(s, addr, data).chr == s.chr,
{
}

/// No write moves the bank at `$C000-$FFFF`.
pub proof fn lemma_sunsoft3_fixed_bank(s: Sunsoft3State, addr: u16, data: u8, read: u16)
    requires
        Sunsoft3::ok(s),
        read >= 0xC000,
    ensures
        ({
            let after = Sunsoft3::after_cpu_write(s, addr, data);
            Sunsoft3::cpu_byte(after, read) == Sunsoft3::cpu_byte(s, read)
        }),
{
}

/// Pattern RAM gives back what was stored.
pub proof fn lemma_sunsoft3_pattern_ram(s: Sunsoft3State, addr: u16, data: u8)
    requires
        Sunsoft3::ok(s),
        s.chr_ram,
        addr < 0x2000,
        0 <= s.chr_index(addr) < s.chr.len(),
    ensures
        ({
            let after = Sunsoft3::after_ppu_write(s, addr, data);
            Sunsoft3::ppu_byte(after, addr) == data
        }),
{
}

/// Work RAM gives back what was stored; a battery save is due exactly when a byte changed.
pub proof fn lemma_sunsoft3_work_ram(s: Sunsoft3State, addr: u16, data: u8)
    requires
        Sunsoft3::ok(s),
        0x6000 <= addr < 0x8000,
        addr - 0x6000 < s.prg_ram.len(),
    ensures
        ({
            let after = Sunsoft3::after_cpu_write(s, addr, data);
            let changed = Sunsoft3::cpu_byte(s, addr) != data;
            &&& Sunsoft3::cpu_byte(after, addr) == data
            &&& !Sunsoft3::save_due(s) ==> Sunsoft3::save_due(after) == (s.battery && changed)
        }),
{
}

/// A save of one cart loaded into another of the same size brings the RAM over; a save of another
/// size changes nothing. Once saved, no save is due.
pub proof fn lemma_sunsoft3_save_round_trip(s: Sunsoft3State, fresh: Sunsoft3State, other: Seq<u8>)
    requires
        s.battery,
        fresh.battery,
        fresh.prg_ram.len() == s.prg_ram.len(),
        other.len() != s.prg_ram.len(),
    ensures
        Sunsoft3::battery_bytes(Sunsoft3::after_load(fresh, s.prg_ram)) == Sunsoft3::battery_bytes(s),
        Sunsoft3::after_load(s, other) == s,
        !Sunsoft3::save_due(Sunsoft3::after_save(s)),
{
}

/// An enabled counter at `n` raises the interrupt in its cycle `n + 1`, and not before; it is then
/// disabled.
pub proof fn lemma_sunsoft3_irq_timing(s: Sunsoft3State, n: nat)
    requires
        s.irq_enabled,
        !s.irq_line,
    ensures
        n <= s.irq_counter ==> after_cycles::<Sunsoft3>(s, n) == (Sunsoft3State {
            irq_counter: (s.irq_counter - n) as u16,
            ..s
        }),
        n == s.irq_counter + 1 ==> after_cycles::<Sunsoft3>(s, n) == (Sunsoft3State {
            irq_counter: 0xFFFF,
            irq_enabled: false,
            irq_line: true,
            ..s
        }),
    decreases n,
{
    if n > 0 {
        lemma_sunsoft3_irq_timing(s, (n - 1) as nat);
    }
}

/// After a write to `$D800`, two writes to `$C800` set the counter, high byte first.
pub proof fn lemma_sunsoft3_counter_loads(s: Sunsoft3State, control: u8, high: u8, low: u8)
    ensures
        s.wrote_register(0xD, control).wrote_register(0xC, high).wrote_register(0xC, low).irq_counter
            == high * 0x100 + low,
{
}

} // verus!
