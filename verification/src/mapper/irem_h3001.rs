//! Irem H3001 (iNES mapper 65).
//!
//! | address | effect |
//! |---|---|
//! | `$8000`, `$A000`, `$C000` | 8 KiB PRG bank there; `$E000-$FFFF` has the last bank |
//! | `$9001` | bit 7: mirroring, vertical or horizontal |
//! | `$9003` | bit 7: IRQ enable; acknowledges |
//! | `$9004` | copies the latch to the counter; acknowledges |
//! | `$9005`, `$9006` | high and low byte of the latch |
//! | `$B000-$B007` | 1 KiB CHR banks |
//!
//! The counter counts CPU cycles down while enabled. When it reaches zero it raises the interrupt
//! and disables itself.
use vstd::prelude::*;

use crate::mapper::{after_cycles, Mapper, NametableSource, NametableWriteTarget, PpuFetchKind};
use crate::mem::{
    bank_count, byte_at, chr_image, copied, copy_if_ram, count_banks, dirtied, has_chr_ram, in_bank,
    masked_offset, poke, poke_ram, poked, ram_copy, ram_fits, ram_restored, ram_size, read_at,
    reload, reloaded, restore_if_ram, set_high_byte, set_low_byte, take_chr, with_high_byte,
    with_low_byte, work_ram, zeros,
};
use crate::rom::{Cartridge, Mirroring};
use crate::save_state::mapper::{IremH3001Snap, MapperState};
use crate::save_state::{MirroringSnap, SaveStateError};

verus! {

pub struct IremH3001 {
    pub prg_rom: Vec<u8>,
    pub chr: Vec<u8>,
    pub chr_ram: bool,
    pub prg_ram: Vec<u8>,
    pub prg_regs: [u8; 3],
    pub chr_regs: [u8; 8],
    pub mirroring: Mirroring,
    pub irq_enabled: bool,
    pub irq_counter: u16,
    pub irq_latch: u16,
    pub irq_line: bool,
    /// Number of 8 KiB PRG banks less one; banks are selected by masking with it.
    pub prg_bank_mask: usize,
    /// Number of 1 KiB CHR banks less one.
    pub chr_bank_mask: usize,
    pub battery: bool,
    pub save_dirty: bool,
}

/// The state of an [`IremH3001`] board.
#[verifier::ext_equal]
pub struct IremH3001State {
    pub prg_rom: Seq<u8>,
    pub chr: Seq<u8>,
    pub chr_ram: bool,
    pub prg_ram: Seq<u8>,
    pub prg_regs: Seq<u8>,
    pub chr_regs: Seq<u8>,
    pub mirroring: Mirroring,
    pub irq_enabled: bool,
    pub irq_counter: u16,
    pub irq_latch: u16,
    pub irq_line: bool,
    pub prg_bank_mask: usize,
    pub chr_bank_mask: usize,
    pub battery: bool,
    pub save_dirty: bool,
}

impl View for IremH3001 {
    type V = IremH3001State;

    open spec fn view(&self) -> IremH3001State {
        IremH3001State {
            prg_rom: self.prg_rom@,
            chr: self.chr@,
            chr_ram: self.chr_ram,
            prg_ram: self.prg_ram@,
            prg_regs: self.prg_regs@,
            chr_regs: self.chr_regs@,
            mirroring: self.mirroring,
            irq_enabled: self.irq_enabled,
            irq_counter: self.irq_counter,
            irq_latch: self.irq_latch,
            irq_line: self.irq_line,
            prg_bank_mask: self.prg_bank_mask,
            chr_bank_mask: self.chr_bank_mask,
            battery: self.battery,
            save_dirty: self.save_dirty,
        }
    }
}

impl IremH3001State {
    pub open spec fn power_on(cart: Cartridge) -> IremH3001State {
        IremH3001State {
            prg_rom: cart.prg_rom@,
            chr: chr_image(cart, 0x2000),
            chr_ram: has_chr_ram(cart),
            prg_ram: zeros(ram_size(cart, 0x2000)),
            prg_regs: seq![0u8, 1u8, 0u8],
            chr_regs: zeros(8),
            mirroring: cart.mirroring,
            irq_enabled: false,
            irq_counter: 0,
            irq_latch: 0,
            irq_line: false,
            prg_bank_mask: (bank_count(cart.prg_rom@.len(), 0x2000) - 1) as usize,
            chr_bank_mask: (bank_count(chr_image(cart, 0x2000).len(), 0x400) - 1) as usize,
            battery: cart.battery_backed,
            save_dirty: false,
        }
    }

    pub open spec fn prg_index(self, addr: u16) -> int {
        let slot = (addr - 0x8000) / 0x2000;
        let selector = if slot < 3 {
            self.prg_regs[slot] as usize
        } else {
            self.prg_bank_mask
        };
        in_bank((selector & self.prg_bank_mask) as int, 0x2000, addr as int)
    }

    pub open spec fn chr_index(self, addr: u16) -> int {
        in_bank((self.chr_regs[addr as int / 0x400] as usize & self.chr_bank_mask) as int, 0x400, addr as int)
    }

    /// The board after a write to a register.
    pub open spec fn wrote_register(self, addr: u16, data: u8) -> IremH3001State {
        if addr == 0x8000 {
            IremH3001State { prg_regs: self.prg_regs.update(0, data), ..self }
        } else if addr == 0xA000 {
            IremH3001State { prg_regs: self.prg_regs.update(1, data), ..self }
        } else if addr == 0xC000 {
            IremH3001State { prg_regs: self.prg_regs.update(2, data), ..self }
        } else if addr == 0x9001 {
            IremH3001State {
                mirroring: if data & 0x80 != 0 { Mirroring::Horizontal } else { Mirroring::Vertical },
                ..self
            }
        } else if addr == 0x9003 {
            IremH3001State { irq_enabled: data & 0x80 != 0, irq_line: false, ..self }
        } else if addr == 0x9004 {
            IremH3001State { irq_counter: self.irq_latch, irq_line: false, ..self }
        } else if addr == 0x9005 {
            IremH3001State { irq_latch: with_high_byte(self.irq_latch, data), ..self }
        } else if addr == 0x9006 {
            IremH3001State { irq_latch: with_low_byte(self.irq_latch, data), ..self }
        } else if 0xB000 <= addr <= 0xB007 {
            IremH3001State { chr_regs: self.chr_regs.update(addr - 0xB000, data), ..self }
        } else {
            self
        }
    }

    /// The board with battery RAM from a save; data of another length is ignored.
    pub open spec fn loaded(self, data: Seq<u8>) -> IremH3001State {
        if self.battery {
            IremH3001State { prg_ram: reloaded(self.prg_ram, data), ..self }
        } else {
            self
        }
    }

    /// Whether `snap` was taken in this state.
    pub open spec fn captured(self, snap: IremH3001Snap) -> bool {
        &&& snap.prg_ram@ == self.prg_ram
        &&& snap.chr_ram_data@ == ram_copy(self.chr_ram, self.chr)
        &&& snap.prg_regs@ == self.prg_regs
        &&& snap.chr_regs@ == self.chr_regs
        &&& snap.mirroring == MirroringSnap::of(self.mirroring)
        &&& snap.irq_enabled == self.irq_enabled
        &&& snap.irq_counter == self.irq_counter
        &&& snap.irq_latch == self.irq_latch
        &&& snap.irq_line == self.irq_line
        &&& snap.save_dirty == self.save_dirty
    }

    /// The board with what `snap` holds.
    pub open spec fn restored(self, snap: IremH3001Snap) -> IremH3001State {
        IremH3001State {
            prg_ram: reloaded(self.prg_ram, snap.prg_ram@),
            chr: ram_restored(self.chr_ram, self.chr, snap.chr_ram_data@),
            prg_regs: snap.prg_regs@,
            chr_regs: snap.chr_regs@,
            mirroring: snap.mirroring.live(),
            irq_enabled: snap.irq_enabled,
            irq_counter: snap.irq_counter,
            irq_latch: snap.irq_latch,
            irq_line: snap.irq_line,
            save_dirty: snap.save_dirty,
            ..self
        }
    }

    /// Whether `other` is the same cart, at another time.
    pub open spec fn same_cart(self, other: IremH3001State) -> bool {
        &&& other.prg_ram.len() == self.prg_ram.len()
        &&& self.chr_ram ==> other.chr.len() == self.chr.len()
        &&& !self.chr_ram ==> other.chr == self.chr
        &&& other.prg_rom == self.prg_rom
        &&& other.chr_ram == self.chr_ram
        &&& other.prg_bank_mask == self.prg_bank_mask
        &&& other.chr_bank_mask == self.chr_bank_mask
        &&& other.battery == self.battery
    }
}

impl IremH3001 {
    pub fn new(cart: Cartridge) -> (m: Self)
        requires
            ram_fits(cart),
        ensures
            Self::ok(m@),
            m@ == IremH3001State::power_on(cart),
    {
        let (chr, chr_ram): (Vec<u8>, bool) = take_chr(cart.chr_rom, cart.chr_ram, 0x2000);
        let m: IremH3001 = IremH3001 {
            prg_bank_mask: count_banks(&cart.prg_rom, 0x2000) - 1,
            chr_bank_mask: count_banks(&chr, 0x400) - 1,
            prg_rom: cart.prg_rom,
            chr,
            chr_ram,
            prg_ram: work_ram(cart.prg_ram_size, cart.prg_nvram_size, 0x2000),
            prg_regs: [0, 1, 0],
            chr_regs: [0; 8],
            mirroring: cart.mirroring,
            irq_enabled: false,
            irq_counter: 0,
            irq_latch: 0,
            irq_line: false,
            battery: cart.battery_backed,
            save_dirty: false,
        };
        assert(m@.prg_regs =~= seq![0u8, 1u8, 0u8]);
        assert(m@.chr_regs =~= zeros(8));
        m
    }

    fn map_prg(&self, addr: u16) -> (i: usize)
        requires
            Self::ok(self@),
            addr >= 0x8000,
        ensures
            i == self@.prg_index(addr),
    {
        let slot: usize = (addr - 0x8000) as usize / 0x2000;
        let bank: usize = if slot < 3 { self.prg_regs[slot] as usize } else { self.prg_bank_mask };
        masked_offset(&self.prg_rom, self.prg_bank_mask, bank, 0x2000, addr)
    }

    fn map_chr(&self, addr: u16) -> (i: usize)
        requires
            Self::ok(self@),
            addr < 0x2000,
        ensures
            i == self@.chr_index(addr),
    {
        let bank: usize = self.chr_regs[addr as usize / 0x400] as usize;
        masked_offset(&self.chr, self.chr_bank_mask, bank, 0x400, addr)
    }

    fn write_register(&mut self, addr: u16, data: u8)
        requires
            Self::ok(old(self)@),
        ensures
            Self::ok(final(self)@),
            final(self)@ == old(self)@.wrote_register(addr, data),
    {
        match addr {
            0x8000 => {
                self.prg_regs[0] = data;
            }
            0xA000 => {
                self.prg_regs[1] = data;
            }
            0xC000 => {
                self.prg_regs[2] = data;
            }
            0x9001 => {
                self.mirroring = if data & 0x80 != 0 { Mirroring::Horizontal } else { Mirroring::Vertical };
            }
            0x9003 => {
                self.irq_enabled = data & 0x80 != 0;
                self.irq_line = false;
            }
            0x9004 => {
                self.irq_counter = self.irq_latch;
                self.irq_line = false;
            }
            0x9005 => {
                self.irq_latch = set_high_byte(self.irq_latch, data);
            }
            0x9006 => {
                self.irq_latch = set_low_byte(self.irq_latch, data);
            }
            0xB000..=0xB007 => {
                self.chr_regs[(addr - 0xB000) as usize] = data;
            }
            _ => {}
        }
    }
}

impl Mapper for IremH3001 {
    open spec fn ok(s: IremH3001State) -> bool {
        &&& s.prg_bank_mask + 1 == bank_count(s.prg_rom.len(), 0x2000)
        &&& s.chr_bank_mask + 1 == bank_count(s.chr.len(), 0x400)
        &&& s.prg_regs.len() == 3
        &&& s.chr_regs.len() == 8
    }

    open spec fn cpu_byte(s: IremH3001State, addr: u16) -> u8 {
        if addr >= 0x8000 {
            byte_at(s.prg_rom, s.prg_index(addr))
        } else if addr >= 0x6000 {
            byte_at(s.prg_ram, addr - 0x6000)
        } else {
            0
        }
    }

    open spec fn after_cpu_write(s: IremH3001State, addr: u16, data: u8) -> IremH3001State {
        if addr >= 0x8000 {
            s.wrote_register(addr, data)
        } else if addr >= 0x6000 {
            IremH3001State {
                prg_ram: poked(s.prg_ram, addr - 0x6000, data),
                save_dirty: dirtied(s.prg_ram, s.battery, s.save_dirty, addr - 0x6000, data),
                ..s
            }
        } else {
            s
        }
    }

    open spec fn ppu_byte(s: IremH3001State, addr: u16) -> u8 {
        if addr < 0x2000 {
            byte_at(s.chr, s.chr_index(addr))
        } else {
            0
        }
    }

    open spec fn after_ppu_write(s: IremH3001State, addr: u16, data: u8) -> IremH3001State {
        if s.chr_ram && addr < 0x2000 {
            IremH3001State { chr: poked(s.chr, s.chr_index(addr), data), ..s }
        } else {
            s
        }
    }

    open spec fn after_cpu_cycle(s: IremH3001State) -> IremH3001State {
        if s.irq_enabled && s.irq_counter == 1 {
            IremH3001State { irq_counter: 0, irq_enabled: false, irq_line: true, ..s }
        } else if s.irq_enabled && s.irq_counter > 1 {
            IremH3001State { irq_counter: (s.irq_counter - 1) as u16, ..s }
        } else {
            s
        }
    }

    open spec fn irq(s: IremH3001State) -> bool {
        s.irq_line
    }

    fn cpu_read(&mut self, addr: u16) -> (byte: u8) {
        self.cpu_peek(addr)
    }

    fn cpu_peek(&self, addr: u16) -> (byte: u8) {
        match addr {
            0x6000..=0x7FFF => read_at(&self.prg_ram, (addr - 0x6000) as usize),
            0x8000..=0xFFFF => read_at(&self.prg_rom, self.map_prg(addr)),
            _ => 0,
        }
    }

    fn cpu_write(&mut self, addr: u16, data: u8) {
        match addr {
            0x6000..=0x7FFF => {
                poke_ram(&mut self.prg_ram, &mut self.save_dirty, self.battery, (addr - 0x6000) as usize, data);
            }
            0x8000..=0xFFFF => self.write_register(addr, data),
            _ => {}
        }
    }

    fn ppu_read(&mut self, addr: u16) -> (byte: u8) {
        if addr < 0x2000 {
            read_at(&self.chr, self.map_chr(addr))
        } else {
            0
        }
    }

    fn ppu_write(&mut self, addr: u16, data: u8) {
        if self.chr_ram && addr < 0x2000 {
            let i: usize = self.map_chr(addr);
            poke(&mut self.chr, i, data);
        }
    }

    open spec fn mirrored(s: IremH3001State) -> Mirroring {
        s.mirroring
    }

    fn mirroring(&self) -> (mode: Mirroring) {
        self.mirroring
    }

    fn cpu_read_ex(&mut self, addr: u16) -> (byte: Option<u8>) {
        None
    }

    fn on_cpu_cycle(&mut self) {
        if self.irq_enabled && self.irq_counter != 0 {
            self.irq_counter = self.irq_counter - 1;
            if self.irq_counter == 0 {
                self.irq_enabled = false;
                self.irq_line = true;
            }
        }
    }

    fn irq_line(&self) -> (asserted: bool) {
        self.irq_line
    }

    open spec fn battery_bytes(s: IremH3001State) -> Option<Seq<u8>> {
        if s.battery {
            Some(s.prg_ram)
        } else {
            None
        }
    }

    open spec fn after_load(s: IremH3001State, data: Seq<u8>) -> IremH3001State {
        s.loaded(data)
    }

    open spec fn save_due(s: IremH3001State) -> bool {
        s.save_dirty
    }

    open spec fn after_save(s: IremH3001State) -> IremH3001State {
        IremH3001State { save_dirty: false, ..s }
    }

    fn save_data(&self) -> (bytes: Option<&[u8]>) {
        if self.battery {
            Some(self.prg_ram.as_slice())
        } else {
            None
        }
    }

    fn load_save_data(&mut self, data: &[u8]) {
        if self.battery {
            reload(&mut self.prg_ram, data);
        }
    }

    fn save_dirty(&self) -> (dirty: bool) {
        self.save_dirty
    }

    fn mark_saved(&mut self) {
        self.save_dirty = false;
    }

    open spec fn captures(s: IremH3001State, state: Option<MapperState>) -> bool {
        match state {
            Some(MapperState::IremH3001(snap)) => s.captured(snap),
            _ => false,
        }
    }

    open spec fn after_apply(s: IremH3001State, state: MapperState) -> Option<IremH3001State> {
        match state {
            MapperState::IremH3001(snap) => Some(s.restored(snap)),
            _ => None,
        }
    }

    fn save_state_capture(&self) -> (state: Option<MapperState>) {
        Some(MapperState::IremH3001(IremH3001Snap {
            prg_ram: copied(&self.prg_ram),
            chr_ram_data: copy_if_ram(self.chr_ram, &self.chr),
            prg_regs: self.prg_regs,
            chr_regs: self.chr_regs,
            mirroring: MirroringSnap::from_live(self.mirroring),
            irq_enabled: self.irq_enabled,
            irq_counter: self.irq_counter,
            irq_latch: self.irq_latch,
            irq_line: self.irq_line,
            save_dirty: self.save_dirty,
        }))
    }

    fn save_state_apply(&mut self, state: &MapperState) -> (result: Result<(), SaveStateError>) {
        match state {
            MapperState::IremH3001(snap) => {
                reload(&mut self.prg_ram, snap.prg_ram.as_slice());
                restore_if_ram(self.chr_ram, &mut self.chr, &snap.chr_ram_data);
                self.prg_regs = snap.prg_regs;
                self.chr_regs = snap.chr_regs;
                self.mirroring = snap.mirroring.to_live();
                self.irq_enabled = snap.irq_enabled;
                self.irq_counter = snap.irq_counter;
                self.irq_latch = snap.irq_latch;
                self.irq_line = snap.irq_line;
                self.save_dirty = snap.save_dirty;
                Ok(())
            }
            _ => Err(SaveStateError::UnsupportedMapper(0)),
        }
    }

    fn ppu_nametable_read(&mut self, slot: u8, offset: u16) -> (source: NametableSource) {
        NametableSource::Default
    }

    fn ppu_nametable_write(&mut self, slot: u8, offset: u16, data: u8) -> (target: NametableWriteTarget) {
        NametableWriteTarget::Default
    }

    fn on_ppu_addr(&mut self, addr: u16, ppu_cycle: u64, kind: PpuFetchKind) {
    }
}

/// A snapshot brings back the board it was taken from, whatever happened to it since.
pub proof fn lemma_irem_h3001_round_trip(
    s: IremH3001State,
    later: IremH3001State,
    state: MapperState,
)
    requires
        IremH3001::ok(s),
        IremH3001::ok(later),
        s.same_cart(later),
        IremH3001::captures(s, Some(state)),
    ensures
        IremH3001::snapshot_ok(later, state),
        IremH3001::after_apply(later, state) == Some(s),
{
}

/// No write changes the cart's ROM.
pub proof fn lemma_irem_h3001_rom_is_read_only(s: IremH3001State, addr: u16, data: u8)
    ensures
        IremH3001::after_cpu_write(s, addr, data).prg_rom == s.prg_rom,
        IremH3001::after_ppu_write(s, addr, data).prg_rom == s.prg_rom,
        !s.chr_ram ==> IremH3001::after_ppu_write(s, addr, data).chr == s.chr,
{
}

/// No write moves the bank at `$E000-$FFFF`.
pub proof fn lemma_irem_h3001_fixed_bank(s: IremH3001State, addr: u16, data: u8, read: u16)
    requires
        IremH3001::ok(s),
        read >= 0xE000,
    ensures
        ({
            let after = IremH3001::after_cpu_write(s, addr, data);
            IremH3001::cpu_byte(after, read) == IremH3001::cpu_byte(s, read)
        }),
{
}

/// Pattern RAM gives back what was stored.
pub proof fn lemma_irem_h3001_pattern_ram(s: IremH3001State, addr: u16, data: u8)
    requires
        IremH3001::ok(s),
        s.chr_ram,
        addr < 0x2000,
        0 <= s.chr_index(addr) < s.chr.len(),
    ensures
        ({
            let after = IremH3001::after_ppu_write(s, addr, data);
            IremH3001::ppu_byte(after, addr) == data
        }),
{
}

/// Work RAM gives back what was stored; a battery save is due exactly when a byte changed.
pub proof fn lemma_irem_h3001_work_ram(s: IremH3001State, addr: u16, data: u8)
    requires
        IremH3001::ok(s),
        0x6000 <= addr < 0x8000,
        addr - 0x6000 < s.prg_ram.len(),
    ensures
        ({
            let after = IremH3001::after_cpu_write(s, addr, data);
            let changed = IremH3001::cpu_byte(s, addr) != data;
            &&& IremH3001::cpu_byte(after, addr) == data
            &&& !IremH3001::save_due(s) ==> IremH3001::save_due(after) == (s.battery && changed)
        }),
{
}

/// A save of one cart loaded into another of the same size brings the RAM over; a save of another
/// size changes nothing. Once saved, no save is due.
pub proof fn lemma_irem_h3001_save_round_trip(s: IremH3001State, fresh: IremH3001State, other: Seq<u8>)
    requires
        s.battery,
        fresh.battery,
        fresh.prg_ram.len() == s.prg_ram.len(),
        other.len() != s.prg_ram.len(),
    ensures
        IremH3001::battery_bytes(IremH3001::after_load(fresh, s.prg_ram)) == IremH3001::battery_bytes(s),
        IremH3001::after_load(s, other) == s,
        !IremH3001::save_due(IremH3001::after_save(s)),
{
}

/// An enabled counter at `n` raises the interrupt in its cycle `n`, and not before; it is then
/// disabled.
pub proof fn lemma_h3001_irq_timing(s: IremH3001State, n: nat)
    requires
        s.irq_enabled,
        s.irq_counter > 0,
        !s.irq_line,
    ensures
        n < s.irq_counter ==> after_cycles::<IremH3001>(s, n) == (IremH3001State {
            irq_counter: (s.irq_counter - n) as u16,
            ..s
        }),
        n == s.irq_counter ==> after_cycles::<IremH3001>(s, n) == (IremH3001State {
            irq_counter: 0,
            irq_enabled: false,
            irq_line: true,
            ..s
        }),
    decreases n,
{
    if n > 0 {
        lemma_h3001_irq_timing(s, (n - 1) as nat);
    }
}

/// The line stays up until `$9003` or `$9004` is written.
pub proof fn lemma_h3001_irq_holds(s: IremH3001State, addr: u16, data: u8)
    requires
        s.irq_line,
    ensures
        IremH3001::after_cpu_cycle(s).irq_line,
        IremH3001::after_cpu_write(s, addr, data).irq_line == (addr != 0x9003 && addr != 0x9004),
{
}

} // verus!
