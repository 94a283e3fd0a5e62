//! NES-EVENT, the board of a timed championship (iNES mapper 105).
//!
//! An MMC1, see [`crate::mapper::mmc1`], whose first CHR register does other work:
//!
//! - bit 4, the I bit: while it is clear a timer counts CPU cycles, and raises the interrupt when it
//!   reaches the limit that four switches set; setting it stops and clears the timer and the
//!   interrupt;
//! - bit 3 clear: bits 1-2 select 32 KiB of the first 128 KiB;
//! - bit 3 set: the PRG register banks the second 128 KiB under the PRG mode.
//!
//! Until the I bit, set at power-on, has been cleared and set again, the first 32 KiB are mapped.
//! There are 8 KiB of pattern RAM.
use vstd::prelude::*;

use crate::mapper::mmc1::{
    control_mirroring, decode_mirroring, lemma_five_shifts, lemma_small_bits, shifted,
};
use crate::mapper::{after_cycles, Mapper, NametableSource, NametableWriteTarget, PpuFetchKind};
use crate::mem::{
    bank_count, byte_at, copied, count_banks, in_bank, poke, poked, ram_fits, ram_size, read_at,
    reload, reloaded, work_ram, wrapped_offset, zeroed, zeros,
};
use crate::rom::{Cartridge, Mirroring};
use crate::save_state::mapper::{MapperState, NesEventSnap};
use crate::save_state::{MirroringSnap, SaveStateError};

verus! {

pub struct Mapper105 {
    pub prg_rom: Vec<u8>,
    pub chr_ram: Vec<u8>,
    pub prg_ram: Vec<u8>,
    pub mirroring: Mirroring,
    pub prg_bank_count_16k: usize,
    pub shift: u8,
    pub shift_count: u8,
    pub control: u8,
    pub chr0: u8,
    pub chr1: u8,
    pub prg: u8,
    /// 0 until the I bit is cleared, then 1 until it is set, then 2.
    pub init_state: u8,
    pub irq_counter: u32,
    pub irq_enabled: bool,
    pub irq_line: bool,
    /// The switches.
    pub dip: u8,
    pub cycle_counter: u64,
    pub last_write_cycle: Option<u64>,
}

/// The state of an [`Mapper105`] board.
#[verifier::ext_equal]
pub struct Mapper105State {
    pub prg_rom: Seq<u8>,
    pub chr_ram: Seq<u8>,
    pub prg_ram: Seq<u8>,
    pub mirroring: Mirroring,
    pub prg_bank_count_16k: usize,
    pub shift: u8,
    pub shift_count: u8,
    pub control: u8,
    pub chr0: u8,
    pub chr1: u8,
    pub prg: u8,
    pub init_state: u8,
    pub irq_counter: u32,
    pub irq_enabled: bool,
    pub irq_line: bool,
    pub dip: u8,
    pub cycle_counter: u64,
    pub last_write_cycle: Option<u64>,
}

impl View for Mapper105 {
    type V = Mapper105State;

    open spec fn view(&self) -> Mapper105State {
        Mapper105State {
            prg_rom: self.prg_rom@,
            chr_ram: self.chr_ram@,
            prg_ram: self.prg_ram@,
            mirroring: self.mirroring,
            prg_bank_count_16k: self.prg_bank_count_16k,
            shift: self.shift,
            shift_count: self.shift_count,
            control: self.control,
            chr0: self.chr0,
            chr1: self.chr1,
            prg: self.prg,
            init_state: self.init_state,
            irq_counter: self.irq_counter,
            irq_enabled: self.irq_enabled,
            irq_line: self.irq_line,
            dip: self.dip,
            cycle_counter: self.cycle_counter,
            last_write_cycle: self.last_write_cycle,
        }
    }
}

impl Mapper105State {
    pub open spec fn power_on(cart: Cartridge) -> Mapper105State {
        Mapper105State {
            prg_rom: cart.prg_rom@,
            chr_ram: zeros(0x2000),
            prg_ram: zeros(ram_size(cart, 0x2000)),
            mirroring: Mirroring::SingleScreenLower,
            prg_bank_count_16k: bank_count(cart.prg_rom@.len(), 0x4000) as usize,
            shift: 0x10,
            shift_count: 0,
            control: 0x0C,
            chr0: 0x10,
            chr1: 0,
            prg: 0,
            init_state: 0,
            irq_counter: 0,
            irq_enabled: false,
            irq_line: false,
            dip: 0,
            cycle_counter: 0,
            last_write_cycle: None,
        }
    }

    pub open spec fn mode(self) -> int {
        self.control as int / 4 % 4
    }

    pub open spec fn i_bit(self) -> bool {
        self.chr0 & 0x10 != 0
    }

    /// The 16 KiB bank of an address.
    pub open spec fn bank_of(self, addr: u16) -> int {
        let high = if addr >= 0xC000 { 1int } else { 0 };
        let inner = self.prg as int % 8;
        if self.init_state < 2 {
            high
        } else if self.chr0 & 0x08 == 0 {
            self.chr0 as int / 2 % 4 * 2 + high
        } else if self.mode() < 2 {
            8 + inner / 2 * 2 + high
        } else if self.mode() == 2 {
            if high == 1 { 8 + inner } else { 8 }
        } else {
            if high == 1 { 15 } else { 8 + inner }
        }
    }

    pub open spec fn prg_index(self, addr: u16) -> int {
        in_bank(self.bank_of(addr) % self.prg_bank_count_16k as int, 0x4000, addr as int)
    }

    pub open spec fn chr_index(self, addr: u16) -> int {
        addr as int
    }

    /// The timer's limit.
    pub open spec fn cap(self) -> u32 {
        (self.dip as u32 | 0x10) << 25
    }

    /// The board after a register has changed: the I bit drives the timer and the unlocking.
    pub open spec fn state_updated(self) -> Mapper105State {
        let advanced = Mapper105State {
            init_state: if self.init_state == 0 && !self.i_bit() {
                1
            } else if self.init_state == 1 && self.i_bit() {
                2
            } else {
                self.init_state
            },
            ..self
        };
        if self.i_bit() {
            Mapper105State { irq_enabled: false, irq_counter: 0, irq_line: false, ..advanced }
        } else {
            Mapper105State { irq_enabled: true, ..advanced }
        }
    }

    pub open spec fn with_control(self, control: u8) -> Mapper105State {
        Mapper105State { control, mirroring: control_mirroring(control), ..self }
    }

    /// The board with `value` in the register at `addr`.
    pub open spec fn committed(self, addr: u16, value: u8) -> Mapper105State {
        (if addr < 0xA000 {
            self.with_control(value & 0x1F)
        } else if addr < 0xC000 {
            Mapper105State { chr0: value & 0x1F, ..self }
        } else if addr < 0xE000 {
            Mapper105State { chr1: value & 0x1F, ..self }
        } else {
            Mapper105State { prg: value & 0x1F, ..self }
        }).state_updated()
    }

    /// The board after a write reaches the shift register. Emptying it does not touch the timer.
    pub open spec fn fed(self, addr: u16, data: u8) -> Mapper105State {
        if data & 0x80 != 0 {
            (Mapper105State { shift: 0x10, shift_count: 0, ..self }).with_control(self.control | 0x0C)
        } else if self.shift_count < 4 {
            Mapper105State { shift: shifted(self.shift, data), shift_count: (self.shift_count + 1) as u8, ..self }
        } else {
            Mapper105State {
                shift: 0x10,
                shift_count: 0,
                ..self.committed(addr, shifted(self.shift, data) & 0x1F)
            }
        }
    }

    /// Whether a write now would follow one on the cycle before.
    pub open spec fn too_soon(self) -> bool {
        match self.last_write_cycle {
            Some(last) => self.cycle_counter == (last + 1) % 0x1_0000_0000_0000_0000,
            None => false,
        }
    }

    /// Whether `snap` was taken in this state.
    pub open spec fn captured(self, snap: NesEventSnap) -> bool {
        &&& snap.chr_ram@ == self.chr_ram
        &&& snap.prg_ram@ == self.prg_ram
        &&& snap.mirroring == MirroringSnap::of(self.mirroring)
        &&& snap.shift == self.shift
        &&& snap.shift_count == self.shift_count
        &&& snap.control == self.control
        &&& snap.chr0 == self.chr0
        &&& snap.chr1 == self.chr1
        &&& snap.prg == self.prg
        &&& snap.init_state == self.init_state
        &&& snap.irq_counter == self.irq_counter
        &&& snap.irq_enabled == self.irq_enabled
        &&& snap.irq_line == self.irq_line
        &&& snap.dip == self.dip
        &&& snap.cycle_counter == self.cycle_counter
        &&& snap.last_write_cycle == self.last_write_cycle
    }

    /// The board with what `snap` holds.
    pub open spec fn restored(self, snap: NesEventSnap) -> Mapper105State {
        Mapper105State {
            chr_ram: reloaded(self.chr_ram, snap.chr_ram@),
            prg_ram: reloaded(self.prg_ram, snap.prg_ram@),
            mirroring: snap.mirroring.live(),
            shift: snap.shift,
            shift_count: snap.shift_count,
            control: snap.control,
            chr0: snap.chr0,
            chr1: snap.chr1,
            prg: snap.prg,
            init_state: snap.init_state,
            irq_counter: snap.irq_counter,
            irq_enabled: snap.irq_enabled,
            irq_line: snap.irq_line,
            dip: snap.dip,
            cycle_counter: snap.cycle_counter,
            last_write_cycle: snap.last_write_cycle,
            ..self
        }
    }

    /// Whether `other` is the same cart, at another time.
    pub open spec fn same_cart(self, other: Mapper105State) -> bool {
        &&& other.chr_ram.len() == self.chr_ram.len()
        &&& other.prg_ram.len() == self.prg_ram.len()
        &&& other.prg_rom == self.prg_rom
        &&& other.prg_bank_count_16k == self.prg_bank_count_16k
    }
}

impl Mapper105 {
    pub fn new(cart: Cartridge) -> (m: Self)
        requires
            ram_fits(cart),
        ensures
            Self::ok(m@),
            m@ == Mapper105State::power_on(cart),
    {
        let mut m: Mapper105 = Mapper105 {
            prg_bank_count_16k: count_banks(&cart.prg_rom, 0x4000),
            prg_rom: cart.prg_rom,
            chr_ram: zeroed(0x2000),
            prg_ram: work_ram(cart.prg_ram_size, cart.prg_nvram_size, 0x2000),
            mirroring: cart.mirroring,
            shift: 0x10,
            shift_count: 0,
            control: 0x0C,
            chr0: 0x10,
            chr1: 0,
            prg: 0,
            init_state: 0,
            irq_counter: 0,
            irq_enabled: false,
            irq_line: false,
            dip: 0,
            cycle_counter: 0,
            last_write_cycle: None,
        };
        proof {
            lemma_power_on_bits();
        }
        m.refresh_mirroring();
        m.update_state();
        m
    }

    /// Sets the four switches.
    pub fn set_dip(&mut self, dip: u8)
        requires
            Self::ok(old(self)@),
        ensures
            Self::ok(final(self)@),
            final(self)@ == (Mapper105State { dip: dip & 0x0F, ..old(self)@ }),
    {
        self.dip = dip & 0x0F;
    }

    fn refresh_mirroring(&mut self)
        ensures
            final(self)@ == (Mapper105State { mirroring: control_mirroring(old(self)@.control), ..old(self)@ }),
    {
        self.mirroring = decode_mirroring(self.control);
    }

    fn prg_mode(&self) -> (mode: u8)
        ensures
            mode == self@.mode(),
    {
        self.control / 4 % 4
    }

    fn update_state(&mut self)
        requires
            Self::ok(old(self)@),
        ensures
            Self::ok(final(self)@),
            final(self)@ == old(self)@.state_updated(),
    {
        let i_bit_set: bool = (self.chr0 & 0x10) != 0;
        if self.init_state == 0 {
            if !i_bit_set {
                self.init_state = 1;
            }
        } else if self.init_state == 1 {
            if i_bit_set {
                self.init_state = 2;
            }
        }
        if i_bit_set {
            self.irq_enabled = false;
            self.irq_counter = 0;
            self.irq_line = false;
        } else {
            self.irq_enabled = true;
        }
    }

    fn prg_bank_for(&self, addr: u16) -> (bank: usize)
        ensures
            bank == self@.bank_of(addr),
    {
        let high: usize = if addr >= 0xC000 { 1 } else { 0 };
        if self.init_state < 2 {
            return high;
        }
        if (self.chr0 & 0x08) == 0 {
            return self.chr0 as usize / 2 % 4 * 2 + high;
        }
        let inner: usize = self.prg as usize % 8;
        match self.prg_mode() {
            2 => if high == 1 { 8 + inner } else { 8 },
            3 => if high == 1 { 15 } else { 8 + inner },
            _ => 8 + inner / 2 * 2 + high,
        }
    }

    fn map_prg(&self, addr: u16) -> (i: usize)
        requires
            Self::ok(self@),
        ensures
            i == self@.prg_index(addr),
    {
        wrapped_offset(&self.prg_rom, self.prg_bank_count_16k, self.prg_bank_for(addr), 0x4000, addr)
    }

    fn map_chr(&self, addr: u16) -> (i: usize)
        ensures
            i == self@.chr_index(addr),
    {
        addr as usize
    }

    fn commit(&mut self, addr: u16, value: u8)
        requires
            Self::ok(old(self)@),
        ensures
            Self::ok(final(self)@),
            final(self)@ == old(self)@.committed(addr, value),
    {
        if addr < 0xA000 {
            self.control = value & 0x1F;
            self.refresh_mirroring();
        } else if addr < 0xC000 {
            self.chr0 = value & 0x1F;
        } else if addr < 0xE000 {
            self.chr1 = value & 0x1F;
        } else {
            self.prg = value & 0x1F;
        }
        self.update_state();
    }

    fn feed_shift(&mut self, addr: u16, data: u8)
        requires
            Self::ok(old(self)@),
        ensures
            Self::ok(final(self)@),
            final(self)@ == old(self)@.fed(addr, data),
    {
        if (data & 0x80) != 0 {
            self.shift = 0x10;
            self.shift_count = 0;
            self.control = self.control | 0x0C;
            self.refresh_mirroring();
            return;
        }
        self.shift = (self.shift >> 1) | ((data & 1) << 4);
        self.shift_count = self.shift_count + 1;
        if self.shift_count == 5 {
            let value: u8 = self.shift & 0x1F;
            self.shift = 0x10;
            self.shift_count = 0;
            self.commit(addr, value);
        }
    }

    /// The timer's limit.
    pub fn irq_cap(&self) -> (cap: u32)
        ensures
            cap == self@.cap(),
    {
        (self.dip as u32 | 0x10) << 25
    }
}

proof fn lemma_power_on_bits()
    by (bit_vector)
    ensures
        0x10u8 & 0x10 != 0,
{
}

impl Mapper for Mapper105 {
    open spec fn ok(s: Mapper105State) -> bool {
        &&& s.prg_bank_count_16k == bank_count(s.prg_rom.len(), 0x4000)
        &&& s.shift_count < 5
    }

    open spec fn cpu_byte(s: Mapper105State, addr: u16) -> u8 {
        if addr >= 0x8000 {
            byte_at(s.prg_rom, s.prg_index(addr))
        } else if addr >= 0x6000 {
            byte_at(s.prg_ram, addr - 0x6000)
        } else {
            0
        }
    }

    open spec fn after_cpu_write(s: Mapper105State, addr: u16, data: u8) -> Mapper105State {
        if addr >= 0x8000 {
            if s.too_soon() {
                s
            } else {
                (Mapper105State { last_write_cycle: Some(s.cycle_counter), ..s }).fed(addr, data)
            }
        } else if addr >= 0x6000 {
            Mapper105State { prg_ram: poked(s.prg_ram, addr - 0x6000, data), ..s }
        } else {
            s
        }
    }

    open spec fn ppu_byte(s: Mapper105State, addr: u16) -> u8 {
        if addr < 0x2000 {
            byte_at(s.chr_ram, s.chr_index(addr))
        } else {
            0
        }
    }

    open spec fn after_ppu_write(s: Mapper105State, addr: u16, data: u8) -> Mapper105State {
        if addr < 0x2000 {
            Mapper105State { chr_ram: poked(s.chr_ram, s.chr_index(addr), data), ..s }
        } else {
            s
        }
    }

    open spec fn after_cpu_cycle(s: Mapper105State) -> Mapper105State {
        let clocked = Mapper105State {
            cycle_counter: ((s.cycle_counter + 1) % 0x1_0000_0000_0000_0000) as u64,
            ..s
        };
        if s.irq_enabled {
            let counter = ((s.irq_counter + 1) % 0x1_0000_0000) as u32;
            if counter >= s.cap() {
                Mapper105State { irq_counter: counter, irq_line: true, irq_enabled: false, ..clocked }
            } else {
                Mapper105State { irq_counter: counter, ..clocked }
            }
        } else {
            clocked
        }
    }

    open spec fn irq(s: Mapper105State) -> bool {
        s.irq_line
    }

    open spec fn snapshot_ok(s: Mapper105State, state: MapperState) -> bool {
        match state {
            MapperState::NesEvent(snap) => snap.shift_count < 5,
            _ => true,
        }
    }

    fn cpu_read(&mut self, addr: u16) -> (byte: u8) {
        self.cpu_peek(addr)
    }

    fn cpu_peek(&self, addr: u16) -> (byte: u8) {
        match addr {
            0x6000..=0x7FFF => read_at(&self.prg_ram, (addr - 0x6000) as usize),
            0x8000..=0xFFFF => read_at(&self.prg_rom, self.map_prg(addr)),
            _ => 0,
        }
    }

    fn cpu_write(&mut self, addr: u16, data: u8) {
        match addr {
            0x6000..=0x7FFF => poke(&mut self.prg_ram, (addr - 0x6000) as usize, data),
            0x8000..=0xFFFF => {
                if let Some(prev) = self.last_write_cycle {
                    if self.cycle_counter == prev.wrapping_add(1) {
                        return;
                    }
                }
                self.last_write_cycle = Some(self.cycle_counter);
                self.feed_shift(addr, data);
            }
            _ => {}
        }
    }

    fn ppu_read(&mut self, addr: u16) -> (byte: u8) {
        if addr < 0x2000 {
            read_at(&self.chr_ram, self.map_chr(addr))
        } else {
            0
        }
    }

    fn ppu_write(&mut self, addr: u16, data: u8) {
        if addr < 0x2000 {
            let i: usize = self.map_chr(addr);
            poke(&mut self.chr_ram, i, data);
        }
    }

    open spec fn mirrored(s: Mapper105State) -> Mirroring {
        s.mirroring
    }

    fn mirroring(&self) -> (mode: Mirroring) {
        self.mirroring
    }

    fn cpu_read_ex(&mut self, addr: u16) -> (byte: Option<u8>) {
        None
    }

    fn on_cpu_cycle(&mut self) {
        self.cycle_counter = self.cycle_counter.wrapping_add(1);
        if self.irq_enabled {
            self.irq_counter = self.irq_counter.wrapping_add(1);
            if self.irq_counter >= self.irq_cap() {
                self.irq_line = true;
                self.irq_enabled = false;
            }
        }
    }

    fn irq_line(&self) -> (asserted: bool) {
        self.irq_line
    }

    open spec fn captures(s: Mapper105State, state: Option<MapperState>) -> bool {
        match state {
            Some(MapperState::NesEvent(snap)) => s.captured(snap),
            _ => false,
        }
    }

    open spec fn after_apply(s: Mapper105State, state: MapperState) -> Option<Mapper105State> {
        match state {
            MapperState::NesEvent(snap) => Some(s.restored(snap)),
            _ => None,
        }
    }

    fn save_state_capture(&self) -> (state: Option<MapperState>) {
        Some(MapperState::NesEvent(NesEventSnap {
            chr_ram: copied(&self.chr_ram),
            prg_ram: copied(&self.prg_ram),
            mirroring: MirroringSnap::from_live(self.mirroring),
            shift: self.shift,
            shift_count: self.shift_count,
            control: self.control,
            chr0: self.chr0,
            chr1: self.chr1,
            prg: self.prg,
            init_state: self.init_state,
            irq_counter: self.irq_counter,
            irq_enabled: self.irq_enabled,
            irq_line: self.irq_line,
            dip: self.dip,
            cycle_counter: self.cycle_counter,
            last_write_cycle: self.last_write_cycle,
        }))
    }

    fn save_state_apply(&mut self, state: &MapperState) -> (result: Result<(), SaveStateError>) {
        match state {
            MapperState::NesEvent(snap) => {
                reload(&mut self.chr_ram, snap.chr_ram.as_slice());
                reload(&mut self.prg_ram, snap.prg_ram.as_slice());
                self.mirroring = snap.mirroring.to_live();
                self.shift = snap.shift;
                self.shift_count = snap.shift_count;
                self.control = snap.control;
                self.chr0 = snap.chr0;
                self.chr1 = snap.chr1;
                self.prg = snap.prg;
                self.init_state = snap.init_state;
                self.irq_counter = snap.irq_counter;
                self.irq_enabled = snap.irq_enabled;
                self.irq_line = snap.irq_line;
                self.dip = snap.dip;
                self.cycle_counter = snap.cycle_counter;
                self.last_write_cycle = snap.last_write_cycle;
                Ok(())
            }
            _ => Err(SaveStateError::UnsupportedMapper(0)),
        }
    }

    fn ppu_nametable_read(&mut self, slot: u8, offset: u16) -> (source: NametableSource) {
        NametableSource::Default
    }

    fn ppu_nametable_write(&mut self, slot: u8, offset: u16, data: u8) -> (target: NametableWriteTarget) {
        NametableWriteTarget::Default
    }

    fn on_ppu_addr(&mut self, addr: u16, ppu_cycle: u64, kind: PpuFetchKind) {
    }

    fn save_data(&self) -> (bytes: Option<&[u8]>) {
        None
    }

    fn load_save_data(&mut self, data: &[u8]) {
    }

    fn save_dirty(&self) -> (dirty: bool) {
        false
    }

    fn mark_saved(&mut self) {
    }
}

/// A snapshot brings back the board it was taken from, whatever happened to it since.
pub proof fn lemma_mapper105_round_trip(
    s: Mapper105State,
    later: Mapper105State,
    state: MapperState,
)
    requires
        Mapper105::ok(s),
        Mapper105::ok(later),
        s.same_cart(later),
        Mapper105::captures(s, Some(state)),
    ensures
        Mapper105::snapshot_ok(later, state),
        Mapper105::after_apply(later, state) == Some(s),
{
}

/// No write changes the cart's ROM.
pub proof fn lemma_mapper105_rom_is_read_only(s: Mapper105State, addr: u16, data: u8)
    ensures
        Mapper105::after_cpu_write(s, addr, data).prg_rom == s.prg_rom,
        Mapper105::after_ppu_write(s, addr, data).prg_rom == s.prg_rom,
{
}

/// Pattern RAM gives back what was stored.
pub proof fn lemma_mapper105_pattern_ram(s: Mapper105State, addr: u16, data: u8)
    requires
        Mapper105::ok(s),
        addr < 0x2000,
        0 <= s.chr_index(addr) < s.chr_ram.len(),
    ensures
        ({
            let after = Mapper105::after_ppu_write(s, addr, data);
            Mapper105::ppu_byte(after, addr) == data
        }),
{
}

/// Five writes with bit 7 clear load the register of the last address with their bits 0, the first
/// one lowest.
pub proof fn lemma_event_serial_load(s: Mapper105State, addr: u16, value: u8)
    requires
        s.shift_count == 0,
        s.shift < 32,
        value < 32,
    ensures
        s.fed(addr, value).fed(addr, value >> 1).fed(addr, value >> 2).fed(addr, value >> 3).fed(addr, value >> 4)
            == (Mapper105State { shift: 0x10, shift_count: 0, ..s.committed(addr, value) }),
{
    lemma_five_shifts(s.shift, value);
    lemma_small_bits(value);
}

/// The first 32 KiB stay mapped until the I bit has been cleared and set again.
pub proof fn lemma_event_locked(s: Mapper105State, addr: u16)
    requires
        s.init_state < 2,
        addr >= 0x8000,
    ensures
        s.bank_of(addr) == (if addr < 0xC000 { 0int } else { 1 }),
        s.state_updated().init_state == 2 ==> s.init_state == 1 && s.i_bit(),
        s.state_updated().init_state == 1 ==> !s.i_bit(),
{
}

/// Clearing the I bit and setting it again unlocks the board.
pub proof fn lemma_event_unlocks(s: Mapper105State, clear: u8, set: u8)
    requires
        s.init_state == 0,
        clear & 0x10 == 0,
        set & 0x10 != 0,
    ensures
        s.committed(0xA000, clear).init_state == 1,
        s.committed(0xA000, clear).committed(0xA000, set).init_state == 2,
{
    assert(clear & 0x10 == 0 ==> (clear & 0x1F) & 0x10 == 0) by (bit_vector);
    assert(set & 0x10 != 0 ==> (set & 0x1F) & 0x10 != 0) by (bit_vector);
}

/// The timer, started from zero, raises the interrupt in the cycle that reaches the limit, and not
/// before. With the switches at `dip` the limit is `(16 + dip) * 2^25` cycles.
pub proof fn lemma_event_timer(s: Mapper105State, n: nat)
    requires
        s.irq_enabled,
        s.irq_counter == 0,
        !s.irq_line,
        s.dip < 16,
    ensures
        s.cap() == (16 + s.dip) * 0x200_0000,
        n < s.cap() ==> after_cycles::<Mapper105>(s, n).irq_counter == n
            && after_cycles::<Mapper105>(s, n).irq_enabled && !after_cycles::<Mapper105>(s, n).irq_line
            && after_cycles::<Mapper105>(s, n).dip == s.dip,
        n == s.cap() ==> after_cycles::<Mapper105>(s, n).irq_line,
    decreases n,
{
    let dip = s.dip as u32;
    assert((dip | 0x10) << 25 == (16 + dip) * 0x200_0000) by (bit_vector)
        requires
            dip < 16,
    ;
    if n > 0 {
        lemma_event_timer(s, (n - 1) as nat);
    }
}

} // verus!
