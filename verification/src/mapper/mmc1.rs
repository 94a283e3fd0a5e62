//! MMC1 (iNES mapper 1).
//!
//! The chip has one data pin: writes to `$8000-$FFFF` feed a shift register, and every fifth write
//! stores the five bits, first one lowest, into the register of the address it went to: control at
//! `$8000`, CHR banks at `$A000` and `$C000`, PRG bank at `$E000`. A write with bit 7 set empties
//! the shift register and selects PRG mode 3. Of two writes on successive CPU cycles only the first
//! counts.
//!
//! Control bits 0-1 are the mirroring, bits 2-3 the PRG mode, bit 4 the CHR mode. PRG modes 0 and 1
//! switch 32 KiB; mode 2 has the first bank at `$8000` and switches `$C000`; mode 3 switches `$8000`
//! and has the last bank at `$C000`. CHR is switched in one piece of 8 KiB or two of 4 KiB.
use vstd::prelude::*;

use crate::mapper::{Mapper, NametableSource, NametableWriteTarget, PpuFetchKind};
use crate::mem::{
    bank_count, byte_at, copied, copy_if_ram, count_banks, dirtied, in_bank, poke, poke_ram, poked,
    ram_copy, ram_fits, ram_restored, ram_size, read_at, reload, reloaded, restore_if_ram, work_ram,
    wrapped_offset, zeroed, zeros,
};
use crate::rom::{Cartridge, Mirroring};
use crate::save_state::mapper::{MapperState, Mmc1Snap};
use crate::save_state::{MirroringSnap, SaveStateError};

verus! {

pub struct Mmc1 {
    pub prg_rom: Vec<u8>,
    pub chr: Vec<u8>,
    pub prg_ram: Vec<u8>,
    pub chr_ram: bool,
    pub shift: u8,
    pub shift_count: u8,
    pub control: u8,
    pub chr_bank_0: u8,
    pub chr_bank_1: u8,
    pub prg_bank: u8,
    pub mirroring: Mirroring,
    pub cycle_counter: u64,
    pub last_write_cycle: Option<u64>,
    pub prg_bank_count_16k: usize,
    pub battery: bool,
    pub save_dirty: bool,
}

/// The state of an [`Mmc1`] board.
#[verifier::ext_equal]
pub struct Mmc1State {
    pub prg_rom: Seq<u8>,
    pub chr: Seq<u8>,
    pub prg_ram: Seq<u8>,
    pub chr_ram: bool,
    pub shift: u8,
    pub shift_count: u8,
    pub control: u8,
    pub chr_bank_0: u8,
    pub chr_bank_1: u8,
    pub prg_bank: u8,
    pub mirroring: Mirroring,
    pub cycle_counter: u64,
    pub last_write_cycle: Option<u64>,
    pub prg_bank_count_16k: usize,
    pub battery: bool,
    pub save_dirty: bool,
}

impl View for Mmc1 {
    type V = Mmc1State;

    open spec fn view(&self) -> Mmc1State {
        Mmc1State {
            prg_rom: self.prg_rom@,
            chr: self.chr@,
            prg_ram: self.prg_ram@,
            chr_ram: self.chr_ram,
            shift: self.shift,
            shift_count: self.shift_count,
            control: self.control,
            chr_bank_0: self.chr_bank_0,
            chr_bank_1: self.chr_bank_1,
            prg_bank: self.prg_bank,
            mirroring: self.mirroring,
            cycle_counter: self.cycle_counter,
            last_write_cycle: self.last_write_cycle,
            prg_bank_count_16k: self.prg_bank_count_16k,
            battery: self.battery,
            save_dirty: self.save_dirty,
        }
    }
}

/// The mirroring that a control value selects.
pub open spec fn control_mirroring(control: u8) -> Mirroring {
    if control % 4 == 0 {
        Mirroring::SingleScreenLower
    } else if control % 4 == 1 {
        Mirroring::SingleScreenUpper
    } else if control % 4 == 2 {
        Mirroring::Vertical
    } else {
        Mirroring::Horizontal
    }
}

pub fn decode_mirroring(control: u8) -> (mode: Mirroring)
    ensures
        mode == control_mirroring(control),
{
    match control % 4 {
        0 => Mirroring::SingleScreenLower,
        1 => Mirroring::SingleScreenUpper,
        2 => Mirroring::Vertical,
        _ => Mirroring::Horizontal,
    }
}

/// The shift register after a write: bit 0 comes in at the top of five.
pub open spec fn shifted(shift: u8, data: u8) -> u8 {
    (shift >> 1) | ((data & 1) << 4)
}

/// Five writes of the bits of `value`, lowest first, leave it in the shift register, whatever was
/// in its five bits.
pub proof fn lemma_five_shifts(start: u8, value: u8)
    requires
        start < 32,
        value < 32,
    ensures
        shifted(
            shifted(shifted(shifted(shifted(start, value), value >> 1), value >> 2), value >> 3),
            value >> 4,
        ) & 0x1F == value,
{
    let a = shifted(start, value);
    let b = shifted(a, value >> 1);
    let c = shifted(b, value >> 2);
    let d = shifted(c, value >> 3);
    let e = shifted(d, value >> 4);
    assert(e & 0x1F == value) by (bit_vector)
        requires
            start < 32,
            value < 32,
            a == (start >> 1) | ((value & 1) << 4),
            b == (a >> 1) | (((value >> 1) & 1) << 4),
            c == (b >> 1) | (((value >> 2) & 1) << 4),
            d == (c >> 1) | (((value >> 3) & 1) << 4),
            e == (d >> 1) | (((value >> 4) & 1) << 4),
    ;
}

impl Mmc1State {
    pub open spec fn power_on(cart: Cartridge) -> Mmc1State {
        Mmc1State {
            prg_rom: cart.prg_rom@,
            chr: if cart.chr_ram { zeros(0x2000) } else { cart.chr_rom@ },
            prg_ram: zeros(ram_size(cart, 0x2000)),
            chr_ram: cart.chr_ram,
            shift: 0x10,
            shift_count: 0,
            control: 0x0C,
            chr_bank_0: 0,
            chr_bank_1: 0,
            prg_bank: 0,
            mirroring: Mirroring::SingleScreenLower,
            cycle_counter: 0,
            last_write_cycle: None,
            prg_bank_count_16k: bank_count(cart.prg_rom@.len(), 0x4000) as usize,
            battery: cart.battery_backed,
            save_dirty: false,
        }
    }

    pub open spec fn mode(self) -> int {
        self.control as int / 4 % 4
    }

    pub open spec fn prg_selector(self, addr: u16) -> int {
        let bank = self.prg_bank as int % 16;
        let high = addr >= 0xC000;
        if self.mode() < 2 {
            bank / 2 * 2 + (if high { 1int } else { 0 })
        } else if self.mode() == 2 {
            if high { bank } else { 0 }
        } else {
            if high { self.prg_bank_count_16k - 1 } else { bank }
        }
    }

    pub open spec fn prg_index(self, addr: u16) -> int {
        in_bank(self.prg_selector(addr) % self.prg_bank_count_16k as int, 0x4000, addr as int)
    }

    /// CHR banks are selected by masking with the number of 4 KiB banks less one; memory of less
    /// than one bank repeats.
    pub open spec fn chr_index(self, addr: u16) -> int {
        let len = if self.chr.len() > 0 { self.chr.len() as int } else { 1 };
        let banks = len / 0x1000;
        let mask = (banks - 1) as usize;
        if banks == 0 {
            addr as int % len
        } else if self.control & 0x10 != 0 {
            let selector = if addr < 0x1000 { self.chr_bank_0 } else { self.chr_bank_1 };
            in_bank((selector as usize & mask) as int, 0x1000, addr as int)
        } else {
            (((self.chr_bank_0 & 0xFE) as usize & mask) * 0x1000 + addr) % len
        }
    }

    /// The board with a control value.
    pub open spec fn with_control(self, control: u8) -> Mmc1State {
        Mmc1State { control, mirroring: control_mirroring(control), ..self }
    }

    /// The board with `value` in the register at `addr`.
    pub open spec fn committed(self, addr: u16, value: u8) -> Mmc1State {
        if addr < 0xA000 {
            self.with_control(value & 0x1F)
        } else if addr < 0xC000 {
            Mmc1State { chr_bank_0: value & 0x1F, ..self }
        } else if addr < 0xE000 {
            Mmc1State { chr_bank_1: value & 0x1F, ..self }
        } else {
            Mmc1State { prg_bank: value & 0x1F, ..self }
        }
    }

    /// The board after a write reaches the shift register.
    pub open spec fn fed(self, addr: u16, data: u8) -> Mmc1State {
        if data & 0x80 != 0 {
            (Mmc1State { shift: 0x10, shift_count: 0, ..self }).with_control(self.control | 0x0C)
        } else if self.shift_count < 4 {
            Mmc1State { shift: shifted(self.shift, data), shift_count: (self.shift_count + 1) as u8, ..self }
        } else {
            Mmc1State {
                shift: 0x10,
                shift_count: 0,
                ..self.committed(addr, shifted(self.shift, data) & 0x1F)
            }
        }
    }

    /// Whether a write now would follow one on the cycle before.
    pub open spec fn too_soon(self) -> bool {
        match self.last_write_cycle {
            Some(last) => self.cycle_counter == (last + 1) % 0x1_0000_0000_0000_0000,
            None => false,
        }
    }

    /// The board with battery RAM from a save; data of another length is ignored.
    pub open spec fn loaded(self, data: Seq<u8>) -> Mmc1State {
        if self.battery {
            Mmc1State { prg_ram: reloaded(self.prg_ram, data), ..self }
        } else {
            self
        }
    }

    /// Whether `snap` was taken in this state.
    pub open spec fn captured(self, snap: Mmc1Snap) -> bool {
        &&& snap.prg_ram@ == self.prg_ram
        &&& snap.chr_ram_data@ == ram_copy(self.chr_ram, self.chr)
        &&& snap.shift == self.shift
        &&& snap.shift_count == self.shift_count
        &&& snap.control == self.control
        &&& snap.chr_bank_0 == self.chr_bank_0
        &&& snap.chr_bank_1 == self.chr_bank_1
        &&& snap.prg_bank == self.prg_bank
        &&& snap.mirroring == MirroringSnap::of(self.mirroring)
        &&& snap.cycle_counter == self.cycle_counter
        &&& snap.last_write_cycle == self.last_write_cycle
        &&& snap.save_dirty == self.save_dirty
    }

    /// The board with what `snap` holds.
    pub open spec fn restored(self, snap: Mmc1Snap) -> Mmc1State {
        Mmc1State {
            prg_ram: reloaded(self.prg_ram, snap.prg_ram@),
            chr: ram_restored(self.chr_ram, self.chr, snap.chr_ram_data@),
            shift: snap.shift,
            shift_count: snap.shift_count,
            control: snap.control,
            chr_bank_0: snap.chr_bank_0,
            chr_bank_1: snap.chr_bank_1,
            prg_bank: snap.prg_bank,
            mirroring: snap.mirroring.live(),
            cycle_counter: snap.cycle_counter,
            last_write_cycle: snap.last_write_cycle,
            save_dirty: snap.save_dirty,
            ..self
        }
    }

    /// Whether `other` is the same cart, at another time.
    pub open spec fn same_cart(self, other: Mmc1State) -> bool {
        &&& other.prg_ram.len() == self.prg_ram.len()
        &&& self.chr_ram ==> other.chr.len() == self.chr.len()
        &&& !self.chr_ram ==> other.chr == self.chr
        &&& other.prg_rom == self.prg_rom
        &&& other.chr_ram == self.chr_ram
        &&& other.prg_bank_count_16k == self.prg_bank_count_16k
        &&& other.battery == self.battery
    }
}

impl Mmc1 {
    pub fn new(cart: Cartridge) -> (m: Self)
        requires
            ram_fits(cart),
        ensures
            Self::ok(m@),
            m@ == Mmc1State::power_on(cart),
    {
        let chr: Vec<u8> = if cart.chr_ram { zeroed(0x2000) } else { cart.chr_rom };
        let mut m: Mmc1 = Mmc1 {
            prg_bank_count_16k: count_banks(&cart.prg_rom, 0x4000),
            prg_rom: cart.prg_rom,
            chr,
            prg_ram: work_ram(cart.prg_ram_size, cart.prg_nvram_size, 0x2000),
            chr_ram: cart.chr_ram,
            shift: 0x10,
            shift_count: 0,
            control: 0x0C,
            chr_bank_0: 0,
            chr_bank_1: 0,
            prg_bank: 0,
            mirroring: cart.mirroring,
            cycle_counter: 0,
            last_write_cycle: None,
            battery: cart.battery_backed,
            save_dirty: false,
        };
        m.refresh_mirroring();
        m
    }

    fn refresh_mirroring(&mut self)
        ensures
            final(self)@ == (Mmc1State { mirroring: control_mirroring(old(self)@.control), ..old(self)@ }),
    {
        self.mirroring = decode_mirroring(self.control);
    }

    fn prg_mode(&self) -> (mode: u8)
        ensures
            mode == self@.mode(),
    {
        self.control / 4 % 4
    }

    fn map_prg(&self, addr: u16) -> (i: usize)
        requires
            Self::ok(self@),
        ensures
            i == self@.prg_index(addr),
    {
        let bank_sel: usize = self.prg_bank as usize % 16;
        let high: bool = addr >= 0xC000;
        let bank: usize = match self.prg_mode() {
            2 => if high { bank_sel } else { 0 },
            3 => if high { self.prg_bank_count_16k - 1 } else { bank_sel },
            _ => bank_sel / 2 * 2 + (if high { 1 } else { 0 }),
        };
        wrapped_offset(&self.prg_rom, self.prg_bank_count_16k, bank, 0x4000, addr)
    }

    fn map_chr(&self, addr: u16) -> (i: usize)
        requires
            addr < 0x2000,
        ensures
            i == self@.chr_index(addr),
    {
        let len: usize = if self.chr.len() > 0 { self.chr.len() } else { 1 };
        let banks_4k: usize = len / 0x1000;
        if banks_4k == 0 {
            return addr as usize % len;
        }
        let mask_4k: usize = banks_4k - 1;
        if (self.control & 0x10) != 0 {
            let selector: u8 = if addr < 0x1000 { self.chr_bank_0 } else { self.chr_bank_1 };
            proof {
                crate::bits::lemma_mask_usize(selector as usize, mask_4k);
            }
            (selector as usize & mask_4k) * 0x1000 + addr as usize % 0x1000
        } else {
            let bank: usize = (self.chr_bank_0 & 0xFE) as usize & mask_4k;
            proof {
                crate::bits::lemma_mask_usize((self.chr_bank_0 & 0xFE) as usize, mask_4k);
            }
            let base: usize = bank * 0x1000;
            let room: usize = len - base;
            let offset: usize = addr as usize;
            proof {
                if offset < room {
                    vstd::arithmetic::div_mod::lemma_small_mod((base + offset) as nat, len as nat);
                } else {
                    vstd::arithmetic::div_mod::lemma_fundamental_div_mod_converse(
                        base + offset,
                        len as int,
                        1,
                        offset - room,
                    );
                }
            }
            if offset < room {
                base + offset
            } else {
                offset - room
            }
        }
    }

    fn commit(&mut self, addr: u16, value: u8)
        requires
            Self::ok(old(self)@),
        ensures
            Self::ok(final(self)@),
            final(self)@ == old(self)@.committed(addr, value),
    {
        if addr < 0xA000 {
            self.control = value & 0x1F;
            self.refresh_mirroring();
        } else if addr < 0xC000 {
            self.chr_bank_0 = value & 0x1F;
        } else if addr < 0xE000 {
            self.chr_bank_1 = value & 0x1F;
        } else {
            self.prg_bank = value & 0x1F;
        }
    }

    fn feed_shift(&mut self, addr: u16, data: u8)
        requires
            Self::ok(old(self)@),
        ensures
            Self::ok(final(self)@),
            final(self)@ == old(self)@.fed(addr, data),
    {
        if (data & 0x80) != 0 {
            self.shift = 0x10;
            self.shift_count = 0;
            self.control = self.control | 0x0C;
            self.refresh_mirroring();
            return;
        }
        self.shift = (self.shift >> 1) | ((data & 1) << 4);
        self.shift_count = self.shift_count + 1;
        if self.shift_count == 5 {
            let value: u8 = self.shift & 0x1F;
            self.shift = 0x10;
            self.shift_count = 0;
            self.commit(addr, value);
        }
    }
}

impl Mapper for Mmc1 {
    open spec fn ok(s: Mmc1State) -> bool {
        &&& s.prg_bank_count_16k == bank_count(s.prg_rom.len(), 0x4000)
        &&& s.shift_count < 5
    }

    open spec fn cpu_byte(s: Mmc1State, addr: u16) -> u8 {
        if addr >= 0x8000 {
            byte_at(s.prg_rom, s.prg_index(addr))
        } else if addr >= 0x6000 {
            byte_at(s.prg_ram, addr - 0x6000)
        } else {
            0
        }
    }

    open spec fn after_cpu_write(s: Mmc1State, addr: u16, data: u8) -> Mmc1State {
        if addr >= 0x8000 {
            if s.too_soon() {
                s
            } else {
                (Mmc1State { last_write_cycle: Some(s.cycle_counter), ..s }).fed(addr, data)
            }
        } else if addr >= 0x6000 {
            Mmc1State {
                prg_ram: poked(s.prg_ram, addr - 0x6000, data),
                save_dirty: dirtied(s.prg_ram, s.battery, s.save_dirty, addr - 0x6000, data),
                ..s
            }
        } else {
            s
        }
    }

    open spec fn ppu_byte(s: Mmc1State, addr: u16) -> u8 {
        if addr < 0x2000 {
            byte_at(s.chr, s.chr_index(addr))
        } else {
            0
        }
    }

    open spec fn after_ppu_write(s: Mmc1State, addr: u16, data: u8) -> Mmc1State {
        if s.chr_ram && addr < 0x2000 {
            Mmc1State { chr: poked(s.chr, s.chr_index(addr), data), ..s }
        } else {
            s
        }
    }

    open spec fn after_cpu_cycle(s: Mmc1State) -> Mmc1State {
        Mmc1State { cycle_counter: ((s.cycle_counter + 1) % 0x1_0000_0000_0000_0000) as u64, ..s }
    }

    open spec fn snapshot_ok(s: Mmc1State, state: MapperState) -> bool {
        match state {
            MapperState::Mmc1(snap) => snap.shift_count < 5,
            _ => true,
        }
    }

    fn cpu_read(&mut self, addr: u16) -> (byte: u8) {
        self.cpu_peek(addr)
    }

    fn cpu_peek(&self, addr: u16) -> (byte: u8) {
        match addr {
            0x6000..=0x7FFF => read_at(&self.prg_ram, (addr - 0x6000) as usize),
            0x8000..=0xFFFF => read_at(&self.prg_rom, self.map_prg(addr)),
            _ => 0,
        }
    }

    fn cpu_write(&mut self, addr: u16, data: u8) {
        match addr {
            0x6000..=0x7FFF => {
                poke_ram(&mut self.prg_ram, &mut self.save_dirty, self.battery, (addr - 0x6000) as usize, data);
            }
            0x8000..=0xFFFF => {
                if let Some(prev) = self.last_write_cycle {
                    if self.cycle_counter == prev.wrapping_add(1) {
                        return;
                    }
                }
                self.last_write_cycle = Some(self.cycle_counter);
                self.feed_shift(addr, data);
            }
            _ => {}
        }
    }

    fn ppu_read(&mut self, addr: u16) -> (byte: u8) {
        if addr < 0x2000 {
            read_at(&self.chr, self.map_chr(addr))
        } else {
            0
        }
    }

    fn ppu_write(&mut self, addr: u16, data: u8) {
        if self.chr_ram && addr < 0x2000 {
            let i: usize = self.map_chr(addr);
            poke(&mut self.chr, i, data);
        }
    }

    open spec fn mirrored(s: Mmc1State) -> Mirroring {
        s.mirroring
    }

    fn mirroring(&self) -> (mode: Mirroring) {
        self.mirroring
    }

    fn cpu_read_ex(&mut self, addr: u16) -> (byte: Option<u8>) {
        None
    }

    fn on_cpu_cycle(&mut self) {
        self.cycle_counter = self.cycle_counter.wrapping_add(1);
    }

    fn irq_line(&self) -> (asserted: bool) {
        false
    }

    open spec fn battery_bytes(s: Mmc1State) -> Option<Seq<u8>> {
        if s.battery {
            Some(s.prg_ram)
        } else {
            None
        }
    }

    open spec fn after_load(s: Mmc1State, data: Seq<u8>) -> Mmc1State {
        s.loaded(data)
    }

    open spec fn save_due(s: Mmc1State) -> bool {
        s.save_dirty
    }

    open spec fn after_save(s: Mmc1State) -> Mmc1State {
        Mmc1State { save_dirty: false, ..s }
    }

    fn save_data(&self) -> (bytes: Option<&[u8]>) {
        if self.battery {
            Some(self.prg_ram.as_slice())
        } else {
            None
        }
    }

    fn load_save_data(&mut self, data: &[u8]) {
        if self.battery {
            reload(&mut self.prg_ram, data);
        }
    }

    fn save_dirty(&self) -> (dirty: bool) {
        self.save_dirty
    }

    fn mark_saved(&mut self) {
        self.save_dirty = false;
    }

    open spec fn captures(s: Mmc1State, state: Option<MapperState>) -> bool {
        match state {
            Some(MapperState::Mmc1(snap)) => s.captured(snap),
            _ => false,
        }
    }

    open spec fn after_apply(s: Mmc1State, state: MapperState) -> Option<Mmc1State> {
        match state {
            MapperState::Mmc1(snap) => Some(s.restored(snap)),
            _ => None,
        }
    }

    fn save_state_capture(&self) -> (state: Option<MapperState>) {
        Some(MapperState::Mmc1(Mmc1Snap {
            prg_ram: copied(&self.prg_ram),
            chr_ram_data: copy_if_ram(self.chr_ram, &self.chr),
            shift: self.shift,
            shift_count: self.shift_count,
            control: self.control,
            chr_bank_0: self.chr_bank_0,
            chr_bank_1: self.chr_bank_1,
            prg_bank: self.prg_bank,
            mirroring: MirroringSnap::from_live(self.mirroring),
            cycle_counter: self.cycle_counter,
            last_write_cycle: self.last_write_cycle,
            save_dirty: self.save_dirty,
        }))
    }

    fn save_state_apply(&mut self, state: &MapperState) -> (result: Result<(), SaveStateError>) {
        match state {
            MapperState::Mmc1(snap) => {
                reload(&mut self.prg_ram, snap.prg_ram.as_slice());
                restore_if_ram(self.chr_ram, &mut self.chr, &snap.chr_ram_data);
                self.shift = snap.shift;
                self.shift_count = snap.shift_count;
                self.control = snap.control;
                self.chr_bank_0 = snap.chr_bank_0;
                self.chr_bank_1 = snap.chr_bank_1;
                self.prg_bank = snap.prg_bank;
                self.mirroring = snap.mirroring.to_live();
                self.cycle_counter = snap.cycle_counter;
                self.last_write_cycle = snap.last_write_cycle;
                self.save_dirty = snap.save_dirty;
                Ok(())
            }
            _ => Err(SaveStateError::UnsupportedMapper(0)),
        }
    }

    fn ppu_nametable_read(&mut self, slot: u8, offset: u16) -> (source: NametableSource) {
        NametableSource::Default
    }

    fn ppu_nametable_write(&mut self, slot: u8, offset: u16, data: u8) -> (target: NametableWriteTarget) {
        NametableWriteTarget::Default
    }

    fn on_ppu_addr(&mut self, addr: u16, ppu_cycle: u64, kind: PpuFetchKind) {
    }
}

/// A snapshot brings back the board it was taken from, whatever happened to it since.
pub proof fn lemma_mmc1_round_trip(
    s: Mmc1State,
    later: Mmc1State,
    state: MapperState,
)
    requires
        Mmc1::ok(s),
        Mmc1::ok(later),
        s.same_cart(later),
        Mmc1::captures(s, Some(state)),
    ensures
        Mmc1::snapshot_ok(later, state),
        Mmc1::after_apply(later, state) == Some(s),
{
}

/// No write changes the cart's ROM.
pub proof fn lemma_mmc1_rom_is_read_only(s: Mmc1State, addr: u16, data: u8)
    ensures
        Mmc1::after_cpu_write(s, addr, data).prg_rom == s.prg_rom,
        Mmc1::after_ppu_write(s, addr, data).prg_rom == s.prg_rom,
        !s.chr_ram ==> Mmc1::after_ppu_write(s, addr, data).chr == s.chr,
{
}

/// Pattern RAM gives back what was stored.
pub proof fn lemma_mmc1_pattern_ram(s: Mmc1State, addr: u16, data: u8)
    requires
        Mmc1::ok(s),
        s.chr_ram,
        addr < 0x2000,
        0 <= s.chr_index(addr) < s.chr.len(),
    ensures
        ({
            let after = Mmc1::after_ppu_write(s, addr, data);
            Mmc1::ppu_byte(after, addr) == data
        }),
{
}

/// Work RAM gives back what was stored; a battery save is due exactly when a byte changed.
pub proof fn lemma_mmc1_work_ram(s: Mmc1State, addr: u16, data: u8)
    requires
        Mmc1::ok(s),
        0x6000 <= addr < 0x8000,
        addr - 0x6000 < s.prg_ram.len(),
    ensures
        ({
            let after = Mmc1::after_cpu_write(s, addr, data);
            let changed = Mmc1::cpu_byte(s, addr) != data;
            &&& Mmc1::cpu_byte(after, addr) == data
            &&& !Mmc1::save_due(s) ==> Mmc1::save_due(after) == (s.battery && changed)
        }),
{
}

/// A save of one cart loaded into another of the same size brings the RAM over; a save of another
/// size changes nothing. Once saved, no save is due.
pub proof fn lemma_mmc1_save_round_trip(s: Mmc1State, fresh: Mmc1State, other: Seq<u8>)
    requires
        s.battery,
        fresh.battery,
        fresh.prg_ram.len() == s.prg_ram.len(),
        other.len() != s.prg_ram.len(),
    ensures
        Mmc1::battery_bytes(Mmc1::after_load(fresh, s.prg_ram)) == Mmc1::battery_bytes(s),
        Mmc1::after_load(s, other) == s,
        !Mmc1::save_due(Mmc1::after_save(s)),
{
}

/// Five writes with bit 7 clear load the register of the last address with their bits 0, the first
/// one lowest.
pub proof fn lemma_mmc1_serial_load(s: Mmc1State, addr: u16, value: u8)
    requires
        s.shift_count == 0,
        s.shift < 32,
        value < 32,
    ensures
        s.fed(addr, value).fed(addr, value >> 1).fed(addr, value >> 2).fed(addr, value >> 3).fed(addr, value >> 4)
            == (Mmc1State { shift: 0x10, shift_count: 0, ..s.committed(addr, value) }),
{
    lemma_five_shifts(s.shift, value);
    lemma_small_bits(value);
}

/// The bits of a five-bit number leave bit 7 clear.
pub proof fn lemma_small_bits(value: u8)
    by (bit_vector)
    requires
        value < 32,
    ensures
        value & 0x80 == 0,
        (value >> 1) & 0x80 == 0,
        (value >> 2) & 0x80 == 0,
        (value >> 3) & 0x80 == 0,
        (value >> 4) & 0x80 == 0,
        value & 0x1F == value,
{
}

/// A write with bit 7 set empties the shift register and selects PRG mode 3.
pub proof fn lemma_mmc1_reset_write(s: Mmc1State, addr: u16, data: u8)
    requires
        data & 0x80 != 0,
    ensures
        s.fed(addr, data).shift_count == 0,
        s.fed(addr, data).mode() == 3,
{
    let control = s.control;
    assert((control | 0x0C) / 4 % 4 == 3) by (bit_vector);
}

/// Of two writes on successive cycles the second changes nothing.
pub proof fn lemma_mmc1_drops_second_write(s: Mmc1State, addr: u16, first: u8, again: u16, second: u8)
    requires
        addr >= 0x8000,
        again >= 0x8000,
        !s.too_soon(),
    ensures
        ({
            let next = Mmc1::after_cpu_cycle(Mmc1::after_cpu_write(s, addr, first));
            Mmc1::after_cpu_write(next, again, second) == next
        }),
{
}

} // verus!
