//! Jaleco JF-17 and JF-19 (iNES mappers 72 and 92).
//!
//! One latch at `$8000-$FFFF`, masked by the ROM byte under the write:
//!
//! ```text
//! PCSS BBBB
//! |||| ++++- bank
//! ||++------ speech chip, not modelled
//! |+-------- going from 0 to 1 makes it the 8 KiB CHR bank
//! +--------- going from 0 to 1 makes it the 16 KiB PRG bank
//! ```
//!
//! JF-17 has the PRG bank at `$8000-$BFFF` and the last bank at `$C000-$FFFF`; JF-19 has bank 0 at
//! `$8000-$BFFF` and the PRG bank at `$C000-$FFFF`. Mirroring is soldered.
use vstd::prelude::*;

use crate::mapper::{Mapper, NametableSource, NametableWriteTarget, PpuFetchKind};
use crate::mem::{
    bank_count, byte_at, chr_image, copy_if_ram, count_banks, has_chr_ram, in_bank, poke, poked,
    ram_copy, ram_restored, read_at, restore_if_ram, take_chr, wrapped_offset,
};
use crate::rom::{Cartridge, Mirroring};
use crate::save_state::mapper::{JalecoJf17Snap, MapperState};
use crate::save_state::SaveStateError;

verus! {

#[derive(Debug, Clone, Copy, PartialEq, Eq, Structural)]
pub enum PrgWiring {
    SwitchableLow,
    SwitchableHigh,
}

pub struct JalecoJf17 {
    pub prg_rom: Vec<u8>,
    pub chr: Vec<u8>,
    pub chr_ram: bool,
    pub wiring: PrgWiring,
    pub prg_bank: u8,
    pub chr_bank: u8,
    /// Bit 7 of the last value latched.
    pub prev_prg_gate: bool,
    /// Bit 6 of the last value latched.
    pub prev_chr_gate: bool,
    pub mirroring: Mirroring,
    pub prg_bank_count_16k: usize,
    pub chr_bank_count_8k: usize,
}

/// The state of an [`JalecoJf17`] board.
#[verifier::ext_equal]
pub struct JalecoJf17State {
    pub prg_rom: Seq<u8>,
    pub chr: Seq<u8>,
    pub chr_ram: bool,
    pub wiring: PrgWiring,
    pub prg_bank: u8,
    pub chr_bank: u8,
    pub prev_prg_gate: bool,
    pub prev_chr_gate: bool,
    pub mirroring: Mirroring,
    pub prg_bank_count_16k: usize,
    pub chr_bank_count_8k: usize,
}

impl View for JalecoJf17 {
    type V = JalecoJf17State;

    open spec fn view(&self) -> JalecoJf17State {
        JalecoJf17State {
            prg_rom: self.prg_rom@,
            chr: self.chr@,
            chr_ram: self.chr_ram,
            wiring: self.wiring,
            prg_bank: self.prg_bank,
            chr_bank: self.chr_bank,
            prev_prg_gate: self.prev_prg_gate,
            prev_chr_gate: self.prev_chr_gate,
            mirroring: self.mirroring,
            prg_bank_count_16k: self.prg_bank_count_16k,
            chr_bank_count_8k: self.chr_bank_count_8k,
        }
    }
}

impl JalecoJf17State {
    pub open spec fn power_on(cart: Cartridge, wiring: PrgWiring) -> JalecoJf17State {
        JalecoJf17State {
            prg_rom: cart.prg_rom@,
            chr: chr_image(cart, 0x2000),
            chr_ram: has_chr_ram(cart),
            wiring,
            prg_bank: 0,
            chr_bank: 0,
            prev_prg_gate: false,
            prev_chr_gate: false,
            mirroring: cart.mirroring,
            prg_bank_count_16k: bank_count(cart.prg_rom@.len(), 0x4000) as usize,
            chr_bank_count_8k: bank_count(chr_image(cart, 0x2000).len(), 0x2000) as usize,
        }
    }

    pub open spec fn switches_high(self) -> bool {
        self.wiring == PrgWiring::SwitchableHigh
    }

    pub open spec fn prg_index(self, addr: u16) -> int {
        let bank = if self.switches_high() == (addr >= 0xC000) {
            self.prg_bank as int
        } else if self.switches_high() {
            0
        } else {
            self.prg_bank_count_16k - 1
        };
        in_bank(bank % self.prg_bank_count_16k as int, 0x4000, addr as int)
    }

    pub open spec fn chr_index(self, addr: u16) -> int {
        in_bank(self.chr_bank as int % self.chr_bank_count_8k as int, 0x2000, addr as int)
    }

    /// The board with `value` latched: each bank is taken on the rising edge of its gate.
    pub open spec fn latched(self, value: u8) -> JalecoJf17State {
        let prg_gate = value & 0x80 != 0;
        let chr_gate = value & 0x40 != 0;
        JalecoJf17State {
            prg_bank: if prg_gate && !self.prev_prg_gate { value & 0x0F } else { self.prg_bank },
            chr_bank: if chr_gate && !self.prev_chr_gate { value & 0x0F } else { self.chr_bank },
            prev_prg_gate: prg_gate,
            prev_chr_gate: chr_gate,
            ..self
        }
    }

    /// Whether `snap` was taken in this state.
    pub open spec fn captured(self, snap: JalecoJf17Snap) -> bool {
        &&& snap.chr_ram_data@ == ram_copy(self.chr_ram, self.chr)
        &&& snap.prg_bank == self.prg_bank
        &&& snap.chr_bank == self.chr_bank
        &&& snap.prev_prg_gate == self.prev_prg_gate
        &&& snap.prev_chr_gate == self.prev_chr_gate
        &&& snap.switchable_high == self.switches_high()
    }

    /// Whether `snap` is of this variant of the board.
    pub open spec fn accepts(self, snap: JalecoJf17Snap) -> bool {
        snap.switchable_high == self.switches_high()
    }

    /// The board with what `snap` holds.
    pub open spec fn restored(self, snap: JalecoJf17Snap) -> JalecoJf17State {
        JalecoJf17State {
            chr: ram_restored(self.chr_ram, self.chr, snap.chr_ram_data@),
            prg_bank: snap.prg_bank,
            chr_bank: snap.chr_bank,
            prev_prg_gate: snap.prev_prg_gate,
            prev_chr_gate: snap.prev_chr_gate,
            ..self
        }
    }

    /// Whether `other` is the same cart, at another time.
    pub open spec fn same_cart(self, other: JalecoJf17State) -> bool {
        &&& self.chr_ram ==> other.chr.len() == self.chr.len()
        &&& !self.chr_ram ==> other.chr == self.chr
        &&& other.prg_rom == self.prg_rom
        &&& other.chr_ram == self.chr_ram
        &&& other.wiring == self.wiring
        &&& other.mirroring == self.mirroring
        &&& other.prg_bank_count_16k == self.prg_bank_count_16k
        &&& other.chr_bank_count_8k == self.chr_bank_count_8k
    }
}

impl JalecoJf17 {
    /// Mapper 72.
    pub fn new_72(cart: Cartridge) -> (m: Self)
        ensures
            Self::ok(m@),
            m@ == JalecoJf17State::power_on(cart, PrgWiring::SwitchableLow),
    {
        JalecoJf17::new(cart, PrgWiring::SwitchableLow)
    }

    /// Mapper 92.
    pub fn new_92(cart: Cartridge) -> (m: Self)
        ensures
            Self::ok(m@),
            m@ == JalecoJf17State::power_on(cart, PrgWiring::SwitchableHigh),
    {
        JalecoJf17::new(cart, PrgWiring::SwitchableHigh)
    }

    fn new(cart: Cartridge, wiring: PrgWiring) -> (m: Self)
        ensures
            Self::ok(m@),
            m@ == JalecoJf17State::power_on(cart, wiring),
    {
        let (chr, chr_ram): (Vec<u8>, bool) = take_chr(cart.chr_rom, cart.chr_ram, 0x2000);
        JalecoJf17 {
            prg_bank_count_16k: count_banks(&cart.prg_rom, 0x4000),
            chr_bank_count_8k: count_banks(&chr, 0x2000),
            prg_rom: cart.prg_rom,
            chr,
            chr_ram,
            wiring,
            prg_bank: 0,
            chr_bank: 0,
            prev_prg_gate: false,
            prev_chr_gate: false,
            mirroring: cart.mirroring,
        }
    }

    fn switches_high_now(&self) -> (yes: bool)
        ensures
            yes == self@.switches_high(),
    {
        self.wiring == PrgWiring::SwitchableHigh
    }

    fn prg_slot_bank(&self, high: bool) -> (bank: usize)
        requires
            Self::ok(self@),
        ensures
            bank == (if self@.switches_high() == high {
                self@.prg_bank as int
            } else if self@.switches_high() {
                0
            } else {
                self@.prg_bank_count_16k - 1
            }),
    {
        match self.wiring {
            PrgWiring::SwitchableLow => if high { self.prg_bank_count_16k - 1 } else { self.prg_bank as usize },
            PrgWiring::SwitchableHigh => if high { self.prg_bank as usize } else { 0 },
        }
    }

    fn cpu_prg_byte(&self, addr: u16) -> (byte: u8)
        requires
            Self::ok(self@),
            addr >= 0x8000,
        ensures
            byte == Self::cpu_byte(self@, addr),
    {
        let bank: usize = self.prg_slot_bank(addr >= 0xC000);
        read_at(&self.prg_rom, wrapped_offset(&self.prg_rom, self.prg_bank_count_16k, bank, 0x4000, addr))
    }

    fn map_chr(&self, addr: u16) -> (i: usize)
        requires
            Self::ok(self@),
        ensures
            i == self@.chr_index(addr),
    {
        wrapped_offset(&self.chr, self.chr_bank_count_8k, self.chr_bank as usize, 0x2000, addr)
    }
}

impl Mapper for JalecoJf17 {
    open spec fn ok(s: JalecoJf17State) -> bool {
        &&& s.prg_bank_count_16k == bank_count(s.prg_rom.len(), 0x4000)
        &&& s.chr_bank_count_8k == bank_count(s.chr.len(), 0x2000)
    }

    open spec fn cpu_byte(s: JalecoJf17State, addr: u16) -> u8 {
        if addr >= 0x8000 {
            byte_at(s.prg_rom, s.prg_index(addr))
        } else {
            0
        }
    }

    open spec fn after_cpu_write(s: JalecoJf17State, addr: u16, data: u8) -> JalecoJf17State {
        if addr >= 0x8000 {
            s.latched(data & Self::cpu_byte(s, addr))
        } else {
            s
        }
    }

    open spec fn ppu_byte(s: JalecoJf17State, addr: u16) -> u8 {
        if addr < 0x2000 {
            byte_at(s.chr, s.chr_index(addr))
        } else {
            0
        }
    }

    open spec fn after_ppu_write(s: JalecoJf17State, addr: u16, data: u8) -> JalecoJf17State {
        if s.chr_ram && addr < 0x2000 {
            JalecoJf17State { chr: poked(s.chr, s.chr_index(addr), data), ..s }
        } else {
            s
        }
    }

    fn cpu_read(&mut self, addr: u16) -> (byte: u8) {
        self.cpu_peek(addr)
    }

    fn cpu_peek(&self, addr: u16) -> (byte: u8) {
        if addr < 0x8000 {
            return 0;
        }
        self.cpu_prg_byte(addr)
    }

    fn cpu_write(&mut self, addr: u16, data: u8) {
        if addr < 0x8000 {
            return;
        }
        let value: u8 = data & self.cpu_prg_byte(addr);
        let prg_gate: bool = (value & 0x80) != 0;
        let chr_gate: bool = (value & 0x40) != 0;
        if prg_gate && !self.prev_prg_gate {
            self.prg_bank = value & 0x0F;
        }
        if chr_gate && !self.prev_chr_gate {
            self.chr_bank = value & 0x0F;
        }
        self.prev_prg_gate = prg_gate;
        self.prev_chr_gate = chr_gate;
    }

    fn ppu_read(&mut self, addr: u16) -> (byte: u8) {
        if addr < 0x2000 {
            read_at(&self.chr, self.map_chr(addr))
        } else {
            0
        }
    }

    fn ppu_write(&mut self, addr: u16, data: u8) {
        if self.chr_ram && addr < 0x2000 {
            let i: usize = self.map_chr(addr);
            poke(&mut self.chr, i, data);
        }
    }

    open spec fn mirrored(s: JalecoJf17State) -> Mirroring {
        s.mirroring
    }

    fn mirroring(&self) -> (mode: Mirroring) {
        self.mirroring
    }

    fn cpu_read_ex(&mut self, addr: u16) -> (byte: Option<u8>) {
        None
    }

    fn on_cpu_cycle(&mut self) {
    }

    fn irq_line(&self) -> (asserted: bool) {
        false
    }

    open spec fn captures(s: JalecoJf17State, state: Option<MapperState>) -> bool {
        match state {
            Some(MapperState::JalecoJf17(snap)) => s.captured(snap),
            _ => false,
        }
    }

    open spec fn after_apply(s: JalecoJf17State, state: MapperState) -> Option<JalecoJf17State> {
        match state {
            MapperState::JalecoJf17(snap) => if s.accepts(snap) {
                Some(s.restored(snap))
            } else {
                None
            },
            _ => None,
        }
    }

    fn save_state_capture(&self) -> (state: Option<MapperState>) {
        Some(MapperState::JalecoJf17(JalecoJf17Snap {
            chr_ram_data: copy_if_ram(self.chr_ram, &self.chr),
            prg_bank: self.prg_bank,
            chr_bank: self.chr_bank,
            prev_prg_gate: self.prev_prg_gate,
            prev_chr_gate: self.prev_chr_gate,
            switchable_high: self.switches_high_now(),
        }))
    }

    fn save_state_apply(&mut self, state: &MapperState) -> (result: Result<(), SaveStateError>) {
        match state {
            MapperState::JalecoJf17(snap) => {
                if snap.switchable_high != self.switches_high_now() {
                    return Err(SaveStateError::UnsupportedMapper(0));
                }
                restore_if_ram(self.chr_ram, &mut self.chr, &snap.chr_ram_data);
                self.prg_bank = snap.prg_bank;
                self.chr_bank = snap.chr_bank;
                self.prev_prg_gate = snap.prev_prg_gate;
                self.prev_chr_gate = snap.prev_chr_gate;
                Ok(())
            }
            _ => Err(SaveStateError::UnsupportedMapper(0)),
        }
    }

    fn ppu_nametable_read(&mut self, slot: u8, offset: u16) -> (source: NametableSource) {
        NametableSource::Default
    }

    fn ppu_nametable_write(&mut self, slot: u8, offset: u16, data: u8) -> (target: NametableWriteTarget) {
        NametableWriteTarget::Default
    }

    fn on_ppu_addr(&mut self, addr: u16, ppu_cycle: u64, kind: PpuFetchKind) {
    }

    fn save_data(&self) -> (bytes: Option<&[u8]>) {
        None
    }

    fn load_save_data(&mut self, data: &[u8]) {
    }

    fn save_dirty(&self) -> (dirty: bool) {
        false
    }

    fn mark_saved(&mut self) {
    }
}

/// A snapshot brings back the board it was taken from, whatever happened to it since.
pub proof fn lemma_jaleco_jf17_round_trip(
    s: JalecoJf17State,
    later: JalecoJf17State,
    state: MapperState,
)
    requires
        JalecoJf17::ok(s),
        JalecoJf17::ok(later),
        s.same_cart(later),
        JalecoJf17::captures(s, Some(state)),
    ensures
        JalecoJf17::snapshot_ok(later, state),
        JalecoJf17::after_apply(later, state) == Some(s),
{
}

/// No write changes the mirroring.
pub proof fn lemma_jaleco_jf17_mirroring_is_fixed(s: JalecoJf17State, addr: u16, data: u8)
    ensures
        ({
            let written = JalecoJf17::after_cpu_write(s, addr, data);
            let drawn = JalecoJf17::after_ppu_write(s, addr, data);
            JalecoJf17::mirrored(written) == JalecoJf17::mirrored(s) && JalecoJf17::mirrored(drawn) == JalecoJf17::mirrored(s)
        }),
{
}

/// No write changes the cart's ROM.
pub proof fn lemma_jaleco_jf17_rom_is_read_only(s: JalecoJf17State, addr: u16, data: u8)
    ensures
        JalecoJf17::after_cpu_write(s, addr, data).prg_rom == s.prg_rom,
        JalecoJf17::after_ppu_write(s, addr, data).prg_rom == s.prg_rom,
        !s.chr_ram ==> JalecoJf17::after_ppu_write(s, addr, data).chr == s.chr,
{
}

/// Pattern RAM gives back what was stored.
pub proof fn lemma_jaleco_jf17_pattern_ram(s: JalecoJf17State, addr: u16, data: u8)
    requires
        JalecoJf17::ok(s),
        s.chr_ram,
        addr < 0x2000,
        0 <= s.chr_index(addr) < s.chr.len(),
    ensures
        ({
            let after = JalecoJf17::after_ppu_write(s, addr, data);
            JalecoJf17::ppu_byte(after, addr) == data
        }),
{
}

/// A gate that is held high keeps its bank.
pub proof fn lemma_held_gates_keep_banks(s: JalecoJf17State, addr: u16, data: u8)
    ensures
        s.prev_prg_gate ==> JalecoJf17::after_cpu_write(s, addr, data).prg_bank == s.prg_bank,
        s.prev_chr_gate ==> JalecoJf17::after_cpu_write(s, addr, data).chr_bank == s.chr_bank,
{
}

/// No write moves the fixed bank, wherever the board has it.
pub proof fn lemma_jf17_fixed_bank(s: JalecoJf17State, addr: u16, data: u8, read: u16)
    requires
        read >= 0x8000,
        s.switches_high() == (read < 0xC000),
    ensures
        JalecoJf17::cpu_byte(JalecoJf17::after_cpu_write(s, addr, data), read) == JalecoJf17::cpu_byte(s, read),
{
}

} // verus!
