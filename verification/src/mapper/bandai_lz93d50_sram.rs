//! Bandai LZ93D50 with battery-backed RAM (iNES mapper 153).
//!
//! The board has RAM at `$6000-$7FFF` and pattern RAM, and the CHR registers are wired to the PRG
//! side: their bits 0 together select one of two 256 KiB halves. Registers are at `$8000-$FFFF`,
//! selected by the low four address bits:
//!
//! | register | effect |
//! |---|---|
//! | 0-7 | bit 0: upper half, if set in any of them |
//! | 8 | 16 KiB bank of the half at `$8000-$BFFF`; `$C000-$FFFF` has the half's last bank |
//! | 9 | mirroring: vertical, horizontal, single-screen lower, upper |
//! | A | IRQ enable in bit 0; acknowledges and copies the latch to the counter |
//! | B, C | low and high byte of the latch |
//! | D | bit 5: RAM enable |
use vstd::prelude::*;

use crate::mapper::bandai_fcg::{mirroring_of, select_mirroring};
use crate::mapper::{after_cycles, Mapper, NametableSource, NametableWriteTarget, PpuFetchKind};
use crate::mem::{
    bank_count, byte_at, copied, count_banks, dirtied, in_bank, poke, poke_ram, poked, ram_fits,
    ram_size, read_at, reload, reloaded, set_high_byte, set_low_byte, with_high_byte, with_low_byte,
    work_ram, wrapped_offset, zeroed, zeros,
};
use crate::rom::{Cartridge, Mirroring};
use crate::save_state::mapper::{BandaiLz93d50SramSnap, MapperState};
use crate::save_state::{MirroringSnap, SaveStateError};

verus! {

pub struct BandaiLz93d50Sram {
    pub prg_rom: Vec<u8>,
    pub chr_ram: Vec<u8>,
    pub prg_ram: Vec<u8>,
    pub chr_regs: [u8; 8],
    pub prg_page: u8,
    /// The half of PRG-ROM.
    pub prg_outer: u8,
    pub mirroring: Mirroring,
    pub irq_counter: u16,
    pub irq_reload: u16,
    pub irq_enabled: bool,
    pub irq_line: bool,
    pub prg_ram_enabled: bool,
    pub prg_bank_count_16k: usize,
    pub save_dirty: bool,
}

/// The state of an [`BandaiLz93d50Sram`] board.
#[verifier::ext_equal]
pub struct BandaiLz93d50SramState {
    pub prg_rom: Seq<u8>,
    pub chr_ram: Seq<u8>,
    pub prg_ram: Seq<u8>,
    pub chr_regs: Seq<u8>,
    pub prg_page: u8,
    pub prg_outer: u8,
    pub mirroring: Mirroring,
    pub irq_counter: u16,
    pub irq_reload: u16,
    pub irq_enabled: bool,
    pub irq_line: bool,
    pub prg_ram_enabled: bool,
    pub prg_bank_count_16k: usize,
    pub save_dirty: bool,
}

impl View for BandaiLz93d50Sram {
    type V = BandaiLz93d50SramState;

    open spec fn view(&self) -> BandaiLz93d50SramState {
        BandaiLz93d50SramState {
            prg_rom: self.prg_rom@,
            chr_ram: self.chr_ram@,
            prg_ram: self.prg_ram@,
            chr_regs: self.chr_regs@,
            prg_page: self.prg_page,
            prg_outer: self.prg_outer,
            mirroring: self.mirroring,
            irq_counter: self.irq_counter,
            irq_reload: self.irq_reload,
            irq_enabled: self.irq_enabled,
            irq_line: self.irq_line,
            prg_ram_enabled: self.prg_ram_enabled,
            prg_bank_count_16k: self.prg_bank_count_16k,
            save_dirty: self.save_dirty,
        }
    }
}

/// Whether bit 0 is set in one of the registers.
pub open spec fn any_low_bit(regs: Seq<u8>) -> bool {
    exists|i: int| 0 <= i < regs.len() && #[trigger] regs[i] & 0x01 != 0
}

impl BandaiLz93d50SramState {
    pub open spec fn power_on(cart: Cartridge) -> BandaiLz93d50SramState {
        BandaiLz93d50SramState {
            prg_rom: cart.prg_rom@,
            chr_ram: zeros(0x2000),
            prg_ram: zeros(ram_size(cart, 0x2000)),
            chr_regs: zeros(8),
            prg_page: 0,
            prg_outer: 0,
            mirroring: cart.mirroring,
            irq_counter: 0,
            irq_reload: 0,
            irq_enabled: false,
            irq_line: false,
            prg_ram_enabled: true,
            prg_bank_count_16k: bank_count(cart.prg_rom@.len(), 0x4000) as usize,
            save_dirty: false,
        }
    }

    pub open spec fn prg_index(self, addr: u16) -> int {
        let page = if addr < 0xC000 {
            self.prg_page as usize
        } else {
            0x0F
        };
        let bank = (page | ((self.prg_outer as usize) << 4)) as int;
        in_bank(bank % self.prg_bank_count_16k as int, 0x4000, addr as int)
    }

    pub open spec fn chr_index(self, addr: u16) -> int {
        addr as int
    }

    /// The board after a write to register `reg`.
    pub open spec fn wrote_register(self, reg: int, data: u8) -> BandaiLz93d50SramState {
        if reg < 8 {
            let regs = self.chr_regs.update(reg, data);
            BandaiLz93d50SramState {
                chr_regs: regs,
                prg_outer: if any_low_bit(regs) { 1 } else { 0 },
                ..self
            }
        } else if reg == 8 {
            BandaiLz93d50SramState { prg_page: data & 0x0F, ..self }
        } else if reg == 9 {
            BandaiLz93d50SramState { mirroring: mirroring_of(data), ..self }
        } else if reg == 0xA {
            BandaiLz93d50SramState {
                irq_enabled: data & 0x01 != 0,
                irq_counter: self.irq_reload,
                irq_line: false,
                ..self
            }
        } else if reg == 0xB {
            BandaiLz93d50SramState { irq_reload: with_low_byte(self.irq_reload, data), ..self }
        } else if reg == 0xC {
            BandaiLz93d50SramState { irq_reload: with_high_byte(self.irq_reload, data), ..self }
        } else if reg == 0xD {
            BandaiLz93d50SramState { prg_ram_enabled: data & 0x20 != 0, ..self }
        } else {
            self
        }
    }

    /// The board with battery RAM from a save; data of another length is ignored.
    pub open spec fn loaded(self, data: Seq<u8>) -> BandaiLz93d50SramState {
        BandaiLz93d50SramState { prg_ram: reloaded(self.prg_ram, data), ..self }
    }

    /// Whether `snap` was taken in this state.
    pub open spec fn captured(self, snap: BandaiLz93d50SramSnap) -> bool {
        &&& snap.prg_ram@ == self.prg_ram
        &&& snap.chr_ram_data@ == self.chr_ram
        &&& snap.chr_regs@ == self.chr_regs
        &&& snap.prg_page == self.prg_page
        &&& snap.prg_outer == self.prg_outer
        &&& snap.mirroring == MirroringSnap::of(self.mirroring)
        &&& snap.irq_counter == self.irq_counter
        &&& snap.irq_reload == self.irq_reload
        &&& snap.irq_enabled == self.irq_enabled
        &&& snap.irq_line == self.irq_line
        &&& snap.prg_ram_enabled == self.prg_ram_enabled
        &&& snap.save_dirty == self.save_dirty
    }

    /// The board with what `snap` holds.
    pub open spec fn restored(self, snap: BandaiLz93d50SramSnap) -> BandaiLz93d50SramState {
        BandaiLz93d50SramState {
            prg_ram: reloaded(self.prg_ram, snap.prg_ram@),
            chr_ram: reloaded(self.chr_ram, snap.chr_ram_data@),
            chr_regs: snap.chr_regs@,
            prg_page: snap.prg_page,
            prg_outer: snap.prg_outer,
            mirroring: snap.mirroring.live(),
            irq_counter: snap.irq_counter,
            irq_reload: snap.irq_reload,
            irq_enabled: snap.irq_enabled,
            irq_line: snap.irq_line,
            prg_ram_enabled: snap.prg_ram_enabled,
            save_dirty: snap.save_dirty,
            ..self
        }
    }

    /// Whether `other` is the same cart, at another time.
    pub open spec fn same_cart(self, other: BandaiLz93d50SramState) -> bool {
        &&& other.prg_ram.len() == self.prg_ram.len()
        &&& other.chr_ram.len() == self.chr_ram.len()
        &&& other.prg_rom == self.prg_rom
        &&& other.prg_bank_count_16k == self.prg_bank_count_16k
    }
}

impl BandaiLz93d50Sram {
    pub fn new(cart: Cartridge) -> (m: Self)
        requires
            ram_fits(cart),
        ensures
            Self::ok(m@),
            m@ == BandaiLz93d50SramState::power_on(cart),
    {
        let m: BandaiLz93d50Sram = BandaiLz93d50Sram {
            prg_bank_count_16k: count_banks(&cart.prg_rom, 0x4000),
            prg_rom: cart.prg_rom,
            chr_ram: zeroed(0x2000),
            prg_ram: work_ram(cart.prg_ram_size, cart.prg_nvram_size, 0x2000),
            chr_regs: [0; 8],
            prg_page: 0,
            prg_outer: 0,
            mirroring: cart.mirroring,
            irq_counter: 0,
            irq_reload: 0,
            irq_enabled: false,
            irq_line: false,
            prg_ram_enabled: true,
            save_dirty: false,
        };
        assert(m@.chr_regs =~= zeros(8));
        m
    }

    fn recompute_outer(&mut self)
        requires
            Self::ok(old(self)@),
        ensures
            Self::ok(final(self)@),
            final(self)@ == (BandaiLz93d50SramState {
                prg_outer: if any_low_bit(old(self)@.chr_regs) { 1 } else { 0 },
                ..old(self)@
            }),
    {
        let mut bit: u8 = 0;
        let mut i: usize = 0;
        while i < 8
            invariant
                i <= 8,
                self@ == old(self)@,
                Self::ok(self@),
                bit == 1 ==> any_low_bit(self@.chr_regs),
                bit == 0 || bit == 1,
                bit == 0 ==> forall|j: int| 0 <= j < i ==> #[trigger] self@.chr_regs[j] & 0x01 == 0,
            decreases 8 - i,
        {
            if self.chr_regs[i] & 0x01 != 0 {
                assert(self@.chr_regs[i as int] & 0x01 != 0);
                bit = 1;
            }
            i = i + 1;
        }
        self.prg_outer = bit;
    }

    fn map_prg(&self, addr: u16) -> (i: usize)
        requires
            Self::ok(self@),
        ensures
            i == self@.prg_index(addr),
    {
        let page: usize = if addr < 0xC000 { self.prg_page as usize } else { 0x0F };
        let bank: usize = page | ((self.prg_outer as usize) << 4);
        wrapped_offset(&self.prg_rom, self.prg_bank_count_16k, bank, 0x4000, addr)
    }

    fn map_chr(&self, addr: u16) -> (i: usize)
        ensures
            i == self@.chr_index(addr),
    {
        addr as usize
    }

    fn write_register(&mut self, addr: u16, data: u8)
        requires
            Self::ok(old(self)@),
        ensures
            Self::ok(final(self)@),
            final(self)@ == old(self)@.wrote_register(addr as int % 16, data),
    {
        let reg: u16 = addr % 16;
        match reg {
            0x0..=0x7 => {
                self.chr_regs[reg as usize] = data;
                self.recompute_outer();
            }
            0x8 => {
                self.prg_page = data & 0x0F;
            }
            0x9 => {
                self.mirroring = select_mirroring(data);
            }
            0xA => {
                self.irq_enabled = data & 0x01 != 0;
                self.irq_counter = self.irq_reload;
                self.irq_line = false;
            }
            0xB => {
                self.irq_reload = set_low_byte(self.irq_reload, data);
            }
            0xC => {
                self.irq_reload = set_high_byte(self.irq_reload, data);
            }
            0xD => {
                self.prg_ram_enabled = data & 0x20 != 0;
            }
            _ => {}
        }
    }
}

impl Mapper for BandaiLz93d50Sram {
    open spec fn ok(s: BandaiLz93d50SramState) -> bool {
        &&& s.prg_bank_count_16k == bank_count(s.prg_rom.len(), 0x4000)
        &&& s.chr_regs.len() == 8
    }

    open spec fn cpu_byte(s: BandaiLz93d50SramState, addr: u16) -> u8 {
        if addr >= 0x8000 {
            byte_at(s.prg_rom, s.prg_index(addr))
        } else if addr >= 0x6000 && s.prg_ram_enabled {
            byte_at(s.prg_ram, addr - 0x6000)
        } else {
            0
        }
    }

    open spec fn after_cpu_write(s: BandaiLz93d50SramState, addr: u16, data: u8) -> BandaiLz93d50SramState {
        if addr >= 0x8000 {
            s.wrote_register(addr as int % 16, data)
        } else if addr >= 0x6000 && s.prg_ram_enabled {
            BandaiLz93d50SramState {
                prg_ram: poked(s.prg_ram, addr - 0x6000, data),
                save_dirty: dirtied(s.prg_ram, true, s.save_dirty, addr - 0x6000, data),
                ..s
            }
        } else {
            s
        }
    }

    open spec fn ppu_byte(s: BandaiLz93d50SramState, addr: u16) -> u8 {
        if addr < 0x2000 {
            byte_at(s.chr_ram, s.chr_index(addr))
        } else {
            0
        }
    }

    open spec fn after_ppu_write(s: BandaiLz93d50SramState, addr: u16, data: u8) -> BandaiLz93d50SramState {
        if addr < 0x2000 {
            BandaiLz93d50SramState { chr_ram: poked(s.chr_ram, s.chr_index(addr), data), ..s }
        } else {
            s
        }
    }

    open spec fn after_cpu_cycle(s: BandaiLz93d50SramState) -> BandaiLz93d50SramState {
        if s.irq_enabled {
            BandaiLz93d50SramState {
                irq_line: s.irq_line || s.irq_counter == 0,
                irq_counter: if s.irq_counter == 0 { 0xFFFF } else { (s.irq_counter - 1) as u16 },
                ..s
            }
        } else {
            s
        }
    }

    open spec fn irq(s: BandaiLz93d50SramState) -> bool {
        s.irq_line
    }

    fn cpu_read(&mut self, addr: u16) -> (byte: u8) {
        self.cpu_peek(addr)
    }

    fn cpu_peek(&self, addr: u16) -> (byte: u8) {
        match addr {
            0x6000..=0x7FFF => {
                if self.prg_ram_enabled {
                    read_at(&self.prg_ram, (addr - 0x6000) as usize)
                } else {
                    0
                }
            }
            0x8000..=0xFFFF => read_at(&self.prg_rom, self.map_prg(addr)),
            _ => 0,
        }
    }

    fn cpu_write(&mut self, addr: u16, data: u8) {
        match addr {
            0x6000..=0x7FFF => {
                if self.prg_ram_enabled {
                    poke_ram(&mut self.prg_ram, &mut self.save_dirty, true, (addr - 0x6000) as usize, data);
                }
            }
            0x8000..=0xFFFF => self.write_register(addr, data),
            _ => {}
        }
    }

    fn ppu_read(&mut self, addr: u16) -> (byte: u8) {
        if addr < 0x2000 {
            read_at(&self.chr_ram, self.map_chr(addr))
        } else {
            0
        }
    }

    fn ppu_write(&mut self, addr: u16, data: u8) {
        if addr < 0x2000 {
            let i: usize = self.map_chr(addr);
            poke(&mut self.chr_ram, i, data);
        }
    }

    open spec fn mirrored(s: BandaiLz93d50SramState) -> Mirroring {
        s.mirroring
    }

    fn mirroring(&self) -> (mode: Mirroring) {
        self.mirroring
    }

    fn cpu_read_ex(&mut self, addr: u16) -> (byte: Option<u8>) {
        None
    }

    fn on_cpu_cycle(&mut self) {
        if self.irq_enabled {
            if self.irq_counter == 0 {
                self.irq_line = true;
            }
            self.irq_counter = self.irq_counter.wrapping_sub(1);
        }
    }

    fn irq_line(&self) -> (asserted: bool) {
        self.irq_line
    }

    open spec fn battery_bytes(s: BandaiLz93d50SramState) -> Option<Seq<u8>> {
        Some(s.prg_ram)
    }

    open spec fn after_load(s: BandaiLz93d50SramState, data: Seq<u8>) -> BandaiLz93d50SramState {
        s.loaded(data)
    }

    open spec fn save_due(s: BandaiLz93d50SramState) -> bool {
        s.save_dirty
    }

    open spec fn after_save(s: BandaiLz93d50SramState) -> BandaiLz93d50SramState {
        BandaiLz93d50SramState { save_dirty: false, ..s }
    }

    fn save_data(&self) -> (bytes: Option<&[u8]>) {
        Some(self.prg_ram.as_slice())
    }

    fn load_save_data(&mut self, data: &[u8]) {
        reload(&mut self.prg_ram, data);
    }

    fn save_dirty(&self) -> (dirty: bool) {
        self.save_dirty
    }

    fn mark_saved(&mut self) {
        self.save_dirty = false;
    }

    open spec fn captures(s: BandaiLz93d50SramState, state: Option<MapperState>) -> bool {
        match state {
            Some(MapperState::BandaiLz93d50Sram(snap)) => s.captured(snap),
            _ => false,
        }
    }

    open spec fn after_apply(s: BandaiLz93d50SramState, state: MapperState) -> Option<BandaiLz93d50SramState> {
        match state {
            MapperState::BandaiLz93d50Sram(snap) => Some(s.restored(snap)),
            _ => None,
        }
    }

    fn save_state_capture(&self) -> (state: Option<MapperState>) {
        Some(MapperState::BandaiLz93d50Sram(BandaiLz93d50SramSnap {
            prg_ram: copied(&self.prg_ram),
            chr_ram_data: copied(&self.chr_ram),
            chr_regs: self.chr_regs,
            prg_page: self.prg_page,
            prg_outer: self.prg_outer,
            mirroring: MirroringSnap::from_live(self.mirroring),
            irq_counter: self.irq_counter,
            irq_reload: self.irq_reload,
            irq_enabled: self.irq_enabled,
            irq_line: self.irq_line,
            prg_ram_enabled: self.prg_ram_enabled,
            save_dirty: self.save_dirty,
        }))
    }

    fn save_state_apply(&mut self, state: &MapperState) -> (result: Result<(), SaveStateError>) {
        match state {
            MapperState::BandaiLz93d50Sram(snap) => {
                reload(&mut self.prg_ram, snap.prg_ram.as_slice());
                reload(&mut self.chr_ram, snap.chr_ram_data.as_slice());
                self.chr_regs = snap.chr_regs;
                self.prg_page = snap.prg_page;
                self.prg_outer = snap.prg_outer;
                self.mirroring = snap.mirroring.to_live();
                self.irq_counter = snap.irq_counter;
                self.irq_reload = snap.irq_reload;
                self.irq_enabled = snap.irq_enabled;
                self.irq_line = snap.irq_line;
                self.prg_ram_enabled = snap.prg_ram_enabled;
                self.save_dirty = snap.save_dirty;
                Ok(())
            }
            _ => Err(SaveStateError::UnsupportedMapper(0)),
        }
    }

    fn ppu_nametable_read(&mut self, slot: u8, offset: u16) -> (source: NametableSource) {
        NametableSource::Default
    }

    fn ppu_nametable_write(&mut self, slot: u8, offset: u16, data: u8) -> (target: NametableWriteTarget) {
        NametableWriteTarget::Default
    }

    fn on_ppu_addr(&mut self, addr: u16, ppu_cycle: u64, kind: PpuFetchKind) {
    }
}

/// A snapshot brings back the board it was taken from, whatever happened to it since.
pub proof fn lemma_bandai_lz93d50_sram_round_trip(
    s: BandaiLz93d50SramState,
    later: BandaiLz93d50SramState,
    state: MapperState,
)
    requires
        BandaiLz93d50Sram::ok(s),
        BandaiLz93d50Sram::ok(later),
        s.same_cart(later),
        BandaiLz93d50Sram::captures(s, Some(state)),
    ensures
        BandaiLz93d50Sram::snapshot_ok(later, state),
        BandaiLz93d50Sram::after_apply(later, state) == Some(s),
{
}

/// No write changes the cart's ROM.
pub proof fn lemma_bandai_lz93d50_sram_rom_is_read_only(s: BandaiLz93d50SramState, addr: u16, data: u8)
    ensures
        BandaiLz93d50Sram::after_cpu_write(s, addr, data).prg_rom == s.prg_rom,
        BandaiLz93d50Sram::after_ppu_write(s, addr, data).prg_rom == s.prg_rom,
{
}

/// Pattern RAM gives back what was stored.
pub proof fn lemma_bandai_lz93d50_sram_pattern_ram(s: BandaiLz93d50SramState, addr: u16, data: u8)
    requires
        BandaiLz93d50Sram::ok(s),
        addr < 0x2000,
        0 <= s.chr_index(addr) < s.chr_ram.len(),
    ensures
        ({
            let after = BandaiLz93d50Sram::after_ppu_write(s, addr, data);
            BandaiLz93d50Sram::ppu_byte(after, addr) == data
        }),
{
}

/// RAM gives back what was stored while it is enabled, and a save is due exactly when a byte
/// changed; disabled, it neither reads nor changes.
pub proof fn lemma_lz93d50_ram_gate(s: BandaiLz93d50SramState, addr: u16, data: u8)
    requires
        0x6000 <= addr < 0x8000,
        addr - 0x6000 < s.prg_ram.len(),
    ensures
        ({
            let after = BandaiLz93d50Sram::after_cpu_write(s, addr, data);
            let before = BandaiLz93d50Sram::cpu_byte(s, addr);
            &&& s.prg_ram_enabled ==> BandaiLz93d50Sram::cpu_byte(after, addr) == data
            &&& s.prg_ram_enabled && !s.save_dirty ==> after.save_dirty == (before != data)
            &&& !s.prg_ram_enabled ==> after == s && before == 0
        }),
{
}

/// A save of one cart loaded into another of the same size brings the RAM over.
pub proof fn lemma_lz93d50_save_round_trip(s: BandaiLz93d50SramState, fresh: BandaiLz93d50SramState)
    requires
        fresh.prg_ram.len() == s.prg_ram.len(),
    ensures
        fresh.loaded(s.prg_ram).prg_ram == s.prg_ram,
{
}

/// An enabled counter at `n` raises the interrupt in its cycle `n + 1`, and not before.
pub proof fn lemma_lz93d50_irq_timing(s: BandaiLz93d50SramState, n: nat)
    requires
        s.irq_enabled,
        !s.irq_line,
    ensures
        n <= s.irq_counter ==> after_cycles::<BandaiLz93d50Sram>(s, n) == (BandaiLz93d50SramState {
            irq_counter: (s.irq_counter - n) as u16,
            ..s
        }),
        n == s.irq_counter + 1 ==> BandaiLz93d50Sram::irq(after_cycles::<BandaiLz93d50Sram>(s, n)),
    decreases n,
{
    if n > 0 {
        lemma_lz93d50_irq_timing(s, (n - 1) as nat);
    }
}

} // verus!
