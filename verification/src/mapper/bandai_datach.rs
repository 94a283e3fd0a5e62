//! Bandai Datach Joint ROM System (iNES mapper 157).
//!
//! An LZ93D50 with pattern RAM, a 24C02 EEPROM in the base unit that all carts share, and on one
//! cart a 24C01 besides. Registers are at `$8000-$FFFF`, selected by the low four address bits:
//!
//! | register | effect |
//! |---|---|
//! | 0-3 | bit 3: clock of the 24C01 |
//! | 8 | 16 KiB PRG bank at `$8000-$BFFF`; `$C000-$FFFF` has the last bank |
//! | 9 | mirroring: vertical, horizontal, single-screen lower, upper |
//! | A | IRQ enable in bit 0; acknowledges and copies the latch to the counter |
//! | B, C | low and high byte of the latch |
//! | D | bit 5: clock of the 24C02; bit 6: data of both |
//!
//! Bit 4 of a read at `$6000-$7FFF` is the data line, low when either chip pulls it. The barcode
//! reader in the other bits reads as zero. A save is the 24C02's 256 bytes, followed by the
//! 24C01's 128 where there is one.
use vstd::prelude::*;

use crate::mapper::bandai_fcg::{mirroring_of, select_mirroring};
use crate::mapper::eeprom_24c0x::{
    eeprom_snap_fits, lemma_eeprom_round_trip, Eeprom24C0X, EepromChip, EepromState,
};
use crate::mapper::{after_cycles, Mapper, NametableSource, NametableWriteTarget, PpuFetchKind};
use crate::mem::{
    bank_count, bank_offset, byte_at, copied, count_banks, in_bank, poke, poked, read_at, reload,
    reloaded, set_high_byte, set_low_byte, slice_copy, with_high_byte, with_low_byte,
    wrapped_offset, zeroed, zeros,
};
use crate::rom::{Cartridge, Mirroring};
use crate::save_state::mapper::{BandaiDatachSnap, EepromSnap, MapperState};
use crate::save_state::{MirroringSnap, SaveStateError};

verus! {

pub struct BandaiDatach {
    pub prg_rom: Vec<u8>,
    pub chr_ram: Vec<u8>,
    pub mirroring: Mirroring,
    pub prg_bank_count_16k: usize,
    pub prg_bank: u8,
    pub irq_enabled: bool,
    pub irq_counter: u16,
    pub irq_reload: u16,
    pub irq_line: bool,
    /// The base unit's chip.
    pub standard_eeprom: Eeprom24C0X,
    /// The cart's own chip.
    pub extra_eeprom: Option<Eeprom24C0X>,
    /// Both chips' bytes, side by side.
    pub save_buf: Vec<u8>,
    pub save_dirty: bool,
}

/// The state of an [`BandaiDatach`] board.
#[verifier::ext_equal]
pub struct BandaiDatachState {
    pub prg_rom: Seq<u8>,
    pub chr_ram: Seq<u8>,
    pub mirroring: Mirroring,
    pub prg_bank_count_16k: usize,
    pub prg_bank: u8,
    pub irq_enabled: bool,
    pub irq_counter: u16,
    pub irq_reload: u16,
    pub irq_line: bool,
    pub standard_eeprom: EepromState,
    pub extra_eeprom: Option<EepromState>,
    pub save_buf: Seq<u8>,
    pub save_dirty: bool,
}

impl View for BandaiDatach {
    type V = BandaiDatachState;

    open spec fn view(&self) -> BandaiDatachState {
        BandaiDatachState {
            prg_rom: self.prg_rom@,
            chr_ram: self.chr_ram@,
            mirroring: self.mirroring,
            prg_bank_count_16k: self.prg_bank_count_16k,
            prg_bank: self.prg_bank,
            irq_enabled: self.irq_enabled,
            irq_counter: self.irq_counter,
            irq_reload: self.irq_reload,
            irq_line: self.irq_line,
            standard_eeprom: self.standard_eeprom@,
            extra_eeprom: match self.extra_eeprom {
                Some(chip) => Some(chip@),
                None => None,
            },
            save_buf: self.save_buf@,
            save_dirty: self.save_dirty,
        }
    }
}

impl BandaiDatachState {
    pub open spec fn power_on(cart: Cartridge) -> BandaiDatachState {
        BandaiDatachState {
            prg_rom: cart.prg_rom@,
            chr_ram: zeros(0x2000),
            mirroring: cart.mirroring,
            prg_bank_count_16k: bank_count(cart.prg_rom@.len(), 0x4000) as usize,
            prg_bank: 0,
            irq_enabled: false,
            irq_counter: 0,
            irq_reload: 0,
            irq_line: false,
            standard_eeprom: EepromState::power_on(EepromChip::C24C02),
            extra_eeprom: if cart.prg_nvram_size == 128 {
                Some(EepromState::power_on(EepromChip::C24C01))
            } else {
                None
            },
            save_buf: zeros(if cart.prg_nvram_size == 128 { 384 } else { 256 }),
            save_dirty: false,
        }
    }

    pub open spec fn prg_index(self, addr: u16) -> int {
        if addr < 0xC000 {
            in_bank(self.prg_bank as int % self.prg_bank_count_16k as int, 0x4000, addr as int)
        } else {
            in_bank(self.prg_bank_count_16k - 1, 0x4000, addr as int)
        }
    }

    pub open spec fn chr_index(self, addr: u16) -> int {
        addr as int
    }

    /// The level of the shared data line.
    pub open spec fn data_line(self) -> u8 {
        (self.standard_eeprom.output & 1) & (match self.extra_eeprom {
            Some(chip) => chip.output & 1,
            None => 1,
        })
    }

    /// The invariant, apart from the save buffer.
    pub open spec fn chips_ok(self) -> bool {
        &&& self.prg_bank_count_16k == bank_count(self.prg_rom.len(), 0x4000)
        &&& self.standard_eeprom.ok()
        &&& self.standard_eeprom.chip == EepromChip::C24C02
        &&& match self.extra_eeprom {
            Some(chip) => chip.ok() && chip.chip == EepromChip::C24C01,
            None => true,
        }
    }

    /// Both chips' bytes.
    pub open spec fn stored(self) -> Seq<u8> {
        match self.extra_eeprom {
            Some(chip) => self.standard_eeprom.bytes + chip.bytes,
            None => self.standard_eeprom.bytes,
        }
    }

    /// The save buffer brought up to date.
    pub open spec fn buffered(self) -> BandaiDatachState {
        BandaiDatachState { save_buf: self.stored(), ..self }
    }

    /// The board after a write to register `reg`.
    pub open spec fn wrote_register(self, reg: int, data: u8) -> BandaiDatachState {
        if reg < 4 {
            match self.extra_eeprom {
                Some(chip) => (BandaiDatachState {
                    extra_eeprom: Some(chip.wrote((data >> 3) & 1, chip.prev_sda)),
                    save_dirty: true,
                    ..self
                }).buffered(),
                None => self,
            }
        } else if reg == 8 {
            BandaiDatachState { prg_bank: data & 0x0F, ..self }
        } else if reg == 9 {
            BandaiDatachState { mirroring: mirroring_of(data), ..self }
        } else if reg == 0xA {
            BandaiDatachState {
                irq_enabled: data & 0x01 != 0,
                irq_counter: self.irq_reload,
                irq_line: false,
                ..self
            }
        } else if reg == 0xB {
            BandaiDatachState { irq_reload: with_low_byte(self.irq_reload, data), ..self }
        } else if reg == 0xC {
            BandaiDatachState { irq_reload: with_high_byte(self.irq_reload, data), ..self }
        } else if reg == 0xD {
            (BandaiDatachState {
                standard_eeprom: self.standard_eeprom.wrote((data >> 5) & 1, (data >> 6) & 1),
                extra_eeprom: match self.extra_eeprom {
                    Some(chip) => Some(chip.wrote(chip.prev_scl, (data >> 6) & 1)),
                    None => None,
                },
                save_dirty: true,
                ..self
            }).buffered()
        } else {
            self
        }
    }

    /// The board with a save loaded, 256 bytes for the base unit or 384 for both chips; data of
    /// any other length is ignored.
    pub open spec fn loaded(self, data: Seq<u8>) -> BandaiDatachState {
        let filled = if data.len() == 256 || data.len() == 384 {
            BandaiDatachState {
                standard_eeprom: EepromState { bytes: data.take(256), ..self.standard_eeprom },
                extra_eeprom: match self.extra_eeprom {
                    Some(chip) => if data.len() == 384 {
                        Some(EepromState { bytes: data.skip(256), ..chip })
                    } else {
                        Some(chip)
                    },
                    None => None,
                },
                ..self
            }
        } else {
            self
        };
        filled.buffered()
    }

    /// Whether `snap` was taken in this state.
    pub open spec fn captured(self, snap: BandaiDatachSnap) -> bool {
        &&& snap.chr_ram@ == self.chr_ram
        &&& snap.mirroring == MirroringSnap::of(self.mirroring)
        &&& snap.prg_bank == self.prg_bank
        &&& snap.irq_enabled == self.irq_enabled
        &&& snap.irq_counter == self.irq_counter
        &&& snap.irq_reload == self.irq_reload
        &&& snap.irq_line == self.irq_line
        &&& self.standard_eeprom.captured(snap.standard_eeprom)
        &&& match (self.extra_eeprom, snap.extra_eeprom) {
            (Some(chip), Some(taken)) => chip.captured(taken),
            (None, None) => true,
            _ => false,
        }
        &&& snap.save_dirty == self.save_dirty
    }

    /// The board with what `snap` holds, and the save buffer brought up to date. A chip that one
    /// of the two lacks is left as it is.
    pub open spec fn restored(self, snap: BandaiDatachSnap) -> BandaiDatachState {
        (BandaiDatachState {
            chr_ram: reloaded(self.chr_ram, snap.chr_ram@),
            mirroring: snap.mirroring.live(),
            prg_bank: snap.prg_bank,
            irq_enabled: snap.irq_enabled,
            irq_counter: snap.irq_counter,
            irq_reload: snap.irq_reload,
            irq_line: snap.irq_line,
            standard_eeprom: self.standard_eeprom.restored(snap.standard_eeprom),
            extra_eeprom: match (self.extra_eeprom, snap.extra_eeprom) {
                (Some(chip), Some(taken)) => Some(chip.restored(taken)),
                _ => self.extra_eeprom,
            },
            save_dirty: snap.save_dirty,
            ..self
        }).buffered()
    }
}

impl BandaiDatach {
    pub fn new(cart: Cartridge) -> (m: Self)
        ensures
            Self::ok(m@),
            m@ == BandaiDatachState::power_on(cart),
    {
        let extra: Option<Eeprom24C0X> = if cart.prg_nvram_size == 128 {
            Some(Eeprom24C0X::new(EepromChip::C24C01))
        } else {
            None
        };
        let save_buf: Vec<u8> = zeroed(if cart.prg_nvram_size == 128 { 384 } else { 256 });
        let m: BandaiDatach = BandaiDatach {
            prg_bank_count_16k: count_banks(&cart.prg_rom, 0x4000),
            prg_rom: cart.prg_rom,
            chr_ram: zeroed(0x2000),
            mirroring: cart.mirroring,
            prg_bank: 0,
            irq_enabled: false,
            irq_counter: 0,
            irq_reload: 0,
            irq_line: false,
            standard_eeprom: Eeprom24C0X::new(EepromChip::C24C02),
            extra_eeprom: extra,
            save_buf,
            save_dirty: false,
        };
        assert(m@.save_buf =~= m@.stored());
        m
    }

    fn map_prg(&self, addr: u16) -> (i: usize)
        requires
            Self::ok(self@),
        ensures
            i == self@.prg_index(addr),
    {
        if addr < 0xC000 {
            wrapped_offset(&self.prg_rom, self.prg_bank_count_16k, self.prg_bank as usize, 0x4000, addr)
        } else {
            bank_offset(&self.prg_rom, self.prg_bank_count_16k, self.prg_bank_count_16k - 1, 0x4000, addr)
        }
    }

    fn map_chr(&self, addr: u16) -> (i: usize)
        ensures
            i == self@.chr_index(addr),
    {
        addr as usize
    }

    fn shared_data_line(&self) -> (level: u8)
        ensures
            level == self@.data_line(),
    {
        let standard_sda: u8 = self.standard_eeprom.read() & 1;
        let extra_sda: u8 = match &self.extra_eeprom {
            Some(chip) => chip.read() & 1,
            None => 1,
        };
        standard_sda & extra_sda
    }

    fn write_extra_clock(&mut self, data: u8)
        requires
            Self::ok(old(self)@),
        ensures
            Self::ok(final(self)@),
            final(self)@ == old(self)@.wrote_register(0, data),
    {
        match &mut self.extra_eeprom {
            Some(chip) => {
                chip.write_scl((data >> 3) & 1);
                self.save_dirty = true;
            }
            None => {
                return;
            }
        }
        self.refresh_save_buf();
    }

    fn write_pins(&mut self, data: u8)
        requires
            Self::ok(old(self)@),
        ensures
            Self::ok(final(self)@),
            final(self)@ == old(self)@.wrote_register(0xD, data),
    {
        let scl: u8 = (data >> 5) & 1;
        let sda: u8 = (data >> 6) & 1;
        self.standard_eeprom.write(scl, sda);
        match &mut self.extra_eeprom {
            Some(chip) => chip.write_sda(sda),
            None => {}
        }
        self.save_dirty = true;
        self.refresh_save_buf();
    }

    fn write_register(&mut self, addr: u16, data: u8)
        requires
            Self::ok(old(self)@),
        ensures
            Self::ok(final(self)@),
            final(self)@ == old(self)@.wrote_register(addr as int % 16, data),
    {
        match addr % 16 {
            0x0..=0x3 => self.write_extra_clock(data),
            0x8 => {
                self.prg_bank = data & 0x0F;
            }
            0x9 => {
                self.mirroring = select_mirroring(data);
            }
            0xA => {
                self.irq_enabled = (data & 0x01) != 0;
                self.irq_counter = self.irq_reload;
                self.irq_line = false;
            }
            0xB => {
                self.irq_reload = set_low_byte(self.irq_reload, data);
            }
            0xC => {
                self.irq_reload = set_high_byte(self.irq_reload, data);
            }
            0xD => self.write_pins(data),
            _ => {}
        }
    }

    /// Brings the save buffer up to date.
    pub fn refresh_save_buf(&mut self)
        requires
            old(self)@.chips_ok(),
        ensures
            Self::ok(final(self)@),
            final(self)@ == old(self)@.buffered(),
    {
        let mut buf: Vec<u8> = slice_copy(self.standard_eeprom.bytes());
        match &self.extra_eeprom {
            Some(chip) => {
                let mut tail: Vec<u8> = slice_copy(chip.bytes());
                buf.append(&mut tail);
            }
            None => {}
        }
        assert(buf@ =~= self@.stored());
        self.save_buf = buf;
    }

    fn load_extra(&mut self, data: &Vec<u8>)
        requires
            old(self)@.chips_ok(),
            data@.len() == 128,
        ensures
            final(self)@.chips_ok(),
            final(self)@ == (BandaiDatachState {
                extra_eeprom: match old(self)@.extra_eeprom {
                    Some(chip) => Some(EepromState { bytes: data@, ..chip }),
                    None => None,
                },
                ..old(self)@
            }),
    {
        match &mut self.extra_eeprom {
            Some(chip) => chip.load(data.as_slice()),
            None => {}
        }
    }

    fn apply_extra(&mut self, snap: &Option<EepromSnap>)
        requires
            old(self)@.chips_ok(),
            match (old(self)@.extra_eeprom, *snap) {
                (Some(_), Some(taken)) => eeprom_snap_fits(EepromChip::C24C01, taken),
                _ => true,
            },
        ensures
            final(self)@.chips_ok(),
            final(self)@ == (BandaiDatachState {
                extra_eeprom: match (old(self)@.extra_eeprom, *snap) {
                    (Some(chip), Some(taken)) => Some(chip.restored(taken)),
                    _ => old(self)@.extra_eeprom,
                },
                ..old(self)@
            }),
    {
        match snap {
            Some(taken) => {
                match &mut self.extra_eeprom {
                    Some(chip) => chip.save_state_apply(taken),
                    None => {}
                }
            }
            None => {}
        }
    }
}

impl Mapper for BandaiDatach {
    open spec fn ok(s: BandaiDatachState) -> bool {
        s.chips_ok() && s.save_buf == s.stored()
    }

    open spec fn cpu_byte(s: BandaiDatachState, addr: u16) -> u8 {
        if addr >= 0x8000 {
            byte_at(s.prg_rom, s.prg_index(addr))
        } else if addr >= 0x6000 {
            s.data_line() << 4
        } else {
            0
        }
    }

    open spec fn after_cpu_write(s: BandaiDatachState, addr: u16, data: u8) -> BandaiDatachState {
        if addr >= 0x8000 {
            s.wrote_register(addr as int % 16, data)
        } else {
            s
        }
    }

    open spec fn ppu_byte(s: BandaiDatachState, addr: u16) -> u8 {
        if addr < 0x2000 {
            byte_at(s.chr_ram, s.chr_index(addr))
        } else {
            0
        }
    }

    open spec fn after_ppu_write(s: BandaiDatachState, addr: u16, data: u8) -> BandaiDatachState {
        if addr < 0x2000 {
            BandaiDatachState { chr_ram: poked(s.chr_ram, s.chr_index(addr), data), ..s }
        } else {
            s
        }
    }

    open spec fn after_cpu_cycle(s: BandaiDatachState) -> BandaiDatachState {
        if s.irq_enabled {
            BandaiDatachState {
                irq_line: s.irq_line || s.irq_counter == 0,
                irq_counter: if s.irq_counter == 0 { 0xFFFF } else { (s.irq_counter - 1) as u16 },
                ..s
            }
        } else {
            s
        }
    }

    open spec fn irq(s: BandaiDatachState) -> bool {
        s.irq_line
    }

    open spec fn snapshot_ok(s: BandaiDatachState, state: MapperState) -> bool {
        match state {
            MapperState::BandaiDatach(snap) => {
                &&& eeprom_snap_fits(EepromChip::C24C02, snap.standard_eeprom)
                &&& match (s.extra_eeprom, snap.extra_eeprom) {
                    (Some(_), Some(taken)) => eeprom_snap_fits(EepromChip::C24C01, taken),
                    _ => true,
                }
            },
            _ => true,
        }
    }

    fn cpu_read(&mut self, addr: u16) -> (byte: u8) {
        self.cpu_peek(addr)
    }

    fn cpu_peek(&self, addr: u16) -> (byte: u8) {
        match addr {
            0x6000..=0x7FFF => self.shared_data_line() << 4,
            0x8000..=0xFFFF => read_at(&self.prg_rom, self.map_prg(addr)),
            _ => 0,
        }
    }

    fn cpu_write(&mut self, addr: u16, data: u8) {
        if addr >= 0x8000 {
            self.write_register(addr, data);
        }
    }

    fn ppu_read(&mut self, addr: u16) -> (byte: u8) {
        if addr < 0x2000 {
            read_at(&self.chr_ram, self.map_chr(addr))
        } else {
            0
        }
    }

    fn ppu_write(&mut self, addr: u16, data: u8) {
        if addr < 0x2000 {
            let i: usize = self.map_chr(addr);
            poke(&mut self.chr_ram, i, data);
        }
    }

    open spec fn mirrored(s: BandaiDatachState) -> Mirroring {
        s.mirroring
    }

    fn mirroring(&self) -> (mode: Mirroring) {
        self.mirroring
    }

    fn cpu_read_ex(&mut self, addr: u16) -> (byte: Option<u8>) {
        None
    }

    fn on_cpu_cycle(&mut self) {
        if !self.irq_enabled {
            return;
        }
        if self.irq_counter == 0 {
            self.irq_line = true;
        }
        self.irq_counter = self.irq_counter.wrapping_sub(1);
    }

    fn irq_line(&self) -> (asserted: bool) {
        self.irq_line
    }

    /// The chips' bytes as they are now.
    open spec fn battery_bytes(s: BandaiDatachState) -> Option<Seq<u8>> {
        Some(s.stored())
    }

    open spec fn after_load(s: BandaiDatachState, data: Seq<u8>) -> BandaiDatachState {
        s.loaded(data)
    }

    open spec fn save_due(s: BandaiDatachState) -> bool {
        s.save_dirty
    }

    open spec fn after_save(s: BandaiDatachState) -> BandaiDatachState {
        BandaiDatachState { save_dirty: false, ..s }
    }

    open spec fn captures(s: BandaiDatachState, state: Option<MapperState>) -> bool {
        match state {
            Some(MapperState::BandaiDatach(snap)) => s.captured(snap),
            _ => false,
        }
    }

    open spec fn after_apply(s: BandaiDatachState, state: MapperState) -> Option<BandaiDatachState> {
        match state {
            MapperState::BandaiDatach(snap) => Some(s.restored(snap)),
            _ => None,
        }
    }

    fn save_data(&self) -> (bytes: Option<&[u8]>) {
        Some(self.save_buf.as_slice())
    }

    fn load_save_data(&mut self, data: &[u8]) {
        let n: usize = data.len();
        if n == 256 || n == 384 {
            let mut head: Vec<u8> = slice_copy(data);
            let tail: Vec<u8> = head.split_off(256);
            assert(head@ =~= data@.take(256));
            assert(tail@ =~= data@.skip(256));
            self.standard_eeprom.load(head.as_slice());
            if n == 384 {
                self.load_extra(&tail);
            }
        }
        self.refresh_save_buf();
    }

    fn save_dirty(&self) -> (dirty: bool) {
        self.save_dirty
    }

    fn mark_saved(&mut self) {
        self.save_dirty = false;
    }

    fn save_state_capture(&self) -> (state: Option<MapperState>) {
        let extra: Option<EepromSnap> = match &self.extra_eeprom {
            Some(chip) => Some(chip.save_state_capture()),
            None => None,
        };
        Some(MapperState::BandaiDatach(BandaiDatachSnap {
            chr_ram: copied(&self.chr_ram),
            mirroring: MirroringSnap::from_live(self.mirroring),
            prg_bank: self.prg_bank,
            irq_enabled: self.irq_enabled,
            irq_counter: self.irq_counter,
            irq_reload: self.irq_reload,
            irq_line: self.irq_line,
            standard_eeprom: self.standard_eeprom.save_state_capture(),
            extra_eeprom: extra,
            save_dirty: self.save_dirty,
        }))
    }

    fn save_state_apply(&mut self, state: &MapperState) -> (result: Result<(), SaveStateError>) {
        match state {
            MapperState::BandaiDatach(snap) => {
                reload(&mut self.chr_ram, snap.chr_ram.as_slice());
                self.mirroring = snap.mirroring.to_live();
                self.prg_bank = snap.prg_bank;
                self.irq_enabled = snap.irq_enabled;
                self.irq_counter = snap.irq_counter;
                self.irq_reload = snap.irq_reload;
                self.irq_line = snap.irq_line;
                self.standard_eeprom.save_state_apply(&snap.standard_eeprom);
                self.apply_extra(&snap.extra_eeprom);
                self.save_dirty = snap.save_dirty;
                self.refresh_save_buf();
                Ok(())
            }
            _ => Err(SaveStateError::UnsupportedMapper(0)),
        }
    }

    fn ppu_nametable_read(&mut self, slot: u8, offset: u16) -> (source: NametableSource) {
        NametableSource::Default
    }

    fn ppu_nametable_write(&mut self, slot: u8, offset: u16, data: u8) -> (target: NametableWriteTarget) {
        NametableWriteTarget::Default
    }

    fn on_ppu_addr(&mut self, addr: u16, ppu_cycle: u64, kind: PpuFetchKind) {
    }
}

/// A snapshot brings back the board it was taken from, whatever happened to it since.
pub proof fn lemma_bandai_datach_round_trip(s: BandaiDatachState, later: BandaiDatachState, state: MapperState)
    requires
        BandaiDatach::ok(s),
        BandaiDatach::ok(later),
        later.prg_rom == s.prg_rom,
        later.prg_bank_count_16k == s.prg_bank_count_16k,
        later.chr_ram.len() == s.chr_ram.len(),
        later.extra_eeprom is Some == s.extra_eeprom is Some,
        BandaiDatach::captures(s, Some(state)),
    ensures
        BandaiDatach::snapshot_ok(later, state),
        BandaiDatach::after_apply(later, state) == Some(s),
{
    let snap = state->BandaiDatach_0;
    lemma_eeprom_round_trip(s.standard_eeprom, later.standard_eeprom, snap.standard_eeprom);
    if s.extra_eeprom is Some {
        lemma_eeprom_round_trip(s.extra_eeprom->Some_0, later.extra_eeprom->Some_0, snap.extra_eeprom->Some_0);
    }
}

/// No write changes the cart's ROM.
pub proof fn lemma_bandai_datach_rom_is_read_only(s: BandaiDatachState, addr: u16, data: u8)
    ensures
        BandaiDatach::after_cpu_write(s, addr, data).prg_rom == s.prg_rom,
        BandaiDatach::after_ppu_write(s, addr, data).prg_rom == s.prg_rom,
{
}

/// No write moves the bank at `$C000-$FFFF`.
pub proof fn lemma_bandai_datach_fixed_bank(s: BandaiDatachState, addr: u16, data: u8, read: u16)
    requires
        BandaiDatach::ok(s),
        read >= 0xC000,
    ensures
        ({
            let after = BandaiDatach::after_cpu_write(s, addr, data);
            BandaiDatach::cpu_byte(after, read) == BandaiDatach::cpu_byte(s, read)
        }),
{
}

/// Pattern RAM gives back what was stored.
pub proof fn lemma_bandai_datach_pattern_ram(s: BandaiDatachState, addr: u16, data: u8)
    requires
        BandaiDatach::ok(s),
        addr < 0x2000,
        0 <= s.chr_index(addr) < s.chr_ram.len(),
    ensures
        ({
            let after = BandaiDatach::after_ppu_write(s, addr, data);
            BandaiDatach::ppu_byte(after, addr) == data
        }),
{
}

/// What is saved of one board and loaded into another with the same chips is what that one saves.
pub proof fn lemma_datach_save_round_trip(s: BandaiDatachState, fresh: BandaiDatachState)
    requires
        BandaiDatach::ok(s),
        BandaiDatach::ok(fresh),
        s.extra_eeprom is Some == fresh.extra_eeprom is Some,
    ensures
        BandaiDatach::battery_bytes(s) is Some,
        ({
            let saved = BandaiDatach::battery_bytes(s)->Some_0;
            &&& saved.len() == (if s.extra_eeprom is Some { 384int } else { 256 })
            &&& BandaiDatach::battery_bytes(BandaiDatach::after_load(fresh, saved)) == Some(saved)
        }),
{
    let data = s.stored();
    let t = fresh.loaded(data);
    assert(t.stored() =~= data);
}

/// A fresh board saves zeros, and what a board saves are its chips' bytes, the base unit's first.
pub proof fn lemma_datach_saves_its_chips(cart: Cartridge, s: BandaiDatachState)
    ensures
        BandaiDatach::battery_bytes(BandaiDatachState::power_on(cart)) == Some(
            zeros(if cart.prg_nvram_size == 128 { 384 } else { 256 }),
        ),
        BandaiDatach::battery_bytes(s) == Some(
            s.standard_eeprom.bytes + (match s.extra_eeprom {
                Some(chip) => chip.bytes,
                None => Seq::empty(),
            }),
        ),
{
    let fresh = BandaiDatachState::power_on(cart);
    assert(fresh.stored() =~= zeros(if cart.prg_nvram_size == 128 { 384 } else { 256 }));
    assert(s.standard_eeprom.bytes + Seq::<u8>::empty() =~= s.standard_eeprom.bytes);
}

/// An enabled counter at `n` raises the interrupt in its cycle `n + 1`, and not before.
pub proof fn lemma_datach_irq_timing(s: BandaiDatachState, n: nat)
    requires
        s.irq_enabled,
        !s.irq_line,
    ensures
        n <= s.irq_counter ==> after_cycles::<BandaiDatach>(s, n) == (BandaiDatachState {
            irq_counter: (s.irq_counter - n) as u16,
            ..s
        }),
        n == s.irq_counter + 1 ==> BandaiDatach::irq(after_cycles::<BandaiDatach>(s, n)),
    decreases n,
{
    if n > 0 {
        lemma_datach_irq_timing(s, (n - 1) as nat);
    }
}

} // verus!
