//! Bandai FCG-1, FCG-2 and LZ93D50 (iNES mappers 16 and 159).
//!
//! | board | header | registers | IRQ counter | EEPROM |
//! |---|---|---|---|---|
//! | FCG-1/2 | 16, submapper 4 | `$6000-$7FFF` | written directly | none |
//! | LZ93D50 | 16, submapper 5 | `$8000-$FFFF` | latched | by size: none, 24C01, 24C02 |
//! | LZ93D50 + 24C02 | 16, submapper 3 | `$8000-$FFFF` | latched | 24C02 |
//! | LZ93D50 + 24C01 | 159 | `$8000-$FFFF` | latched | 24C01 |
//! | not told | 16, any other | both | latched | 24C02 with a battery |
//!
//! The low four address bits select the register:
//!
//! | register | effect |
//! |---|---|
//! | 0-7 | 1 KiB CHR banks |
//! | 8 | 16 KiB PRG bank at `$8000-$BFFF`; `$C000-$FFFF` has the last bank |
//! | 9 | mirroring: vertical, horizontal, single-screen lower, upper |
//! | A | IRQ enable in bit 0; acknowledges, and copies the latch to a latched counter |
//! | B, C | low and high byte of the counter or its latch |
//! | D | EEPROM pins: bit 5 clock, bit 6 data |
//!
//! The counter is looked at before it counts: from `n` it takes `n + 1` cycles to the interrupt.
use vstd::prelude::*;
use vstd::string::StringSliceAdditionalSpecFns;

use crate::mapper::eeprom_24c0x::{Eeprom24C0X, EepromChip, EepromState};
use crate::mapper::{after_cycles, Mapper, NametableSource, NametableWriteTarget, PpuFetchKind};
use crate::mem::{
    bank_count, bank_offset, byte_at, chr_image, count_banks, has_chr_ram, in_bank, poke, poked,
    read_at, reloaded, set_high_byte, set_low_byte, take_chr, with_high_byte, with_low_byte,
    wrapped_offset, zeros,
};
use crate::rom::{Cartridge, Mirroring};
use crate::save_state::mapper::MapperState;
use crate::save_state::SaveStateError;

verus! {

#[derive(Debug, Clone, Copy, PartialEq, Eq, Structural)]
pub enum Variant {
    /// Registers at `$6000-$7FFF`, counter written directly.
    Fcg12,
    /// Registers at `$8000-$FFFF`, counter latched.
    Lz93d50,
    /// Registers in both ranges, counter latched.
    Legacy,
}

impl Variant {
    pub open spec fn latches(self) -> bool {
        self != Variant::Fcg12
    }

    pub open spec fn decodes(self, addr: u16) -> bool {
        match self {
            Variant::Fcg12 => 0x6000 <= addr < 0x8000,
            Variant::Lz93d50 => 0x8000 <= addr,
            Variant::Legacy => 0x6000 <= addr,
        }
    }

    pub fn latched_irq(self) -> (yes: bool)
        ensures
            yes == self.latches(),
    {
        match self {
            Variant::Fcg12 => false,
            _ => true,
        }
    }
}

pub struct BandaiFcg {
    pub prg_rom: Vec<u8>,
    pub chr: Vec<u8>,
    pub chr_ram: bool,
    pub mirroring: Mirroring,
    pub prg_bank_count_16k: usize,
    pub chr_bank_count_1k: usize,
    pub variant: Variant,
    pub prg_bank: u8,
    pub chr_regs: [u8; 8],
    pub irq_enabled: bool,
    pub irq_counter: u16,
    pub irq_reload: u16,
    pub irq_line: bool,
    pub eeprom: Option<Eeprom24C0X>,
    pub save_dirty: bool,
}

/// The state of an [`BandaiFcg`] board.
#[verifier::ext_equal]
pub struct BandaiFcgState {
    pub prg_rom: Seq<u8>,
    pub chr: Seq<u8>,
    pub chr_ram: bool,
    pub mirroring: Mirroring,
    pub prg_bank_count_16k: usize,
    pub chr_bank_count_1k: usize,
    pub variant: Variant,
    pub prg_bank: u8,
    pub chr_regs: Seq<u8>,
    pub irq_enabled: bool,
    pub irq_counter: u16,
    pub irq_reload: u16,
    pub irq_line: bool,
    pub eeprom: Option<EepromState>,
    pub save_dirty: bool,
}

impl View for BandaiFcg {
    type V = BandaiFcgState;

    open spec fn view(&self) -> BandaiFcgState {
        BandaiFcgState {
            prg_rom: self.prg_rom@,
            chr: self.chr@,
            chr_ram: self.chr_ram,
            mirroring: self.mirroring,
            prg_bank_count_16k: self.prg_bank_count_16k,
            chr_bank_count_1k: self.chr_bank_count_1k,
            variant: self.variant,
            prg_bank: self.prg_bank,
            chr_regs: self.chr_regs@,
            irq_enabled: self.irq_enabled,
            irq_counter: self.irq_counter,
            irq_reload: self.irq_reload,
            irq_line: self.irq_line,
            eeprom: match self.eeprom {
                Some(chip) => Some(chip@),
                None => None,
            },
            save_dirty: self.save_dirty,
        }
    }
}

/// Whether `word` occurs in `board`.
pub open spec fn mentions(board: Seq<u8>, word: Seq<u8>) -> bool {
    exists|i: int| 0 <= i <= board.len() - word.len() && #[trigger] board.subrange(i, i + word.len()) == word
}

/// The chip and register range, by the board's name where it is known and tells, else by the
/// header.
pub open spec fn variant_of(cart: Cartridge, board: Option<Seq<u8>>) -> Variant {
    if cart.mapper_id == 159 {
        Variant::Lz93d50
    } else if board is Some && (mentions(board->Some_0, "FCG-1".spec_bytes())
        || mentions(board->Some_0, "FCG-2".spec_bytes())) {
        Variant::Fcg12
    } else if board is Some && mentions(board->Some_0, "LZ93D50".spec_bytes()) {
        Variant::Lz93d50
    } else if cart.is_nes2 && (cart.submapper == 3 || cart.submapper == 5) {
        Variant::Lz93d50
    } else if cart.is_nes2 && cart.submapper == 4 {
        Variant::Fcg12
    } else {
        Variant::Legacy
    }
}

/// The EEPROM on the board, by its name where it is known and tells, else by the header.
pub open spec fn eeprom_of(cart: Cartridge, variant: Variant, board: Option<Seq<u8>>) -> Option<EepromChip> {
    if cart.mapper_id == 159 {
        Some(EepromChip::C24C01)
    } else if variant == Variant::Fcg12 {
        None
    } else if board is Some && mentions(board->Some_0, "+24C02".spec_bytes()) {
        Some(EepromChip::C24C02)
    } else if board is Some && mentions(board->Some_0, "+24C01".spec_bytes()) {
        Some(EepromChip::C24C01)
    } else if board is Some && mentions(board->Some_0, "LZ93D50".spec_bytes()) {
        None
    } else if cart.is_nes2 && cart.submapper == 3 {
        Some(EepromChip::C24C02)
    } else if cart.is_nes2 && cart.submapper == 5 {
        if cart.prg_nvram_size == 128 {
            Some(EepromChip::C24C01)
        } else if cart.prg_nvram_size == 256 {
            Some(EepromChip::C24C02)
        } else {
            None
        }
    } else if variant == Variant::Legacy && cart.battery_backed {
        Some(EepromChip::C24C02)
    } else {
        None
    }
}

/// A board name's bytes.
pub open spec fn name_bytes(board: Option<&str>) -> Option<Seq<u8>> {
    match board {
        Some(name) => Some(name.spec_bytes()),
        None => None,
    }
}

/// The mirroring that register 9 selects.
pub open spec fn mirroring_of(data: u8) -> Mirroring {
    if data % 4 == 0 {
        Mirroring::Vertical
    } else if data % 4 == 1 {
        Mirroring::Horizontal
    } else if data % 4 == 2 {
        Mirroring::SingleScreenLower
    } else {
        Mirroring::SingleScreenUpper
    }
}

pub fn select_mirroring(data: u8) -> (mode: Mirroring)
    ensures
        mode == mirroring_of(data),
{
    match data % 4 {
        0 => Mirroring::Vertical,
        1 => Mirroring::Horizontal,
        2 => Mirroring::SingleScreenLower,
        _ => Mirroring::SingleScreenUpper,
    }
}

fn occurs(board: &[u8], word: &[u8]) -> (found: bool)
    ensures
        found == mentions(board@, word@),
{
    let n: usize = word.len();
    if board.len() < n {
        return false;
    }
    let last: usize = board.len() - n;
    let mut i: usize = 0;
    loop
        invariant
            i <= last,
            n == word@.len(),
            last == board@.len() - n,
            forall|j: int| 0 <= j < i ==> #[trigger] board@.subrange(j, j + n) != word@,
        decreases last - i,
    {
        let mut k: usize = 0;
        while k < n && board[i + k] == word[k]
            invariant
                k <= n,
                n == word@.len(),
                i <= last,
                last == board@.len() - n,
                board.len() == board@.len(),
                forall|j: int| 0 <= j < k ==> board@[i + j] == word@[j],
            decreases n - k,
        {
            k = k + 1;
        }
        if k == n {
            assert(board@.subrange(i as int, i + n) =~= word@);
            return true;
        }
        assert(board@.subrange(i as int, i + n)[k as int] != word@[k as int]);
        if i == last {
            return false;
        }
        i = i + 1;
    }
}

impl BandaiFcgState {
    pub open spec fn power_on(cart: Cartridge, board: Option<Seq<u8>>) -> BandaiFcgState {
        let variant = variant_of(cart, board);
        BandaiFcgState {
            prg_rom: cart.prg_rom@,
            chr: chr_image(cart, 0x2000),
            chr_ram: has_chr_ram(cart),
            mirroring: cart.mirroring,
            prg_bank_count_16k: bank_count(cart.prg_rom@.len(), 0x4000) as usize,
            chr_bank_count_1k: bank_count(chr_image(cart, 0x2000).len(), 0x400) as usize,
            variant,
            prg_bank: 0,
            chr_regs: zeros(8),
            irq_enabled: false,
            irq_counter: 0,
            irq_reload: 0,
            irq_line: false,
            eeprom: match eeprom_of(cart, variant, board) {
                Some(chip) => Some(EepromState::power_on(chip)),
                None => None,
            },
            save_dirty: false,
        }
    }

    pub open spec fn prg_index(self, addr: u16) -> int {
        if addr < 0xC000 {
            in_bank(self.prg_bank as int % self.prg_bank_count_16k as int, 0x4000, addr as int)
        } else {
            in_bank(self.prg_bank_count_16k - 1, 0x4000, addr as int)
        }
    }

    pub open spec fn chr_index(self, addr: u16) -> int {
        in_bank(self.chr_regs[addr as int / 0x400 % 8] as int % self.chr_bank_count_1k as int, 0x400, addr as int)
    }

    /// The board after a write to register `reg`.
    pub open spec fn wrote_register(self, reg: int, data: u8) -> BandaiFcgState {
        if reg < 8 {
            BandaiFcgState { chr_regs: self.chr_regs.update(reg, data), ..self }
        } else if reg == 8 {
            BandaiFcgState { prg_bank: data & 0x0F, ..self }
        } else if reg == 9 {
            BandaiFcgState { mirroring: mirroring_of(data), ..self }
        } else if reg == 0xA {
            BandaiFcgState {
                irq_enabled: data & 0x01 != 0,
                irq_counter: if self.variant.latches() { self.irq_reload } else { self.irq_counter },
                irq_line: false,
                ..self
            }
        } else if reg == 0xB {
            if self.variant.latches() {
                BandaiFcgState { irq_reload: with_low_byte(self.irq_reload, data), ..self }
            } else {
                BandaiFcgState { irq_counter: with_low_byte(self.irq_counter, data), ..self }
            }
        } else if reg == 0xC {
            if self.variant.latches() {
                BandaiFcgState { irq_reload: with_high_byte(self.irq_reload, data), ..self }
            } else {
                BandaiFcgState { irq_counter: with_high_byte(self.irq_counter, data), ..self }
            }
        } else if reg == 0xD {
            match self.eeprom {
                Some(chip) => BandaiFcgState {
                    eeprom: Some(chip.wrote((data >> 5) & 1, (data >> 6) & 1)),
                    save_dirty: true,
                    ..self
                },
                None => self,
            }
        } else {
            self
        }
    }

    /// The board with EEPROM contents from a save; data of another length is ignored.
    pub open spec fn loaded(self, data: Seq<u8>) -> BandaiFcgState {
        match self.eeprom {
            Some(chip) => BandaiFcgState {
                eeprom: Some(EepromState { bytes: reloaded(chip.bytes, data), ..chip }),
                ..self
            },
            None => self,
        }
    }
}

impl BandaiFcg {
    /// `db_board` is the board name that a game database holds for the cart's checksum
    /// `prg_chr_crc32`, where it holds one, such as `BANDAI-LZ93D50+24C02`.
    pub fn new(cart: Cartridge, db_board: Option<&str>) -> (m: Self)
        ensures
            Self::ok(m@),
            m@ == BandaiFcgState::power_on(cart, name_bytes(db_board)),
    {
        let variant: Variant = BandaiFcg::pick_variant(&cart, db_board);
        let eeprom: Option<Eeprom24C0X> = BandaiFcg::pick_eeprom(&cart, variant, db_board);
        let (chr, chr_ram): (Vec<u8>, bool) = take_chr(cart.chr_rom, cart.chr_ram, 0x2000);
        let m: BandaiFcg = BandaiFcg {
            prg_bank_count_16k: count_banks(&cart.prg_rom, 0x4000),
            chr_bank_count_1k: count_banks(&chr, 0x400),
            prg_rom: cart.prg_rom,
            chr,
            chr_ram,
            mirroring: cart.mirroring,
            variant,
            prg_bank: 0,
            chr_regs: [0; 8],
            irq_enabled: false,
            irq_counter: 0,
            irq_reload: 0,
            irq_line: false,
            eeprom,
            save_dirty: false,
        };
        assert(m@.chr_regs =~= zeros(8));
        m
    }

    pub fn pick_variant(cart: &Cartridge, db_board: Option<&str>) -> (variant: Variant)
        ensures
            variant == variant_of(*cart, name_bytes(db_board)),
    {
        if cart.mapper_id == 159 {
            return Variant::Lz93d50;
        }
        if let Some(name) = db_board {
            if occurs(name.as_bytes(), "FCG-1".as_bytes()) || occurs(name.as_bytes(), "FCG-2".as_bytes()) {
                return Variant::Fcg12;
            }
            if occurs(name.as_bytes(), "LZ93D50".as_bytes()) {
                return Variant::Lz93d50;
            }
        }
        if cart.is_nes2 {
            return match cart.submapper {
                3 => Variant::Lz93d50,
                5 => Variant::Lz93d50,
                4 => Variant::Fcg12,
                _ => Variant::Legacy,
            };
        }
        Variant::Legacy
    }

    fn pick_chip(cart: &Cartridge, variant: Variant, db_board: Option<&str>) -> (chip: Option<EepromChip>)
        ensures
            chip == eeprom_of(*cart, variant, name_bytes(db_board)),
    {
        if cart.mapper_id == 159 {
            return Some(EepromChip::C24C01);
        }
        if variant == Variant::Fcg12 {
            return None;
        }
        if let Some(name) = db_board {
            if occurs(name.as_bytes(), "+24C02".as_bytes()) {
                return Some(EepromChip::C24C02);
            }
            if occurs(name.as_bytes(), "+24C01".as_bytes()) {
                return Some(EepromChip::C24C01);
            }
            if occurs(name.as_bytes(), "LZ93D50".as_bytes()) {
                return None;
            }
        }
        if cart.is_nes2 && cart.submapper == 3 {
            return Some(EepromChip::C24C02);
        }
        if cart.is_nes2 && cart.submapper == 5 {
            return match cart.prg_nvram_size {
                128 => Some(EepromChip::C24C01),
                256 => Some(EepromChip::C24C02),
                _ => None,
            };
        }
        if variant == Variant::Legacy && cart.battery_backed {
            return Some(EepromChip::C24C02);
        }
        None
    }

    pub fn pick_eeprom(cart: &Cartridge, variant: Variant, db_board: Option<&str>) -> (eeprom: Option<Eeprom24C0X>)
        ensures
            match (eeprom, eeprom_of(*cart, variant, name_bytes(db_board))) {
                (Some(e), Some(chip)) => e@ == EepromState::power_on(chip) && e@.ok(),
                (None, None) => true,
                _ => false,
            },
    {
        match BandaiFcg::pick_chip(cart, variant, db_board) {
            Some(chip) => Some(Eeprom24C0X::new(chip)),
            None => None,
        }
    }

    fn in_register_range(&self, addr: u16) -> (yes: bool)
        ensures
            yes == self@.variant.decodes(addr),
    {
        match self.variant {
            Variant::Fcg12 => 0x6000 <= addr && addr <= 0x7FFF,
            Variant::Lz93d50 => 0x8000 <= addr,
            Variant::Legacy => 0x6000 <= addr,
        }
    }

    fn map_prg(&self, addr: u16) -> (i: usize)
        requires
            Self::ok(self@),
        ensures
            i == self@.prg_index(addr),
    {
        if addr < 0xC000 {
            wrapped_offset(&self.prg_rom, self.prg_bank_count_16k, self.prg_bank as usize, 0x4000, addr)
        } else {
            bank_offset(&self.prg_rom, self.prg_bank_count_16k, self.prg_bank_count_16k - 1, 0x4000, addr)
        }
    }

    fn map_chr(&self, addr: u16) -> (i: usize)
        requires
            Self::ok(self@),
        ensures
            i == self@.chr_index(addr),
    {
        let bank: usize = self.chr_regs[addr as usize / 0x400 % 8] as usize;
        wrapped_offset(&self.chr, self.chr_bank_count_1k, bank, 0x400, addr)
    }

    fn write_irq(&mut self, reg: u16, data: u8)
        requires
            Self::ok(old(self)@),
            0xA <= reg <= 0xC,
        ensures
            Self::ok(final(self)@),
            final(self)@ == old(self)@.wrote_register(reg as int, data),
    {
        let latched: bool = self.variant.latched_irq();
        if reg == 0xA {
            self.irq_enabled = (data & 0x01) != 0;
            if latched {
                self.irq_counter = self.irq_reload;
            }
            self.irq_line = false;
        } else if reg == 0xB {
            if latched {
                self.irq_reload = set_low_byte(self.irq_reload, data);
            } else {
                self.irq_counter = set_low_byte(self.irq_counter, data);
            }
        } else {
            if latched {
                self.irq_reload = set_high_byte(self.irq_reload, data);
            } else {
                self.irq_counter = set_high_byte(self.irq_counter, data);
            }
        }
    }

    fn write_pins(&mut self, data: u8)
        requires
            Self::ok(old(self)@),
        ensures
            Self::ok(final(self)@),
            final(self)@ == old(self)@.wrote_register(0xD, data),
    {
        match &mut self.eeprom {
            Some(chip) => {
                chip.write((data >> 5) & 1, (data >> 6) & 1);
                self.save_dirty = true;
            }
            None => {}
        }
    }

    fn write_register(&mut self, addr: u16, data: u8)
        requires
            Self::ok(old(self)@),
        ensures
            Self::ok(final(self)@),
            final(self)@ == old(self)@.wrote_register(addr as int % 16, data),
    {
        let reg: u16 = addr % 16;
        match reg {
            0x0..=0x7 => {
                self.chr_regs[reg as usize] = data;
            }
            0x8 => {
                self.prg_bank = data & 0x0F;
            }
            0x9 => {
                self.mirroring = select_mirroring(data);
            }
            0xA..=0xC => self.write_irq(reg, data),
            0xD => self.write_pins(data),
            _ => {}
        }
    }
}

impl Mapper for BandaiFcg {
    open spec fn ok(s: BandaiFcgState) -> bool {
        &&& s.prg_bank_count_16k == bank_count(s.prg_rom.len(), 0x4000)
        &&& s.chr_bank_count_1k == bank_count(s.chr.len(), 0x400)
        &&& s.chr_regs.len() == 8
        &&& match s.eeprom {
            Some(chip) => chip.ok(),
            None => true,
        }
    }

    open spec fn cpu_byte(s: BandaiFcgState, addr: u16) -> u8 {
        if addr >= 0x8000 {
            byte_at(s.prg_rom, s.prg_index(addr))
        } else if addr >= 0x6000 {
            match s.eeprom {
                Some(chip) => (chip.output & 1) << 4,
                None => 0,
            }
        } else {
            0
        }
    }

    open spec fn after_cpu_write(s: BandaiFcgState, addr: u16, data: u8) -> BandaiFcgState {
        if s.variant.decodes(addr) {
            s.wrote_register(addr as int % 16, data)
        } else {
            s
        }
    }

    open spec fn ppu_byte(s: BandaiFcgState, addr: u16) -> u8 {
        if addr < 0x2000 {
            byte_at(s.chr, s.chr_index(addr))
        } else {
            0
        }
    }

    open spec fn after_ppu_write(s: BandaiFcgState, addr: u16, data: u8) -> BandaiFcgState {
        if s.chr_ram && addr < 0x2000 {
            BandaiFcgState { chr: poked(s.chr, s.chr_index(addr), data), ..s }
        } else {
            s
        }
    }

    open spec fn after_cpu_cycle(s: BandaiFcgState) -> BandaiFcgState {
        if s.irq_enabled {
            BandaiFcgState {
                irq_line: s.irq_line || s.irq_counter == 0,
                irq_counter: if s.irq_counter == 0 { 0xFFFF } else { (s.irq_counter - 1) as u16 },
                ..s
            }
        } else {
            s
        }
    }

    open spec fn irq(s: BandaiFcgState) -> bool {
        s.irq_line
    }

    fn cpu_read(&mut self, addr: u16) -> (byte: u8) {
        self.cpu_peek(addr)
    }

    fn cpu_peek(&self, addr: u16) -> (byte: u8) {
        match addr {
            0x6000..=0x7FFF => match &self.eeprom {
                Some(chip) => (chip.read() & 1) << 4,
                None => 0,
            },
            0x8000..=0xFFFF => read_at(&self.prg_rom, self.map_prg(addr)),
            _ => 0,
        }
    }

    fn cpu_write(&mut self, addr: u16, data: u8) {
        if self.in_register_range(addr) {
            self.write_register(addr, data);
        }
    }

    fn ppu_read(&mut self, addr: u16) -> (byte: u8) {
        if addr < 0x2000 {
            read_at(&self.chr, self.map_chr(addr))
        } else {
            0
        }
    }

    fn ppu_write(&mut self, addr: u16, data: u8) {
        if self.chr_ram && addr < 0x2000 {
            let i: usize = self.map_chr(addr);
            poke(&mut self.chr, i, data);
        }
    }

    open spec fn mirrored(s: BandaiFcgState) -> Mirroring {
        s.mirroring
    }

    fn mirroring(&self) -> (mode: Mirroring) {
        self.mirroring
    }

    fn cpu_read_ex(&mut self, addr: u16) -> (byte: Option<u8>) {
        None
    }

    fn on_cpu_cycle(&mut self) {
        if !self.irq_enabled {
            return;
        }
        if self.irq_counter == 0 {
            self.irq_line = true;
        }
        self.irq_counter = self.irq_counter.wrapping_sub(1);
    }

    fn irq_line(&self) -> (asserted: bool) {
        self.irq_line
    }

    open spec fn battery_bytes(s: BandaiFcgState) -> Option<Seq<u8>> {
        match s.eeprom {
            Some(chip) => Some(chip.bytes),
            None => None,
        }
    }

    open spec fn after_load(s: BandaiFcgState, data: Seq<u8>) -> BandaiFcgState {
        s.loaded(data)
    }

    open spec fn save_due(s: BandaiFcgState) -> bool {
        s.save_dirty && s.eeprom is Some
    }

    open spec fn after_save(s: BandaiFcgState) -> BandaiFcgState {
        BandaiFcgState { save_dirty: false, ..s }
    }

    fn save_data(&self) -> (bytes: Option<&[u8]>) {
        match &self.eeprom {
            Some(chip) => Some(chip.bytes()),
            None => None,
        }
    }

    fn load_save_data(&mut self, data: &[u8]) {
        match &mut self.eeprom {
            Some(chip) => chip.load(data),
            None => {}
        }
    }

    fn save_dirty(&self) -> (dirty: bool) {
        self.save_dirty && self.eeprom.is_some()
    }

    fn mark_saved(&mut self) {
        self.save_dirty = false;
    }

    fn ppu_nametable_read(&mut self, slot: u8, offset: u16) -> (source: NametableSource) {
        NametableSource::Default
    }

    fn ppu_nametable_write(&mut self, slot: u8, offset: u16, data: u8) -> (target: NametableWriteTarget) {
        NametableWriteTarget::Default
    }

    fn on_ppu_addr(&mut self, addr: u16, ppu_cycle: u64, kind: PpuFetchKind) {
    }

    fn save_state_capture(&self) -> (state: Option<MapperState>) {
        None
    }

    fn save_state_apply(&mut self, state: &MapperState) -> (result: Result<(), SaveStateError>) {
        Err(SaveStateError::UnsupportedMapper(0))
    }
}

/// No write changes the cart's ROM.
pub proof fn lemma_bandai_fcg_rom_is_read_only(s: BandaiFcgState, addr: u16, data: u8)
    ensures
        BandaiFcg::after_cpu_write(s, addr, data).prg_rom == s.prg_rom,
        BandaiFcg::after_ppu_write(s, addr, data).prg_rom == s.prg_rom,
        !s.chr_ram ==> BandaiFcg::after_ppu_write(s, addr, data).chr == s.chr,
{
}

/// No write moves the bank at `$C000-$FFFF`.
pub proof fn lemma_bandai_fcg_fixed_bank(s: BandaiFcgState, addr: u16, data: u8, read: u16)
    requires
        BandaiFcg::ok(s),
        read >= 0xC000,
    ensures
        ({
            let after = BandaiFcg::after_cpu_write(s, addr, data);
            BandaiFcg::cpu_byte(after, read) == BandaiFcg::cpu_byte(s, read)
        }),
{
}

/// Pattern RAM gives back what was stored.
pub proof fn lemma_bandai_fcg_pattern_ram(s: BandaiFcgState, addr: u16, data: u8)
    requires
        BandaiFcg::ok(s),
        s.chr_ram,
        addr < 0x2000,
        0 <= s.chr_index(addr) < s.chr.len(),
    ensures
        ({
            let after = BandaiFcg::after_ppu_write(s, addr, data);
            BandaiFcg::ppu_byte(after, addr) == data
        }),
{
}

/// An enabled counter at `n` raises the interrupt in its cycle `n + 1`, and not before.
pub proof fn lemma_fcg_irq_timing(s: BandaiFcgState, n: nat)
    requires
        s.irq_enabled,
        !s.irq_line,
    ensures
        n <= s.irq_counter ==> !BandaiFcg::irq(after_cycles::<BandaiFcg>(s, n)),
        n == s.irq_counter + 1 ==> BandaiFcg::irq(after_cycles::<BandaiFcg>(s, n)),
        n <= s.irq_counter ==> after_cycles::<BandaiFcg>(s, n) == (BandaiFcgState {
            irq_counter: (s.irq_counter - n) as u16,
            ..s
        }),
    decreases n,
{
    if n > 0 {
        lemma_fcg_irq_timing(s, (n - 1) as nat);
    }
}

/// A write to register A takes the interrupt back.
pub proof fn lemma_fcg_irq_acknowledged(s: BandaiFcgState, addr: u16, data: u8)
    requires
        s.variant.decodes(addr),
        addr % 16 == 0xA,
    ensures
        !BandaiFcg::irq(BandaiFcg::after_cpu_write(s, addr, data)),
{
}

} // verus!
