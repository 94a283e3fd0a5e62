//! Snapshots of the cartridge boards.
use vstd::prelude::*;

use crate::mapper::eeprom_24c0x::{EepromChip, Mode};
use crate::save_state::MirroringSnap;

verus! {

/// The dynamic state of a serial EEPROM.
pub struct EepromSnap {
    pub chip: EepromChip,
    pub bytes: Vec<u8>,
    pub mode: Mode,
    pub next_mode: Mode,
    pub chip_address: u8,
    pub address: u8,
    pub data: u8,
    pub counter: u8,
    pub output: u8,
    pub prev_scl: u8,
    pub prev_sda: u8,
}

pub struct N163AudioSnap {
    pub ram: [u8; 0x80],
    pub channel_output: [i16; 8],
    pub update_counter: u8,
    pub current_channel: i8,
    pub last_output: i16,
    pub disable_sound: bool,
    pub address: u8,
    pub auto_inc: bool,
}

/// The variants of the Namco 118 board.
#[derive(Debug, Clone, Copy, PartialEq, Eq, Structural)]
pub enum Namco118VariantSnap {
    Mapper206,
    Mapper88,
    Mapper95,
    Mapper154,
}

pub struct NromSnap {
    pub prg_ram: Vec<u8>,
    pub chr_ram_data: Vec<u8>,
    pub save_dirty: bool,
}

impl Default for NromSnap {
    fn default() -> (snap: Self)
        ensures
            snap.prg_ram@ == Seq::<u8>::empty(),
            snap.chr_ram_data@ == Seq::<u8>::empty(),
            !snap.save_dirty,
    {
        NromSnap { prg_ram: Vec::new(), chr_ram_data: Vec::new(), save_dirty: false }
    }
}

pub struct AveNinaSnap {
    pub chr_ram_data: Vec<u8>,
    pub mirroring: MirroringSnap,
    pub reg: u8,
}

pub struct Bandai74161Snap {
    pub chr_ram_data: Vec<u8>,
    pub reg: u8,
    pub mirroring_control: bool,
    pub mirroring: MirroringSnap,
}

pub struct BandaiDatachSnap {
    pub chr_ram: Vec<u8>,
    pub mirroring: MirroringSnap,
    pub prg_bank: u8,
    pub irq_enabled: bool,
    pub irq_counter: u16,
    pub irq_reload: u16,
    pub irq_line: bool,
    pub standard_eeprom: EepromSnap,
    pub extra_eeprom: Option<EepromSnap>,
    pub save_dirty: bool,
}

pub struct BandaiKaraokeSnap {
    pub chr_ram_data: Vec<u8>,
    pub reg: u8,
    pub mirroring: MirroringSnap,
}

pub struct BandaiLz93d50SramSnap {
    pub prg_ram: Vec<u8>,
    pub chr_ram_data: Vec<u8>,
    pub chr_regs: [u8; 8],
    pub prg_page: u8,
    pub prg_outer: u8,
    pub mirroring: MirroringSnap,
    pub irq_counter: u16,
    pub irq_reload: u16,
    pub irq_enabled: bool,
    pub irq_line: bool,
    pub prg_ram_enabled: bool,
    pub save_dirty: bool,
}

pub struct BandaiOekaKidsSnap {
    pub chr_ram: Vec<u8>,
    pub mirroring: MirroringSnap,
    pub reg: u8,
    pub inner_chr: u8,
}

pub struct BnromSnap {
    pub prg_ram: Vec<u8>,
    pub chr_ram_data: Vec<u8>,
    pub prg_bank: u8,
    pub chr_banks: [u8; 2],
    pub nina001: bool,
    pub save_dirty: bool,
}

pub struct CnromProtectSnap {
    pub latch: u8,
    pub submapper: u8,
}

pub struct CodemastersBf9096Snap {
    pub chr_ram_data: Vec<u8>,
    pub prg_block: u8,
    pub prg_page: u8,
    pub aladdin_mode: bool,
}

pub struct CodemastersBf909xSnap {
    pub chr_ram_data: Vec<u8>,
    pub prg_bank: u8,
    pub bf9097_mode: bool,
    pub mirroring: MirroringSnap,
}

pub struct ColorDreamsSnap {
    pub chr_ram_data: Vec<u8>,
    pub mirroring: MirroringSnap,
    pub reg: u8,
}

pub struct CpromSnap {
    pub chr_ram_data: Vec<u8>,
    pub upper_bank: u8,
}

pub struct Irem74x161Snap {
    pub chr_ram_data: Vec<u8>,
    pub reg: u8,
    pub mirroring: MirroringSnap,
    pub holy_diver_mode: bool,
}

pub struct IremH3001Snap {
    pub prg_ram: Vec<u8>,
    pub chr_ram_data: Vec<u8>,
    pub prg_regs: [u8; 3],
    pub chr_regs: [u8; 8],
    pub mirroring: MirroringSnap,
    pub irq_enabled: bool,
    pub irq_counter: u16,
    pub irq_latch: u16,
    pub irq_line: bool,
    pub save_dirty: bool,
}

pub struct IremLrog017Snap {
    pub chr_ram_data: Vec<u8>,
    pub reg: u8,
}

pub struct IremTamS1Snap {
    pub chr_ram_data: Vec<u8>,
    pub reg: u8,
    pub mirroring: MirroringSnap,
    pub four_mode: bool,
}

pub struct JalecoJf05Snap {
    pub reg: u8,
}

pub struct JalecoJf11_14Snap {
    pub chr_ram_data: Vec<u8>,
    pub reg: u8,
}

pub struct JalecoJf13Snap {
    pub chr_ram_data: Vec<u8>,
    pub reg: u8,
}

pub struct JalecoJf17Snap {
    pub chr_ram_data: Vec<u8>,
    pub prg_bank: u8,
    pub chr_bank: u8,
    pub prev_prg_gate: bool,
    pub prev_chr_gate: bool,
    pub switchable_high: bool,
}

pub struct JalecoSnap {
    pub prg_ram: Vec<u8>,
    pub chr_ram_data: Vec<u8>,
    pub mirroring: MirroringSnap,
    pub prg_banks: [u8; 3],
    pub chr_banks: [u8; 8],
    pub irq_reload: [u8; 4],
    pub irq_counter: u16,
    pub irq_counter_size: u8,
    pub irq_enabled: bool,
    pub irq_line: bool,
    pub save_dirty: bool,
}

pub struct Mapper037Snap {
    pub inner: Mmc3Snap,
    pub block: u8,
}

pub struct Mapper047Snap {
    pub inner: Mmc3Snap,
    pub block: u8,
}

pub struct Mmc1Snap {
    pub prg_ram: Vec<u8>,
    pub chr_ram_data: Vec<u8>,
    pub shift: u8,
    pub shift_count: u8,
    pub control: u8,
    pub chr_bank_0: u8,
    pub chr_bank_1: u8,
    pub prg_bank: u8,
    pub mirroring: MirroringSnap,
    pub cycle_counter: u64,
    pub last_write_cycle: Option<u64>,
    pub save_dirty: bool,
}

pub struct Mmc3Snap {
    pub prg_ram: Vec<u8>,
    pub chr_ram_data: Vec<u8>,
    pub bank_select: u8,
    pub bank_regs: [u8; 8],
    pub mirroring: MirroringSnap,
    pub prg_ram_enabled: bool,
    pub prg_ram_write_protected: bool,
    pub irq_latch: u8,
    pub irq_counter: u8,
    pub irq_reload: bool,
    pub irq_enabled: bool,
    pub irq_line: bool,
    pub a12_low_since: Option<u64>,
    pub reg_a001: u8,
    pub save_dirty: bool,
}

pub struct Namco118Snap {
    pub variant: Namco118VariantSnap,
    pub prg_ram: Vec<u8>,
    pub chr_ram_data: Vec<u8>,
    pub bank_regs: [u8; 8],
    pub bank_select: u8,
    pub mirroring: MirroringSnap,
    pub save_dirty: bool,
}

pub struct NesEventSnap {
    pub chr_ram: Vec<u8>,
    pub prg_ram: Vec<u8>,
    pub mirroring: MirroringSnap,
    pub shift: u8,
    pub shift_count: u8,
    pub control: u8,
    pub chr0: u8,
    pub chr1: u8,
    pub prg: u8,
    pub init_state: u8,
    pub irq_counter: u32,
    pub irq_enabled: bool,
    pub irq_line: bool,
    pub dip: u8,
    pub cycle_counter: u64,
    pub last_write_cycle: Option<u64>,
}

pub struct Sunsoft1Snap {
    pub chr_ram_data: Vec<u8>,
    pub reg: u8,
}

pub struct Sunsoft2Snap {
    pub chr_ram_data: Vec<u8>,
    pub reg: u8,
    pub mirroring: MirroringSnap,
}

pub struct Sunsoft3Snap {
    pub prg_ram: Vec<u8>,
    pub chr_ram_data: Vec<u8>,
    pub prg_bank: u8,
    pub chr_banks: [u8; 4],
    pub mirroring: MirroringSnap,
    pub irq_toggle: bool,
    pub irq_counter: u16,
    pub irq_enabled: bool,
    pub irq_line: bool,
    pub save_dirty: bool,
}

pub struct Sunsoft4Snap {
    pub prg_ram: Vec<u8>,
    pub chr_ram_data: Vec<u8>,
    pub prg_bank: u8,
    pub prg_ram_enabled: bool,
    pub chr_banks: [u8; 4],
    pub nt_regs: [u8; 2],
    pub use_chr_for_nametables: bool,
    pub mirroring: MirroringSnap,
    pub save_dirty: bool,
}

/// A board's dynamic state, tagged with the board it came from.
pub enum MapperState {
    Nrom(NromSnap),
    AveNina(AveNinaSnap),
    Bandai74161(Bandai74161Snap),
    BandaiDatach(BandaiDatachSnap),
    BandaiKaraoke(BandaiKaraokeSnap),
    BandaiLz93d50Sram(BandaiLz93d50SramSnap),
    BandaiOekaKids(BandaiOekaKidsSnap),
    Bnrom(BnromSnap),
    CnromProtect(CnromProtectSnap),
    CodemastersBf9096(CodemastersBf9096Snap),
    CodemastersBf909x(CodemastersBf909xSnap),
    ColorDreams(ColorDreamsSnap),
    Cprom(CpromSnap),
    Irem74x161(Irem74x161Snap),
    IremH3001(IremH3001Snap),
    IremLrog017(IremLrog017Snap),
    IremTamS1(IremTamS1Snap),
    JalecoJf05(JalecoJf05Snap),
    JalecoJf11_14(JalecoJf11_14Snap),
    JalecoJf13(JalecoJf13Snap),
    JalecoJf17(JalecoJf17Snap),
    Jaleco(JalecoSnap),
    Mapper037(Mapper037Snap),
    Mapper047(Mapper047Snap),
    Mmc1(Mmc1Snap),
    Mmc3(Mmc3Snap),
    Namco118(Namco118Snap),
    NesEvent(NesEventSnap),
    Sunsoft1(Sunsoft1Snap),
    Sunsoft2(Sunsoft2Snap),
    Sunsoft3(Sunsoft3Snap),
    Sunsoft4(Sunsoft4Snap),
}

} // verus!
