use vstd::prelude::*;

verus! {

/// How the four nametable slots fold onto the console's two pages of VRAM.
#[derive(Debug, Clone, Copy, PartialEq, Eq, Structural)]
pub enum Mirroring {
    Horizontal,
    Vertical,
    SingleScreenLower,
    SingleScreenUpper,
    FourScreen,
}

#[derive(Debug, Clone, Copy, PartialEq, Eq, Structural)]
pub enum TvSystem {
    Ntsc,
    Pal,
}

#[derive(Debug, Clone)]
pub struct Cartridge {
    pub prg_rom: Vec<u8>,
    pub chr_rom: Vec<u8>,
    pub chr_ram: bool,
    pub mapper_id: u16,
    pub submapper: u8,
    pub mirroring: Mirroring,
    pub battery_backed: bool,
    pub prg_ram_size: usize,
    pub prg_nvram_size: usize,
    pub tv_system: TvSystem,
    pub is_nes2: bool,
    pub prg_chr_crc32: u32,
    pub db_matched: bool,
    pub fds_data: Option<Vec<u8>>,
}

} // verus!
