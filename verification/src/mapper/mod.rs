//! Cartridge boards.
//!
//! A board sits between the console's two buses and the cartridge's memories. Its
//! [`Mapper::V`] is the mathematical state of the board; the `spec` functions of the trait
//! say, for every bus event, which byte the board drives and which state it is left in, and
//! the executable methods are proved to do exactly that.
use vstd::prelude::*;

use crate::rom::Mirroring;
use crate::save_state::{MapperState, SaveStateError};

pub mod ave_nina;
pub mod bandai_74161;
pub mod bandai_datach;
pub mod bandai_fcg;
pub mod bandai_karaoke;
pub mod bandai_lz93d50_sram;
pub mod bandai_oeka_kids;
pub mod bnrom;
pub mod board;
pub mod cnrom_protect;
pub mod codemasters_bf9096;
pub mod codemasters_bf909x;
pub mod color_dreams;
pub mod cprom;
pub mod eeprom_24c0x;
pub mod eeprom_frames;
pub mod flash_sst39sf040;
pub mod irem_74x161;
pub mod irem_g101;
pub mod irem_h3001;
pub mod irem_lrog017;
pub mod irem_tam_s1;
pub mod jaleco_jf05;
pub mod jaleco_jf11_14;
pub mod jaleco_jf13;
pub mod jaleco_jf17;
pub mod jaleco_ss88006;
pub mod laws;
pub mod mapper037;
pub mod mapper047;
pub mod mmc1;
pub mod mmc2;
pub mod mmc3;
pub mod n163_audio;
pub mod namco_118;
pub mod nes_event;
pub mod nrom;
pub mod one_of;
pub mod sunsoft1;
pub mod sunsoft2;
pub mod sunsoft3;
pub mod sunsoft4;

pub use self::board::{build, Board, BuildError, Built, OtherBoard};

verus! {

/// What kind of fetch the PPU is making when it drives its address bus.
#[derive(Debug, Clone, Copy, PartialEq, Eq, Structural)]
pub enum PpuFetchKind {
    /// Not part of rendering: CPU data-port accesses, address latches, idle lines.
    Idle,
    /// Background tile number.
    BgNametable,
    /// Background attribute byte.
    BgAttribute,
    /// Background pattern byte, either plane.
    BgPattern,
    /// Unused nametable fetch in the sprite window.
    SpriteNametable,
    /// Unused attribute fetch in the sprite window.
    SpriteAttribute,
    /// Sprite pattern byte, either plane.
    SpritePattern,
}

/// Where the byte of a nametable read comes from.
#[derive(Debug, Clone, Copy, PartialEq, Eq, Structural)]
pub enum NametableSource {
    /// The console's VRAM, through [`Mapper::mirroring`].
    Default,
    /// First page of the console's VRAM.
    CiramA,
    /// Second page of the console's VRAM.
    CiramB,
    /// The board supplies the byte.
    Byte(u8),
}

/// Where a nametable write goes.
#[derive(Debug, Clone, Copy, PartialEq, Eq, Structural)]
pub enum NametableWriteTarget {
    /// The console's VRAM, through [`Mapper::mirroring`].
    Default,
    /// First page of the console's VRAM.
    CiramA,
    /// Second page of the console's VRAM.
    CiramB,
    /// The board has dealt with the write.
    Consumed,
}

/// Disk drive controls of a Famicom Disk System board.
pub trait FdsControl {
    /// Number of disk sides in the image.
    fn side_count(&self) -> u8;

    /// The side in the drive, counted from zero, or `None` when it is empty.
    fn current_side(&self) -> Option<u8>;

    /// Takes the disk out of the drive.
    fn eject(&mut self);

    /// Puts a side into the drive, ejecting first where one is inserted.
    fn insert(&mut self, side: u8);
}

/// A cartridge board.
pub trait Mapper: Sized + View {
    /// The invariant that constructors establish and every method keeps.
    spec fn ok(s: Self::V) -> bool;

    /// The byte a CPU read of `$6000-$FFFF` returns.
    spec fn cpu_byte(s: Self::V, addr: u16) -> u8;

    /// The byte a read without side effects returns.
    open spec fn peeked(s: Self::V, addr: u16) -> u8 {
        Self::cpu_byte(s, addr)
    }

    /// The state a CPU read leaves behind.
    open spec fn after_cpu_read(s: Self::V, addr: u16) -> Self::V {
        s
    }

    /// The state a CPU write leaves behind.
    spec fn after_cpu_write(s: Self::V, addr: u16, data: u8) -> Self::V;

    /// The byte the board drives for expansion space `$4020-$5FFF`, if it decodes it.
    open spec fn expansion_byte(s: Self::V, addr: u16) -> Option<u8> {
        None
    }

    /// The state a read of expansion space leaves behind.
    open spec fn after_expansion_read(s: Self::V, addr: u16) -> Self::V {
        s
    }

    /// The byte a PPU read of the pattern tables returns.
    spec fn ppu_byte(s: Self::V, addr: u16) -> u8;

    /// The state a PPU read leaves behind.
    open spec fn after_ppu_read(s: Self::V, addr: u16) -> Self::V {
        s
    }

    /// The state a PPU write leaves behind.
    spec fn after_ppu_write(s: Self::V, addr: u16, data: u8) -> Self::V;

    /// The mirroring the board selects.
    spec fn mirrored(s: Self::V) -> Mirroring;

    /// The state one CPU cycle leaves behind.
    open spec fn after_cpu_cycle(s: Self::V) -> Self::V {
        s
    }

    /// Whether the board pulls the IRQ line.
    open spec fn irq(s: Self::V) -> bool {
        false
    }

    /// Where the byte of a nametable read comes from.
    open spec fn nametable_source(s: Self::V, slot: u8, offset: u16) -> NametableSource {
        NametableSource::Default
    }

    /// The state a nametable read leaves behind.
    open spec fn after_nametable_read(s: Self::V, slot: u8, offset: u16) -> Self::V {
        s
    }

    /// Where a nametable write goes.
    open spec fn nametable_target(s: Self::V, slot: u8, offset: u16, data: u8) -> NametableWriteTarget {
        NametableWriteTarget::Default
    }

    /// The state a nametable write leaves behind.
    open spec fn after_nametable_write(s: Self::V, slot: u8, offset: u16, data: u8) -> Self::V {
        s
    }

    /// The state after the PPU has driven an address at dot `cycle`.
    open spec fn after_ppu_addr(s: Self::V, addr: u16, cycle: u64, kind: PpuFetchKind) -> Self::V {
        s
    }

    /// Battery-backed memory, where there is any.
    open spec fn battery_bytes(s: Self::V) -> Option<Seq<u8>> {
        None
    }

    /// The state with battery-backed memory from a save.
    open spec fn after_load(s: Self::V, data: Seq<u8>) -> Self::V {
        s
    }

    /// Whether battery-backed memory has changed since it was last saved.
    open spec fn save_due(s: Self::V) -> bool {
        false
    }

    /// The state after battery-backed memory has been saved.
    open spec fn after_save(s: Self::V) -> Self::V {
        s
    }

    /// Whether `state` is what a capture may return.
    open spec fn captures(s: Self::V, state: Option<MapperState>) -> bool {
        state is None
    }

    /// The state with what a snapshot holds, or `None` where it is refused.
    open spec fn after_apply(s: Self::V, state: MapperState) -> Option<Self::V> {
        None
    }

    /// Whether a snapshot keeps the invariant where it is applied.
    open spec fn snapshot_ok(s: Self::V, state: MapperState) -> bool {
        true
    }

    fn cpu_read(&mut self, addr: u16) -> (byte: u8)
        requires
            Self::ok(old(self)@),
        ensures
            Self::ok(final(self)@),
            byte == Self::cpu_byte(old(self)@, addr),
            final(self)@ == Self::after_cpu_read(old(self)@, addr),
    ;

    fn cpu_write(&mut self, addr: u16, data: u8)
        requires
            Self::ok(old(self)@),
        ensures
            Self::ok(final(self)@),
            final(self)@ == Self::after_cpu_write(old(self)@, addr, data),
    ;

    fn ppu_read(&mut self, addr: u16) -> (byte: u8)
        requires
            Self::ok(old(self)@),
        ensures
            Self::ok(final(self)@),
            byte == Self::ppu_byte(old(self)@, addr),
            final(self)@ == Self::after_ppu_read(old(self)@, addr),
    ;

    fn ppu_write(&mut self, addr: u16, data: u8)
        requires
            Self::ok(old(self)@),
        ensures
            Self::ok(final(self)@),
            final(self)@ == Self::after_ppu_write(old(self)@, addr, data),
    ;

    fn mirroring(&self) -> (mode: Mirroring)
        requires
            Self::ok(self@),
        ensures
            mode == Self::mirrored(self@),
    ;

    /// A read without side effects.
    fn cpu_peek(&self, addr: u16) -> (byte: u8)
        requires
            Self::ok(self@),
        ensures
            byte == Self::peeked(self@, addr),
    ;

    /// A read of expansion space; `None` leaves the bus floating.
    fn cpu_read_ex(&mut self, addr: u16) -> (byte: Option<u8>)
        requires
            Self::ok(old(self)@),
        ensures
            Self::ok(final(self)@),
            byte == Self::expansion_byte(old(self)@, addr),
            final(self)@ == Self::after_expansion_read(old(self)@, addr),
    ;

    /// Called once per CPU cycle.
    fn on_cpu_cycle(&mut self)
        requires
            Self::ok(old(self)@),
        ensures
            Self::ok(final(self)@),
            final(self)@ == Self::after_cpu_cycle(old(self)@),
    ;

    fn irq_line(&self) -> (asserted: bool)
        requires
            Self::ok(self@),
        ensures
            asserted == Self::irq(self@),
    ;

    /// Called when the PPU reads a byte of nametable `slot`.
    fn ppu_nametable_read(&mut self, slot: u8, offset: u16) -> (source: NametableSource)
        requires
            Self::ok(old(self)@),
        ensures
            Self::ok(final(self)@),
            source == Self::nametable_source(old(self)@, slot, offset),
            final(self)@ == Self::after_nametable_read(old(self)@, slot, offset),
    ;

    /// Called when the PPU writes a byte of nametable `slot`.
    fn ppu_nametable_write(&mut self, slot: u8, offset: u16, data: u8) -> (target: NametableWriteTarget)
        requires
            Self::ok(old(self)@),
        ensures
            Self::ok(final(self)@),
            target == Self::nametable_target(old(self)@, slot, offset, data),
            final(self)@ == Self::after_nametable_write(old(self)@, slot, offset, data),
    ;

    /// Called whenever the PPU drives its address bus; `ppu_cycle` counts dots.
    fn on_ppu_addr(&mut self, addr: u16, ppu_cycle: u64, kind: PpuFetchKind)
        requires
            Self::ok(old(self)@),
        ensures
            Self::ok(final(self)@),
            final(self)@ == Self::after_ppu_addr(old(self)@, addr, ppu_cycle, kind),
    ;

    /// Battery-backed memory, or `None` on a cart without a battery.
    fn save_data(&self) -> (bytes: Option<&[u8]>)
        requires
            Self::ok(self@),
        ensures
            match (bytes, Self::battery_bytes(self@)) {
                (Some(b), Some(expected)) => b@ == expected,
                (None, None) => true,
                _ => false,
            },
    ;

    /// Restores battery-backed memory; data of another length is ignored.
    fn load_save_data(&mut self, data: &[u8])
        requires
            Self::ok(old(self)@),
        ensures
            Self::ok(final(self)@),
            final(self)@ == Self::after_load(old(self)@, data@),
    ;

    /// Whether battery-backed memory has changed since [`Mapper::mark_saved`].
    fn save_dirty(&self) -> (dirty: bool)
        requires
            Self::ok(self@),
        ensures
            dirty == Self::save_due(self@),
    ;

    fn mark_saved(&mut self)
        requires
            Self::ok(old(self)@),
        ensures
            Self::ok(final(self)@),
            final(self)@ == Self::after_save(old(self)@),
    ;

    /// Disk contents as a patch against the image, on a disk system only.
    fn disk_save_data(&self) -> (patch: Option<Vec<u8>>)
        requires
            Self::ok(self@),
        default_ensures
            patch is None,
    {
        None
    }

    /// Restores disk contents from a patch.
    fn load_disk_save(&mut self, ips_bytes: &[u8])
        requires
            Self::ok(old(self)@),
        ensures
            Self::ok(final(self)@),
        default_ensures
            final(self)@ == old(self)@,
    {
    }

    /// Whether a disk byte has changed since [`Mapper::mark_disk_saved`].
    fn disk_save_dirty(&self) -> (dirty: bool)
        requires
            Self::ok(self@),
        default_ensures
            !dirty,
    {
        false
    }

    fn mark_disk_saved(&mut self)
        requires
            Self::ok(old(self)@),
        ensures
            Self::ok(final(self)@),
        default_ensures
            final(self)@ == old(self)@,
    {
    }

    fn as_fds(&self) -> (drive: Option<&dyn FdsControl>)
        requires
            Self::ok(self@),
        default_ensures
            drive is None,
    {
        None
    }

    fn as_fds_mut(&mut self) -> (drive: Option<&mut dyn FdsControl>)
        requires
            Self::ok(old(self)@),
        default_ensures
            drive is None,
            final(self)@ == old(self)@,
    {
        None
    }

    /// The board's dynamic state, or `None` where the board has no snapshot.
    fn save_state_capture(&self) -> (state: Option<MapperState>)
        requires
            Self::ok(self@),
        ensures
            Self::captures(self@, state),
    ;

    /// Restores a captured state. A snapshot of another board is refused and changes nothing.
    fn save_state_apply(&mut self, state: &MapperState) -> (result: Result<(), SaveStateError>)
        requires
            Self::ok(old(self)@),
            Self::snapshot_ok(old(self)@, *state),
        ensures
            Self::ok(final(self)@),
            match Self::after_apply(old(self)@, *state) {
                Some(s) => result is Ok && final(self)@ == s,
                None => result == Err::<(), SaveStateError>(SaveStateError::UnsupportedMapper(0))
                    && final(self)@ == old(self)@,
            },
    ;
}

/// The board `n` CPU cycles later, with no access in between.
pub open spec fn after_cycles<M: Mapper>(s: M::V, n: nat) -> M::V
    decreases n,
{
    if n == 0 {
        s
    } else {
        M::after_cpu_cycle(after_cycles::<M>(s, (n - 1) as nat))
    }
}

} // verus!
