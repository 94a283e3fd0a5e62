//! Snapshots of the machine's dynamic state.
use vstd::prelude::*;

use crate::clock::Region;
use crate::rom::Mirroring;

pub mod apu;
pub mod bus;
pub mod laws;
pub mod mapper;

pub use self::bus::BusSnap;
pub use self::mapper::MapperState;

verus! {

/// Why a snapshot could not be applied.
#[derive(Debug, Clone, Copy, PartialEq, Eq, Structural)]
pub enum SaveStateError {
    /// The snapshot belongs to another board, or to another variant of this one.
    UnsupportedMapper(u16),
}

/// The region a snapshot was taken in.
#[derive(Debug, Clone, Copy, PartialEq, Eq, Structural)]
pub enum RegionTag {
    Ntsc,
    Pal,
}

impl RegionTag {
    pub open spec fn of(region: Region) -> RegionTag {
        match region {
            Region::Ntsc => RegionTag::Ntsc,
            Region::Pal => RegionTag::Pal,
        }
    }

    pub fn from_region(region: Region) -> (tag: RegionTag)
        ensures
            tag == RegionTag::of(region),
    {
        match region {
            Region::Ntsc => RegionTag::Ntsc,
            Region::Pal => RegionTag::Pal,
        }
    }
}

/// The mirroring a snapshot recorded.
#[derive(Debug, Clone, Copy, PartialEq, Eq, Structural)]
pub enum MirroringSnap {
    Horizontal,
    Vertical,
    SingleScreenLower,
    SingleScreenUpper,
    FourScreen,
}

impl MirroringSnap {
    pub open spec fn of(live: Mirroring) -> MirroringSnap {
        match live {
            Mirroring::Horizontal => MirroringSnap::Horizontal,
            Mirroring::Vertical => MirroringSnap::Vertical,
            Mirroring::SingleScreenLower => MirroringSnap::SingleScreenLower,
            Mirroring::SingleScreenUpper => MirroringSnap::SingleScreenUpper,
            Mirroring::FourScreen => MirroringSnap::FourScreen,
        }
    }

    pub open spec fn live(self) -> Mirroring {
        match self {
            MirroringSnap::Horizontal => Mirroring::Horizontal,
            MirroringSnap::Vertical => Mirroring::Vertical,
            MirroringSnap::SingleScreenLower => Mirroring::SingleScreenLower,
            MirroringSnap::SingleScreenUpper => Mirroring::SingleScreenUpper,
            MirroringSnap::FourScreen => Mirroring::FourScreen,
        }
    }

    pub fn from_live(live: Mirroring) -> (snap: MirroringSnap)
        ensures
            snap == MirroringSnap::of(live),
    {
        match live {
            Mirroring::Horizontal => MirroringSnap::Horizontal,
            Mirroring::Vertical => MirroringSnap::Vertical,
            Mirroring::SingleScreenLower => MirroringSnap::SingleScreenLower,
            Mirroring::SingleScreenUpper => MirroringSnap::SingleScreenUpper,
            Mirroring::FourScreen => MirroringSnap::FourScreen,
        }
    }

    pub fn to_live(self) -> (live: Mirroring)
        ensures
            live == self.live(),
    {
        match self {
            MirroringSnap::Horizontal => Mirroring::Horizontal,
            MirroringSnap::Vertical => Mirroring::Vertical,
            MirroringSnap::SingleScreenLower => Mirroring::SingleScreenLower,
            MirroringSnap::SingleScreenUpper => Mirroring::SingleScreenUpper,
            MirroringSnap::FourScreen => Mirroring::FourScreen,
        }
    }
}

/// A recorded mirroring is the one that was live.
pub proof fn lemma_mirroring_recorded(live: Mirroring)
    ensures
        MirroringSnap::of(live).live() == live,
{
}

/// A record has the name of what it records.
pub proof fn lemma_records_by_name()
    ensures
        MirroringSnap::of(Mirroring::Horizontal) == MirroringSnap::Horizontal,
        MirroringSnap::of(Mirroring::Vertical) == MirroringSnap::Vertical,
        MirroringSnap::of(Mirroring::SingleScreenLower) == MirroringSnap::SingleScreenLower,
        MirroringSnap::of(Mirroring::SingleScreenUpper) == MirroringSnap::SingleScreenUpper,
        MirroringSnap::of(Mirroring::FourScreen) == MirroringSnap::FourScreen,
        RegionTag::of(Region::Ntsc) == RegionTag::Ntsc,
        RegionTag::of(Region::Pal) == RegionTag::Pal,
{
}

} // verus!
