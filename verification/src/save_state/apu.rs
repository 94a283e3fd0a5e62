//! Snapshots of the sound channels.
use vstd::prelude::*;

verus! {

#[derive(Debug, Clone, Copy)]
pub struct EnvelopeSnap {
    pub start: bool,
    pub loop_flag: bool,
    pub constant: bool,
    pub divider_period: u8,
    pub divider: u8,
    pub decay: u8,
}

} // verus!
