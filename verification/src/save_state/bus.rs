//! Snapshots of the bus, the clock and the controllers.
use vstd::prelude::*;

use crate::save_state::RegionTag;

verus! {

#[derive(Debug, Clone, Copy)]
pub struct MasterClockSnap {
    pub region: RegionTag,
    pub master_cycles: u64,
    pub cpu_cycles: u64,
    pub ppu_cycles: u64,
    pub ppu_offset: u64,
}

#[derive(Debug, Clone, Copy)]
pub struct ControllerSnap {
    pub buttons: u8,
    pub strobe: bool,
    pub shifter: u8,
}

pub struct BusSnap {
    pub clock: MasterClockSnap,
    pub ram: [u8; 0x800],
    pub controllers: [ControllerSnap; 2],
    pub nmi_pending: bool,
    pub irq_line: bool,
    pub prev_irq_line: bool,
    pub prev_nmi_pending: bool,
    pub prev_nmi_flag: bool,
    pub open_bus: u8,
    pub need_halt: bool,
    pub need_dummy_read: bool,
    pub dmc_dma_running: bool,
    pub dmc_dma_addr: u16,
    pub sprite_dma_running: bool,
    pub sprite_dma_page: u8,
    pub in_dma_loop: bool,
    pub mapper_id: u16,
}

} // verus!
