//! What snapshots outside the simple boards hold, by name.
use vstd::prelude::*;

use crate::apu::envelope::Envelope;
use crate::bus::controller::Controller;
use crate::bus::state::BusState;
use crate::bus::{bus_restored, bus_snapshot};
use crate::clock::{MasterClock, Region};
use crate::mapper::bandai_datach::{BandaiDatach, BandaiDatachState};
use crate::mapper::bandai_fcg::{BandaiFcg, BandaiFcgState};
use crate::mapper::eeprom_24c0x::EepromState;
use crate::mapper::irem_g101::{IremG101, IremG101State};
use crate::mapper::laws::snapshots::named;
use crate::mapper::mapper037::{Mapper037, Mapper037State};
use crate::mapper::mapper047::{Mapper047, Mapper047State};
use crate::mapper::mmc2::{Mmc2, Mmc2State};
use crate::mapper::mmc3::Mmc3;
use crate::mapper::n163_audio::N163AudioState;
use crate::mapper::nrom::{Nrom, NromState};
use crate::mapper::Mapper;
use crate::ppu::Ppu;
use crate::save_state::apu::EnvelopeSnap;
use crate::save_state::bus::{ControllerSnap, MasterClockSnap};
use crate::save_state::mapper::{
    BandaiDatachSnap, EepromSnap, Mapper037Snap, Mapper047Snap, N163AudioSnap,
};
use crate::save_state::{BusSnap, MapperState, RegionTag};

verus! {

/// A clock snapshot holds the region and the four counters; applying one sets the counters and
/// leaves the console its own region.
pub proof fn lemma_clock_snapshot(clock: MasterClock, snap: MasterClockSnap)
    ensures
        clock.region == Region::Ntsc ==> clock.snapshot().region == RegionTag::Ntsc,
        clock.region == Region::Pal ==> clock.snapshot().region == RegionTag::Pal,
        clock.snapshot().master_cycles == clock.master_cycles,
        clock.snapshot().cpu_cycles == clock.cpu_cycles,
        clock.snapshot().ppu_cycles == clock.ppu_cycles,
        clock.snapshot().ppu_offset == clock.ppu_offset,
        clock.restored(snap).region == clock.region,
        clock.restored(snap).master_cycles == snap.master_cycles,
        clock.restored(snap).cpu_cycles == snap.cpu_cycles,
        clock.restored(snap).ppu_cycles == snap.ppu_cycles,
        clock.restored(snap).ppu_offset == snap.ppu_offset,
{
}

/// A controller snapshot holds the buttons, the strobe and the shift register.
pub proof fn lemma_controller_snapshot(controller: Controller, snap: ControllerSnap)
    ensures
        controller.snapshot().buttons == controller.buttons,
        controller.snapshot().strobe == controller.strobe,
        controller.snapshot().shifter == controller.shifter,
        Controller::restored(snap).buttons == snap.buttons,
        Controller::restored(snap).strobe == snap.strobe,
        Controller::restored(snap).shifter == snap.shifter,
{
}

/// An envelope snapshot holds the whole envelope.
pub proof fn lemma_envelope_snapshot(envelope: Envelope, snap: EnvelopeSnap)
    ensures
        envelope.snapshot().start == envelope.start,
        envelope.snapshot().loop_flag == envelope.loop_flag,
        envelope.snapshot().constant == envelope.constant,
        envelope.snapshot().divider_period == envelope.divider_period,
        envelope.snapshot().divider == envelope.divider,
        envelope.snapshot().decay == envelope.decay,
        Envelope::restored(snap).start == snap.start,
        Envelope::restored(snap).loop_flag == snap.loop_flag,
        Envelope::restored(snap).constant == snap.constant,
        Envelope::restored(snap).divider_period == snap.divider_period,
        Envelope::restored(snap).divider == snap.divider,
        Envelope::restored(snap).decay == snap.decay,
{
}

/// A bus snapshot holds the clock, the RAM, both controllers in their order, every line and DMA
/// register, and the board number.
pub proof fn lemma_bus_snapshot<M: Mapper, P: Ppu<M>>(s: BusState<M, P>, snap: BusSnap, i: int)
    ensures
        bus_snapshot(snap, s) ==> ({
            &&& snap.clock.master_cycles == s.clock.master_cycles
            &&& snap.clock.cpu_cycles == s.clock.cpu_cycles
            &&& snap.clock.ppu_cycles == s.clock.ppu_cycles
            &&& snap.clock.ppu_offset == s.clock.ppu_offset
            &&& 0 <= i < 0x800 ==> snap.ram@[i] == s.ram[i]
            &&& 0 <= i < 2 ==> snap.controllers@[i].buttons == s.controllers[i].buttons
            &&& 0 <= i < 2 ==> snap.controllers@[i].strobe == s.controllers[i].strobe
            &&& 0 <= i < 2 ==> snap.controllers@[i].shifter == s.controllers[i].shifter
            &&& snap.nmi_pending == s.nmi_pending
            &&& snap.irq_line == s.irq_line
            &&& snap.prev_irq_line == s.prev_irq_line
            &&& snap.prev_nmi_pending == s.prev_nmi_pending
            &&& snap.prev_nmi_flag == s.prev_nmi_flag
            &&& snap.open_bus == s.open_bus
            &&& snap.need_halt == s.need_halt
            &&& snap.need_dummy_read == s.need_dummy_read
            &&& snap.dmc_dma_running == s.dmc_dma_running
            &&& snap.dmc_dma_addr == s.dmc_dma_addr
            &&& snap.sprite_dma_running == s.sprite_dma_running
            &&& snap.sprite_dma_page == s.sprite_dma_page
            &&& snap.in_dma_loop == s.in_dma_loop
            &&& snap.mapper_id == s.mapper_id
        }),
{
}

/// Applying a bus snapshot sets what it holds. The PPU, the APU, the cart, the gathered sound and
/// the board number stay.
pub proof fn lemma_bus_snapshot_applied<M: Mapper, P: Ppu<M>>(s: BusState<M, P>, snap: BusSnap, i: int)
    ensures
        ({
            let t = bus_restored(s, snap);
            &&& t.clock.region == s.clock.region
            &&& t.clock.master_cycles == snap.clock.master_cycles
            &&& t.clock.cpu_cycles == snap.clock.cpu_cycles
            &&& t.clock.ppu_cycles == snap.clock.ppu_cycles
            &&& t.clock.ppu_offset == snap.clock.ppu_offset
            &&& 0 <= i < 0x800 ==> t.ram[i] == snap.ram@[i]
            &&& 0 <= i < 2 ==> t.controllers[i].buttons == snap.controllers@[i].buttons
            &&& 0 <= i < 2 ==> t.controllers[i].strobe == snap.controllers@[i].strobe
            &&& 0 <= i < 2 ==> t.controllers[i].shifter == snap.controllers@[i].shifter
            &&& t.nmi_pending == snap.nmi_pending
            &&& t.irq_line == snap.irq_line
            &&& t.prev_irq_line == snap.prev_irq_line
            &&& t.prev_nmi_pending == snap.prev_nmi_pending
            &&& t.prev_nmi_flag == snap.prev_nmi_flag
            &&& t.open_bus == snap.open_bus
            &&& t.need_halt == snap.need_halt
            &&& t.need_dummy_read == snap.need_dummy_read
            &&& t.dmc_dma_running == snap.dmc_dma_running
            &&& t.dmc_dma_addr == snap.dmc_dma_addr
            &&& t.sprite_dma_running == snap.sprite_dma_running
            &&& t.sprite_dma_page == snap.sprite_dma_page
            &&& t.in_dma_loop == snap.in_dma_loop
            &&& t.ppu == s.ppu
            &&& t.apu == s.apu
            &&& t.mapper == s.mapper
            &&& t.audio == s.audio
            &&& t.mapper_id == s.mapper_id
        }),
{
}

/// A serial memory snapshot holds the chip, its bytes and where it stands in a frame. Applying one
/// sets that, the bytes only where their number fits; the chip stays.
pub proof fn lemma_eeprom_snapshot(s: EepromState, snap: EepromSnap)
    ensures
        s.captured(snap) ==> ({
            &&& snap.chip == s.chip
            &&& snap.bytes@ == s.bytes
            &&& snap.mode == s.mode
            &&& snap.next_mode == s.next_mode
            &&& snap.chip_address == s.chip_address
            &&& snap.address == s.address
            &&& snap.data == s.data
            &&& snap.counter == s.counter
            &&& snap.output == s.output
            &&& snap.prev_scl == s.prev_scl
            &&& snap.prev_sda == s.prev_sda
        }),
        ({
            let t = s.restored(snap);
            &&& t.chip == s.chip
            &&& snap.bytes@.len() == s.bytes.len() ==> t.bytes == snap.bytes@
            &&& snap.bytes@.len() != s.bytes.len() ==> t.bytes == s.bytes
            &&& t.mode == snap.mode
            &&& t.next_mode == snap.next_mode
            &&& t.chip_address == snap.chip_address
            &&& t.address == snap.address
            &&& t.data == snap.data
            &&& t.counter == snap.counter
            &&& t.output == snap.output
            &&& t.prev_scl == snap.prev_scl
            &&& t.prev_sda == snap.prev_sda
        }),
{
}

/// A snapshot of the eight sound channels holds the whole chip.
pub proof fn lemma_n163_snapshot(s: N163AudioState, snap: N163AudioSnap)
    ensures
        s.captured(snap) ==> ({
            &&& snap.ram@ == s.ram
            &&& snap.channel_output@ == s.channel_output
            &&& snap.update_counter == s.update_counter
            &&& snap.current_channel == s.current_channel
            &&& snap.last_output == s.last_output
            &&& snap.disable_sound == s.disable_sound
            &&& snap.address == s.address
            &&& snap.auto_inc == s.auto_inc
        }),
        ({
            let t = N163AudioState::restored(snap);
            &&& t.ram == snap.ram@
            &&& t.channel_output == snap.channel_output@
            &&& t.update_counter == snap.update_counter
            &&& t.current_channel == snap.current_channel
            &&& t.last_output == snap.last_output
            &&& t.disable_sound == snap.disable_sound
            &&& t.address == snap.address
            &&& t.auto_inc == snap.auto_inc
        }),
{
}

/// A snapshot of this board holds the block and the snapshot of the chip inside.
pub proof fn lemma_mapper037_snapshot(s: Mapper037State, snap: Mapper037Snap, state: MapperState)
    ensures
        Mapper037::captures(s, Some(MapperState::Mapper037(snap))) ==> snap.block == s.block
            && Mmc3::captures(s.inner, Some(MapperState::Mmc3(snap.inner))),
        Mapper037::after_apply(s, MapperState::Mapper037(snap)) is Some,
        Mapper037::after_apply(s, MapperState::Mapper037(snap))->Some_0.block == snap.block,
        Mmc3::after_apply(s.inner, MapperState::Mmc3(snap.inner)) == Some(
            Mapper037::after_apply(s, MapperState::Mapper037(snap))->Some_0.inner,
        ),
        state !is Mapper037 ==> Mapper037::after_apply(s, state) is None && !Mapper037::captures(s, Some(state)),
        !Mapper037::captures(s, None),
{
}

/// A snapshot of this board holds the block and the snapshot of the chip inside.
pub proof fn lemma_mapper047_snapshot(s: Mapper047State, snap: Mapper047Snap, state: MapperState)
    ensures
        Mapper047::captures(s, Some(MapperState::Mapper047(snap))) ==> snap.block == s.block
            && Mmc3::captures(s.inner, Some(MapperState::Mmc3(snap.inner))),
        Mapper047::after_apply(s, MapperState::Mapper047(snap)) is Some,
        Mapper047::after_apply(s, MapperState::Mapper047(snap))->Some_0.block == snap.block,
        Mmc3::after_apply(s.inner, MapperState::Mmc3(snap.inner)) == Some(
            Mapper047::after_apply(s, MapperState::Mapper047(snap))->Some_0.inner,
        ),
        state !is Mapper047 ==> Mapper047::after_apply(s, state) is None && !Mapper047::captures(s, Some(state)),
        !Mapper047::captures(s, None),
{
}

/// A Datach snapshot holds the registers and both serial memories, each as its own; applying one
/// leaves ROM, and a chip that either side lacks, as they are.
pub proof fn lemma_bandai_datach_snapshot(s: BandaiDatachState, snap: BandaiDatachSnap, state: MapperState)
    ensures
        BandaiDatach::captures(s, Some(MapperState::BandaiDatach(snap))) ==> ({
            &&& snap.chr_ram@ == s.chr_ram
            &&& named(snap.mirroring) == s.mirroring
            &&& snap.prg_bank == s.prg_bank
            &&& snap.irq_enabled == s.irq_enabled
            &&& snap.irq_counter == s.irq_counter
            &&& snap.irq_reload == s.irq_reload
            &&& snap.irq_line == s.irq_line
            &&& snap.save_dirty == s.save_dirty
            &&& s.standard_eeprom.captured(snap.standard_eeprom)
            &&& s.extra_eeprom is Some <==> snap.extra_eeprom is Some
            &&& s.extra_eeprom is Some ==> s.extra_eeprom->Some_0.captured(snap.extra_eeprom->Some_0)
        }),
        BandaiDatach::after_apply(s, MapperState::BandaiDatach(snap)) is Some,
        ({
            let t = BandaiDatach::after_apply(s, MapperState::BandaiDatach(snap))->Some_0;
            &&& snap.chr_ram@.len() == s.chr_ram.len() ==> t.chr_ram == snap.chr_ram@
            &&& snap.chr_ram@.len() != s.chr_ram.len() ==> t.chr_ram == s.chr_ram
            &&& t.mirroring == named(snap.mirroring)
            &&& t.prg_bank == snap.prg_bank
            &&& t.irq_enabled == snap.irq_enabled
            &&& t.irq_counter == snap.irq_counter
            &&& t.irq_reload == snap.irq_reload
            &&& t.irq_line == snap.irq_line
            &&& t.save_dirty == snap.save_dirty
            &&& t.standard_eeprom == s.standard_eeprom.restored(snap.standard_eeprom)
            &&& s.extra_eeprom is Some && snap.extra_eeprom is Some ==> t.extra_eeprom == Some(
                s.extra_eeprom->Some_0.restored(snap.extra_eeprom->Some_0),
            )
            &&& s.extra_eeprom is None || snap.extra_eeprom is None ==> t.extra_eeprom == s.extra_eeprom
            &&& t.prg_rom == s.prg_rom
        }),
        state !is BandaiDatach ==> BandaiDatach::after_apply(s, state) is None && !BandaiDatach::captures(
            s,
            Some(state),
        ),
        !BandaiDatach::captures(s, None),
{
}

/// These boards have no snapshots: none is taken, and every one is refused.
pub proof fn lemma_boards_without_snapshots(
    fcg: BandaiFcgState,
    g101: IremG101State,
    mmc2: Mmc2State,
    nrom: NromState,
    state: MapperState,
)
    ensures
        BandaiFcg::captures(fcg, None) && !BandaiFcg::captures(fcg, Some(state)),
        BandaiFcg::after_apply(fcg, state) is None,
        IremG101::captures(g101, None) && !IremG101::captures(g101, Some(state)),
        IremG101::after_apply(g101, state) is None,
        Mmc2::captures(mmc2, None) && !Mmc2::captures(mmc2, Some(state)),
        Mmc2::after_apply(mmc2, state) is None,
        Nrom::captures(nrom, None) && !Nrom::captures(nrom, Some(state)),
        Nrom::after_apply(nrom, state) is None,
{
}

} // verus!
