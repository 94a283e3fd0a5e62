//! The CPU bus. Every CPU access goes through it and advances the master clock, which keeps
//! CPU, PPU and APU in lock-step. DMA steals cycles from it.
use vstd::prelude::*;

use crate::apu::Apu;
use crate::audio::AudioSink;
use crate::bus::state::BusState;
use crate::clock::{MasterClock, Region};
use crate::mapper::Mapper;
use crate::ppu::Ppu;
use crate::save_state::bus::BusSnap;

pub mod controller;
pub mod cycle;
pub mod dma;
pub mod laws;
pub mod state;
pub mod wiring;

pub use self::controller::Controller;

verus! {

pub struct Bus<M: Mapper, P: Ppu<M>> {
    pub clock: MasterClock,
    pub ram: [u8; 0x800],
    pub ppu: P,
    pub apu: Apu,
    pub mapper: M,
    /// Board number of the cart in the slot.
    pub mapper_id: u16,
    pub controllers: [Controller; 2],
    pub nmi_pending: bool,
    pub irq_line: bool,
    /// `irq_line` at the end of the previous cycle, which is what the CPU polls.
    pub prev_irq_line: bool,
    /// `nmi_pending` at the end of the previous cycle.
    pub prev_nmi_pending: bool,
    /// The PPU's interrupt output at the end of the previous cycle.
    pub prev_nmi_flag: bool,
    /// What the data lines last carried.
    pub open_bus: u8,
    pub need_halt: bool,
    pub need_dummy_read: bool,
    pub dmc_dma_running: bool,
    pub dmc_dma_addr: u16,
    pub sprite_dma_running: bool,
    pub sprite_dma_page: u8,
    /// Set while DMA owns the bus, so that it is not entered twice.
    pub in_dma_loop: bool,
    pub audio_sink: Option<AudioSink>,
}

impl<M: Mapper, P: Ppu<M>> View for Bus<M, P> {
    type V = BusState<M, P>;

    open spec fn view(&self) -> BusState<M, P> {
        BusState {
            clock: self.clock,
            ram: self.ram@,
            ppu: self.ppu@,
            apu: self.apu,
            mapper: self.mapper@,
            mapper_id: self.mapper_id,
            controllers: self.controllers@,
            nmi_pending: self.nmi_pending,
            irq_line: self.irq_line,
            prev_irq_line: self.prev_irq_line,
            prev_nmi_pending: self.prev_nmi_pending,
            prev_nmi_flag: self.prev_nmi_flag,
            open_bus: self.open_bus,
            need_halt: self.need_halt,
            need_dummy_read: self.need_dummy_read,
            dmc_dma_running: self.dmc_dma_running,
            dmc_dma_addr: self.dmc_dma_addr,
            sprite_dma_running: self.sprite_dma_running,
            sprite_dma_page: self.sprite_dma_page,
            in_dma_loop: self.in_dma_loop,
            audio: match self.audio_sink {
                Some(sink) => Some(sink.levels@),
                None => None,
            },
        }
    }
}

/// Whether `snap` was taken from `s`.
pub open spec fn bus_snapshot<M: Mapper, P: Ppu<M>>(snap: BusSnap, s: BusState<M, P>) -> bool {
    &&& snap.clock == s.clock.snapshot()
    &&& snap.ram@ == s.ram
    &&& snap.controllers@ == seq![s.controllers[0].snapshot(), s.controllers[1].snapshot()]
    &&& snap.nmi_pending == s.nmi_pending
    &&& snap.irq_line == s.irq_line
    &&& snap.prev_irq_line == s.prev_irq_line
    &&& snap.prev_nmi_pending == s.prev_nmi_pending
    &&& snap.prev_nmi_flag == s.prev_nmi_flag
    &&& snap.open_bus == s.open_bus
    &&& snap.need_halt == s.need_halt
    &&& snap.need_dummy_read == s.need_dummy_read
    &&& snap.dmc_dma_running == s.dmc_dma_running
    &&& snap.dmc_dma_addr == s.dmc_dma_addr
    &&& snap.sprite_dma_running == s.sprite_dma_running
    &&& snap.sprite_dma_page == s.sprite_dma_page
    &&& snap.in_dma_loop == s.in_dma_loop
    &&& snap.mapper_id == s.mapper_id
}

/// The bus with a snapshot's values. PPU, APU, cart and audio have snapshots of their own, and
/// the board number is that of the cart in the slot.
pub open spec fn bus_restored<M: Mapper, P: Ppu<M>>(s: BusState<M, P>, snap: BusSnap) -> BusState<M, P> {
    BusState {
        clock: s.clock.restored(snap.clock),
        ram: snap.ram@,
        controllers: seq![
            Controller::restored(snap.controllers@[0]),
            Controller::restored(snap.controllers@[1]),
        ],
        nmi_pending: snap.nmi_pending,
        irq_line: snap.irq_line,
        prev_irq_line: snap.prev_irq_line,
        prev_nmi_pending: snap.prev_nmi_pending,
        prev_nmi_flag: snap.prev_nmi_flag,
        open_bus: snap.open_bus,
        need_halt: snap.need_halt,
        need_dummy_read: snap.need_dummy_read,
        dmc_dma_running: snap.dmc_dma_running,
        dmc_dma_addr: snap.dmc_dma_addr,
        sprite_dma_running: snap.sprite_dma_running,
        sprite_dma_page: snap.sprite_dma_page,
        in_dma_loop: snap.in_dma_loop,
        ..s
    }
}

impl<M: Mapper, P: Ppu<M>> Bus<M, P> {
    pub fn new(mapper: M, region: Region, mapper_id: u16) -> (bus: Self)
        requires
            M::ok(mapper@),
        ensures
            bus@ == BusState::<M, P>::power_on(mapper@, region, mapper_id),
            bus@.ok(),
    {
        let bus: Bus<M, P> = Bus {
            clock: MasterClock::new(region),
            ram: [0; 0x800],
            ppu: P::new(region),
            apu: Apu::new(region),
            mapper_id,
            mapper,
            controllers: [Controller::default(), Controller::default()],
            nmi_pending: false,
            irq_line: false,
            prev_irq_line: false,
            prev_nmi_pending: false,
            prev_nmi_flag: false,
            open_bus: 0,
            need_halt: false,
            need_dummy_read: false,
            dmc_dma_running: false,
            dmc_dma_addr: 0,
            sprite_dma_running: false,
            sprite_dma_page: 0,
            in_dma_loop: false,
            audio_sink: None,
        };
        assert(bus@.ram =~= crate::mem::zeros(0x800));
        assert(bus@.controllers =~= seq![Controller::power_on(), Controller::power_on()]);
        bus
    }

    pub fn region(&self) -> (region: Region)
        ensures
            region == self@.clock.region,
    {
        self.clock.region()
    }

    pub fn mapper_id(&self) -> (id: u16)
        ensures
            id == self@.mapper_id,
    {
        self.mapper_id
    }

    pub fn save_state_capture(&self) -> (snap: BusSnap)
        ensures
            bus_snapshot(snap, self@),
    {
        let snap: BusSnap = BusSnap {
            clock: self.clock.save_state_capture(),
            ram: self.ram,
            controllers: [
                self.controllers[0].save_state_capture(),
                self.controllers[1].save_state_capture(),
            ],
            nmi_pending: self.nmi_pending,
            irq_line: self.irq_line,
            prev_irq_line: self.prev_irq_line,
            prev_nmi_pending: self.prev_nmi_pending,
            prev_nmi_flag: self.prev_nmi_flag,
            open_bus: self.open_bus,
            need_halt: self.need_halt,
            need_dummy_read: self.need_dummy_read,
            dmc_dma_running: self.dmc_dma_running,
            dmc_dma_addr: self.dmc_dma_addr,
            sprite_dma_running: self.sprite_dma_running,
            sprite_dma_page: self.sprite_dma_page,
            in_dma_loop: self.in_dma_loop,
            mapper_id: self.mapper_id,
        };
        assert(snap.controllers@ =~= seq![self@.controllers[0].snapshot(), self@.controllers[1].snapshot()]);
        snap
    }

    pub fn save_state_apply(&mut self, snap: BusSnap)
        ensures
            final(self)@ == bus_restored(old(self)@, snap),
    {
        self.clock.save_state_apply(snap.clock);
        self.ram = snap.ram;
        self.controllers[0].save_state_apply(snap.controllers[0]);
        self.controllers[1].save_state_apply(snap.controllers[1]);
        self.nmi_pending = snap.nmi_pending;
        self.irq_line = snap.irq_line;
        self.prev_irq_line = snap.prev_irq_line;
        self.prev_nmi_pending = snap.prev_nmi_pending;
        self.prev_nmi_flag = snap.prev_nmi_flag;
        self.open_bus = snap.open_bus;
        self.need_halt = snap.need_halt;
        self.need_dummy_read = snap.need_dummy_read;
        self.dmc_dma_running = snap.dmc_dma_running;
        self.dmc_dma_addr = snap.dmc_dma_addr;
        self.sprite_dma_running = snap.sprite_dma_running;
        self.sprite_dma_page = snap.sprite_dma_page;
        self.in_dma_loop = snap.in_dma_loop;
        assert(self@.controllers =~= bus_restored(old(self)@, snap).controllers);
    }

    /// A CPU read: one cycle, after any pending DMA.
    pub fn read(&mut self, addr: u16) -> (byte: u8)
        requires
            old(self)@.ok(),
        ensures
            byte == old(self)@.read_byte(addr),
            final(self)@ == old(self)@.after_read(addr),
            final(self)@.ok(),
    {
        self.release(addr);
        self.tick_pre_access(true);
        let value: u8 = self.drive(addr);
        self.tick_post_access(true);
        value
    }

    fn release(&mut self, addr: u16)
        requires
            old(self)@.ok(),
        ensures
            final(self)@ == old(self)@.released(addr),
            final(self)@.ok(),
    {
        if self.need_halt {
            self.process_pending_dma(addr);
        }
    }

    /// Reads the device at `addr` onto the data lines.
    fn drive(&mut self, addr: u16) -> (byte: u8)
        requires
            old(self)@.ok(),
        ensures
            byte == old(self)@.bus_byte(addr),
            final(self)@ == old(self)@.driven(addr),
            final(self)@.ok(),
    {
        let value: u8 = self.access(addr);
        if addr != 0x4015 {
            self.open_bus = value;
        }
        value
    }

    /// The discarded read of an indexed instruction that crosses a page.
    pub fn dummy_read(&mut self, addr: u16) -> (byte: u8)
        requires
            old(self)@.ok(),
        ensures
            byte == old(self)@.dummy_byte(addr),
            final(self)@ == old(self)@.after_dummy_read(addr),
            final(self)@.ok(),
    {
        if !(0x2000 <= addr && addr <= 0x3FFF) {
            return self.read(addr);
        }
        self.release(addr);
        self.tick_pre_access(true);
        let value: u8 = self.drive_dummy(addr);
        self.tick_post_access(true);
        value
    }

    fn drive_dummy(&mut self, addr: u16) -> (byte: u8)
        requires
            old(self)@.ok(),
        ensures
            byte == P::dummy_byte(old(self)@.ppu, old(self)@.mapper, addr),
            final(self)@ == old(self)@.dummy_driven(addr),
            final(self)@.ok(),
    {
        let value: u8 = self.ppu.cpu_read_dummy(addr, &mut self.mapper);
        self.open_bus = value;
        value
    }

    /// A CPU write: one cycle, and the whole of sprite DMA for `$4014`.
    pub fn write(&mut self, addr: u16, data: u8)
        requires
            old(self)@.ok(),
        ensures
            final(self)@ == old(self)@.after_write(addr, data),
            final(self)@.ok(),
    {
        self.put_on_bus(data);
        self.tick_pre_access(false);
        if addr == 0x4014 {
            self.tick_post_access(false);
            self.sprite_dma(data);
        } else {
            self.store(addr, data);
            self.tick_post_access(false);
        }
    }

    fn arm_sprite_dma(&mut self, page: u8)
        requires
            old(self)@.ok(),
        ensures
            final(self)@ == (BusState {
                sprite_dma_running: true,
                sprite_dma_page: page,
                need_halt: true,
                ..old(self)@
            }),
            final(self)@.ok(),
    {
        self.sprite_dma_running = true;
        self.sprite_dma_page = page;
        self.need_halt = true;
    }

    fn restore_polled_lines(&mut self, irq: bool, nmi: bool)
        requires
            old(self)@.ok(),
        ensures
            final(self)@ == (BusState { prev_irq_line: irq, prev_nmi_pending: nmi, ..old(self)@ }),
            final(self)@.ok(),
    {
        self.prev_irq_line = irq;
        self.prev_nmi_pending = nmi;
    }

    fn sprite_dma(&mut self, page: u8)
        requires
            old(self)@.ok(),
        ensures
            final(self)@ == old(self)@.sprite_dma_done(page),
            final(self)@.ok(),
    {
        let saved_prev_irq: bool = self.prev_irq_line;
        let saved_prev_nmi: bool = self.prev_nmi_pending;
        self.arm_sprite_dma(page);
        self.process_pending_dma(0x4014);
        self.restore_polled_lines(saved_prev_irq, saved_prev_nmi);
    }

    fn put_on_bus(&mut self, data: u8)
        requires
            old(self)@.ok(),
        ensures
            final(self)@ == (BusState { open_bus: data, ..old(self)@ }),
            final(self)@.ok(),
    {
        self.open_bus = data;
    }

    fn strobe_controllers(&mut self, data: u8)
        requires
            old(self)@.ok(),
        ensures
            final(self)@ == old(self)@.stored(0x4016, data),
            final(self)@.ok(),
    {
        let ghost s = self@;
        self.controllers[0].write_strobe(data);
        self.controllers[1].write_strobe(data);
        assert(self@.controllers =~= s.stored(0x4016, data).controllers);
    }

    /// Writes the device at `addr`.
    fn store(&mut self, addr: u16, data: u8)
        requires
            old(self)@.ok(),
            addr != 0x4014,
        ensures
            final(self)@ == old(self)@.stored(addr, data),
            final(self)@.ok(),
    {
        match addr {
            0x0000..=0x1FFF => {
                self.ram[addr as usize % 0x800] = data;
            }
            0x2000..=0x3FFF => self.ppu.cpu_write(addr, data, &mut self.mapper),
            0x4016 => self.strobe_controllers(data),
            0x4000..=0x4017 => self.apu.write_reg(addr, data),
            0x4018..=0x401F => {}
            0x4020..=0xFFFF => self.mapper.cpu_write(addr, data),
        }
    }

    /// A look at memory, without a cycle and without side effects.
    pub fn peek(&self, addr: u16) -> (byte: u8)
        requires
            self@.ok(),
        ensures
            byte == self@.peeked(addr),
    {
        match addr {
            0x0000..=0x1FFF => self.ram[addr as usize % 0x800],
            0x6000..=0xFFFF => self.mapper.cpu_peek(addr),
            _ => 0,
        }
    }
}

} // verus!
