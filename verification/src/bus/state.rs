//! What the bus does, as a mathematical state machine.
use vstd::prelude::*;

use crate::apu::{lemma_tick_runs_dmc, Apu, MixLevels};
use crate::bus::controller::Controller;
use crate::clock::{wrap64, MasterClock, Region};
use crate::mapper::Mapper;
use crate::ppu::Ppu;

verus! {

/// The state of a [`Bus`] and of everything on it.
pub struct BusState<M: Mapper, P: Ppu<M>> {
    pub clock: MasterClock,
    pub ram: Seq<u8>,
    pub ppu: P::V,
    pub apu: Apu,
    pub mapper: M::V,
    pub mapper_id: u16,
    pub controllers: Seq<Controller>,
    pub nmi_pending: bool,
    pub irq_line: bool,
    pub prev_irq_line: bool,
    pub prev_nmi_pending: bool,
    pub prev_nmi_flag: bool,
    pub open_bus: u8,
    pub need_halt: bool,
    pub need_dummy_read: bool,
    pub dmc_dma_running: bool,
    pub dmc_dma_addr: u16,
    pub sprite_dma_running: bool,
    pub sprite_dma_page: u8,
    pub in_dma_loop: bool,
    pub audio: Option<Seq<MixLevels>>,
}

/// The PPU and the cart `n` dots later.
pub open spec fn after_dots<M: Mapper, P: Ppu<M>>(ppu: P::V, cart: M::V, n: nat) -> (P::V, M::V)
    decreases n,
{
    if n == 0 {
        (ppu, cart)
    } else {
        let before = after_dots::<M, P>(ppu, cart, (n - 1) as nat);
        P::after_tick(before.0, before.1)
    }
}

impl<M: Mapper, P: Ppu<M>> BusState<M, P> {
    pub open spec fn ok(self) -> bool {
        &&& self.ram.len() == 0x800
        &&& self.controllers.len() == 2
        &&& P::ok(self.ppu)
        &&& M::ok(self.mapper)
        &&& self.apu.ok()
    }

    pub open spec fn power_on(cart: M::V, region: Region, mapper_id: u16) -> BusState<M, P> {
        BusState {
            clock: MasterClock::power_on(region),
            ram: crate::mem::zeros(0x800),
            ppu: P::power_on(region),
            apu: Apu::power_on(region),
            mapper: cart,
            mapper_id,
            controllers: seq![Controller::power_on(), Controller::power_on()],
            nmi_pending: false,
            irq_line: false,
            prev_irq_line: false,
            prev_nmi_pending: false,
            prev_nmi_flag: false,
            open_bus: 0,
            need_halt: false,
            need_dummy_read: false,
            dmc_dma_running: false,
            dmc_dma_addr: 0,
            sprite_dma_running: false,
            sprite_dma_page: 0,
            in_dma_loop: false,
            audio: None,
        }
    }

    /// The PPU `n` dots later.
    pub open spec fn dotted(self, n: int) -> BusState<M, P> {
        let after = after_dots::<M, P>(self.ppu, self.mapper, n as nat);
        BusState { ppu: after.0, mapper: after.1, ..self }
    }

    /// The interrupt line as APU and cart drive it together.
    pub open spec fn irq_polled(self) -> BusState<M, P> {
        BusState { irq_line: self.apu.frame_irq || self.apu.dmc_irq || M::irq(self.mapper), ..self }
    }

    /// A sample fetch that the APU asks for, taken up unless one is under way.
    pub open spec fn dmc_armed(self) -> BusState<M, P> {
        if self.dmc_dma_running {
            self
        } else {
            let taken = BusState { apu: self.apu.request_taken(), ..self };
            match self.apu.request() {
                Some(request) => BusState {
                    dmc_dma_running: true,
                    need_halt: true,
                    need_dummy_read: true,
                    dmc_dma_addr: request.addr,
                    ..taken
                },
                None => taken,
            }
        }
    }

    /// A cycle begun: the interrupt lines of the cycle before are kept for the CPU to poll.
    pub open spec fn begun(self, is_read: bool) -> BusState<M, P> {
        BusState {
            prev_irq_line: self.irq_line,
            prev_nmi_pending: self.nmi_pending,
            clock: self.clock.started(is_read),
            ..self
        }
    }

    /// APU and cart one CPU cycle later.
    pub open spec fn ticked(self) -> BusState<M, P> {
        BusState { apu: self.apu.ticked(), mapper: M::after_cpu_cycle(self.mapper), ..self }
    }

    /// The part of a cycle before the access: the PPU catches up, and APU and cart advance one
    /// cycle.
    #[verifier::opaque]
    pub open spec fn pre(self, is_read: bool) -> BusState<M, P> {
        self.begun(is_read).dotted(
            self.clock.dots(self.clock.start_ticks(is_read)),
        ).ticked().irq_polled().dmc_armed()
    }

    /// A rising edge of the PPU's interrupt output latched.
    pub open spec fn nmi_latched(self) -> BusState<M, P> {
        BusState {
            nmi_pending: self.nmi_pending || (P::nmi(self.ppu) && !self.prev_nmi_flag),
            prev_nmi_flag: P::nmi(self.ppu),
            ..self
        }
    }

    /// The mixer levels handed to the audio sink.
    pub open spec fn sampled(self) -> BusState<M, P> {
        BusState {
            audio: match self.audio {
                Some(levels) => Some(levels.push(self.apu.levels())),
                None => None,
            },
            ..self
        }
    }

    /// The part of a cycle after the access: the PPU catches up.
    #[verifier::opaque]
    pub open spec fn post(self, is_read: bool) -> BusState<M, P> {
        (BusState { clock: self.clock.ended(is_read), ..self }).dotted(
            self.clock.dots(self.clock.end_ticks(is_read)),
        ).irq_polled().nmi_latched().sampled()
    }

    /// The byte on the data lines for a read of `addr`. Addresses that nothing decodes give what
    /// was there before.
    pub open spec fn bus_byte(self, addr: u16) -> u8 {
        if addr < 0x2000 {
            self.ram[addr as int % 0x800]
        } else if addr < 0x4000 {
            P::read_byte(self.ppu, self.mapper, addr)
        } else if addr == 0x4015 {
            (self.apu.status() & 0xDF) | (self.open_bus & 0x20)
        } else if addr == 0x4016 {
            (self.open_bus & 0xA0) | 0x40 | (self.controllers[0].bit() & 1)
        } else if addr == 0x4017 {
            (self.open_bus & 0xA0) | 0x40 | (self.controllers[1].bit() & 1)
        } else if addr < 0x4020 {
            self.open_bus
        } else if addr < 0x6000 {
            match M::expansion_byte(self.mapper, addr) {
                Some(byte) => byte,
                None => self.open_bus,
            }
        } else {
            M::cpu_byte(self.mapper, addr)
        }
    }

    /// What a read of `addr` does to the device there.
    pub open spec fn accessed(self, addr: u16) -> BusState<M, P> {
        if addr < 0x2000 {
            self
        } else if addr < 0x4000 {
            let after = P::after_read(self.ppu, self.mapper, addr);
            BusState { ppu: after.0, mapper: after.1, ..self }
        } else if addr == 0x4015 {
            BusState { apu: Apu { frame_irq: false, ..self.apu }, ..self }
        } else if addr == 0x4016 {
            BusState { controllers: self.controllers.update(0, self.controllers[0].shifted()), ..self }
        } else if addr == 0x4017 {
            BusState { controllers: self.controllers.update(1, self.controllers[1].shifted()), ..self }
        } else if addr < 0x4020 {
            self
        } else if addr < 0x6000 {
            BusState { mapper: M::after_expansion_read(self.mapper, addr), ..self }
        } else {
            BusState { mapper: M::after_cpu_read(self.mapper, addr), ..self }
        }
    }

    /// A read as DMA makes it.
    pub open spec fn dma_read(self, addr: u16) -> BusState<M, P> {
        BusState { open_bus: self.bus_byte(addr), ..self.accessed(addr) }
    }

    /// A whole cycle in which DMA reads `addr`.
    #[verifier::opaque]
    pub open spec fn dma_read_cycle(self, addr: u16) -> BusState<M, P> {
        self.pre(true).dma_read(addr).post(true)
    }

    /// A whole cycle in which DMA waits: it repeats the read it holds up, except that a
    /// controller is not shifted again.
    #[verifier::opaque]
    pub open spec fn dma_wait_cycle(self, pending: u16) -> BusState<M, P> {
        if pending == 0x4016 || pending == 0x4017 {
            self.pre(true).post(true)
        } else {
            self.dma_read_cycle(pending)
        }
    }

    /// The sample byte read, straight from the cart.
    pub open spec fn sample_read(self) -> BusState<M, P> {
        BusState {
            mapper: M::after_cpu_read(self.mapper, self.dmc_dma_addr),
            open_bus: M::cpu_byte(self.mapper, self.dmc_dma_addr),
            ..self
        }
    }

    /// The sample byte handed to the APU.
    pub open spec fn sample_delivered(self, byte: u8) -> BusState<M, P> {
        BusState { apu: self.apu.fetched(byte), dmc_dma_running: false, ..self }
    }

    /// The cycle that fetches a sample byte.
    #[verifier::opaque]
    pub open spec fn dmc_fetch_cycle(self) -> BusState<M, P> {
        let s = self.pre(true);
        s.sample_read().post(true).sample_delivered(M::cpu_byte(s.mapper, s.dmc_dma_addr))
    }

    /// The address of the sprite byte that comes `counter` half-steps into the transfer.
    pub open spec fn sprite_addr(self, counter: int) -> u16 {
        (self.sprite_dma_page * 0x100 + counter / 2 % 0x100) as u16
    }

    /// A sprite byte stored through the PPU's data port.
    pub open spec fn sprite_stored(self, byte: u8) -> BusState<M, P> {
        let after = P::after_write(self.ppu, self.mapper, 0x2004, byte);
        BusState { ppu: after.0, mapper: after.1, open_bus: byte, ..self }
    }

    /// The cycle that stores a sprite byte.
    #[verifier::opaque]
    pub open spec fn sprite_write_cycle(self, byte: u8) -> BusState<M, P> {
        self.pre(false).sprite_stored(byte).post(false)
    }

    pub open spec fn get_cycle(self) -> bool {
        self.clock.cpu_cycles % 2 == 0
    }

    pub open spec fn flagged(self) -> bool {
        self.need_halt || self.need_dummy_read
    }

    /// One of the two flags burnt, the halt first.
    pub open spec fn flag_cleared(self) -> BusState<M, P> {
        if self.need_halt {
            BusState { need_halt: false, ..self }
        } else {
            BusState { need_dummy_read: false, ..self }
        }
    }

    /// One cycle of DMA: the state, half-steps and sprite byte after it. Even cycles read, for
    /// the sample first and the sprites second; odd cycles write sprites. What is left over
    /// waits.
    #[verifier::opaque]
    pub open spec fn dma_step(self, pending: u16, counter: int, byte: u8) -> (BusState<M, P>, int, u8) {
        let s = self.flag_cleared();
        if self.get_cycle() {
            if self.dmc_dma_running && !self.flagged() {
                (s.dmc_fetch_cycle(), counter, byte)
            } else if self.sprite_dma_running {
                let addr = self.sprite_addr(counter);
                (s.dma_read_cycle(addr), counter + 1, s.pre(true).bus_byte(addr))
            } else {
                (s.dma_wait_cycle(pending), counter, byte)
            }
        } else if self.sprite_dma_running && counter % 2 == 1 {
            let t = s.sprite_write_cycle(byte);
            (
                BusState { sprite_dma_running: counter + 1 < 0x200, ..t },
                counter + 1,
                byte,
            )
        } else {
            (s.dma_wait_cycle(pending), counter, byte)
        }
    }

    pub open spec fn dma_busy(self) -> bool {
        self.dmc_dma_running || self.sprite_dma_running
    }

    /// Half-steps of the sprite transfer: a byte has been read and not yet stored exactly where
    /// the next cycle is a write cycle.
    pub open spec fn dma_aligned(self, counter: int) -> bool {
        &&& 0 <= counter
        &&& self.sprite_dma_running ==> counter < 0x200
        &&& self.sprite_dma_running && counter % 2 == 1 ==> !self.get_cycle()
    }

    /// Half-steps that the sprite transfer has left.
    pub open spec fn sprite_left(self, counter: int) -> int {
        if self.sprite_dma_running {
            0x200 - counter
        } else {
            0
        }
    }

    /// How long the sample fetch can still hold the sprite transfer up, or last on its own.
    pub open spec fn dmc_left(self) -> int {
        let flags = (if self.need_halt { 1int } else { 0 }) + (if self.need_dummy_read { 1int } else { 0 });
        let put = if self.get_cycle() { 0int } else { 1 };
        if !self.dma_busy() {
            0
        } else if !self.sprite_dma_running {
            2 * flags + put + 1
        } else if self.get_cycle() {
            if self.dmc_dma_running && flags == 0 { 3 } else { 1 }
        } else {
            if self.dmc_dma_running { 4 } else { 2 }
        }
    }

    /// DMA run until nothing is left of it.
    pub open spec fn dma_run(self, pending: u16, counter: int, byte: u8) -> BusState<M, P>
        decreases self.sprite_left(counter), self.dmc_left(),
        via Self::dma_run_ends
    {
        if !self.dma_busy() || !self.dma_aligned(counter) {
            self
        } else {
            let next = self.dma_step(pending, counter, byte);
            next.0.dma_run(pending, next.1, next.2)
        }
    }

    #[via_fn]
    proof fn dma_run_ends(self, pending: u16, counter: int, byte: u8) {
        if self.dma_busy() && self.dma_aligned(counter) {
            lemma_dma_step(self, pending, counter, byte);
        }
    }

    /// Pending DMA, ahead of a read of `pending`: one halt cycle, then the transfers.
    #[verifier::opaque]
    pub open spec fn dma_done(self, pending: u16) -> BusState<M, P> {
        if self.in_dma_loop {
            self
        } else {
            let halted = BusState { in_dma_loop: true, need_halt: false, ..self }.dma_read_cycle(pending);
            BusState { in_dma_loop: false, ..halted.dma_run(pending, 0, 0) }
        }
    }

    /// The bus as the CPU's own read of `addr` finds it.
    pub open spec fn released(self, addr: u16) -> BusState<M, P> {
        if self.need_halt {
            self.dma_done(addr)
        } else {
            self
        }
    }

    /// The byte a CPU read returns.
    pub open spec fn read_byte(self, addr: u16) -> u8 {
        self.released(addr).pre(true).bus_byte(addr)
    }

    /// The device at `addr` read onto the data lines. The status register does not drive them, so
    /// what was on them outlives a read of it.
    pub open spec fn driven(self, addr: u16) -> BusState<M, P> {
        BusState {
            open_bus: if addr == 0x4015 { self.open_bus } else { self.bus_byte(addr) },
            ..self.accessed(addr)
        }
    }

    /// A CPU read.
    pub open spec fn after_read(self, addr: u16) -> BusState<M, P> {
        self.released(addr).pre(true).driven(addr).post(true)
    }

    /// The byte a discarded CPU read returns.
    pub open spec fn dummy_byte(self, addr: u16) -> u8 {
        if 0x2000 <= addr < 0x4000 {
            let s = self.released(addr).pre(true);
            P::dummy_byte(s.ppu, s.mapper, addr)
        } else {
            self.read_byte(addr)
        }
    }

    /// A PPU register read and discarded.
    pub open spec fn dummy_driven(self, addr: u16) -> BusState<M, P> {
        let after = P::after_dummy_read(self.ppu, self.mapper, addr);
        BusState {
            ppu: after.0,
            mapper: after.1,
            open_bus: P::dummy_byte(self.ppu, self.mapper, addr),
            ..self
        }
    }

    /// A discarded CPU read: as any other, except that the PPU is told.
    pub open spec fn after_dummy_read(self, addr: u16) -> BusState<M, P> {
        if 0x2000 <= addr < 0x4000 {
            self.released(addr).pre(true).dummy_driven(addr).post(true)
        } else {
            self.after_read(addr)
        }
    }

    /// What a write does to the device at `addr`, sprite DMA apart.
    pub open spec fn stored(self, addr: u16, data: u8) -> BusState<M, P> {
        if addr < 0x2000 {
            BusState { ram: self.ram.update(addr as int % 0x800, data), ..self }
        } else if addr < 0x4000 {
            let after = P::after_write(self.ppu, self.mapper, addr, data);
            BusState { ppu: after.0, mapper: after.1, ..self }
        } else if addr == 0x4016 {
            BusState {
                controllers: seq![self.controllers[0].strobed(data), self.controllers[1].strobed(data)],
                ..self
            }
        } else if addr <= 0x4017 {
            BusState { apu: self.apu.wrote(addr, data), ..self }
        } else if addr < 0x4020 {
            self
        } else {
            BusState { mapper: M::after_cpu_write(self.mapper, addr, data), ..self }
        }
    }

    /// Sprite DMA of a page, with the interrupt lines that the CPU polls as they were.
    pub open spec fn sprite_dma_done(self, page: u8) -> BusState<M, P> {
        let armed = BusState { sprite_dma_running: true, sprite_dma_page: page, need_halt: true, ..self };
        BusState {
            prev_irq_line: self.prev_irq_line,
            prev_nmi_pending: self.prev_nmi_pending,
            ..armed.dma_done(0x4014)
        }
    }

    /// A CPU write. Writes do not wait for DMA; a write to `$4014` starts sprite DMA and returns
    /// when it is over.
    pub open spec fn after_write(self, addr: u16, data: u8) -> BusState<M, P> {
        let s = (BusState { open_bus: data, ..self }).pre(false);
        if addr == 0x4014 {
            s.post(false).sprite_dma_done(data)
        } else {
            s.stored(addr, data).post(false)
        }
    }

    pub open spec fn peeked(self, addr: u16) -> u8 {
        if addr < 0x2000 {
            self.ram[addr as int % 0x800]
        } else if addr < 0x6000 {
            0
        } else {
            M::peeked(self.mapper, addr)
        }
    }
}

/// What the first half of a cycle does to the clock and the DMA flags: the parity changes, and
/// a sample fetch may be armed where none is running.
pub proof fn lemma_pre<M: Mapper, P: Ppu<M>>(s: BusState<M, P>, is_read: bool)
    ensures
        ({
            let t = s.pre(is_read);
            &&& t.clock == s.clock.started(is_read)
            &&& t.get_cycle() != s.get_cycle()
            &&& t.sprite_dma_running == s.sprite_dma_running
            &&& t.sprite_dma_page == s.sprite_dma_page
            &&& t.in_dma_loop == s.in_dma_loop
            &&& t.ram == s.ram
            &&& t.open_bus == s.open_bus
            &&& t.controllers == s.controllers
            &&& t.need_halt == (s.need_halt || (t.dmc_dma_running && !s.dmc_dma_running))
            &&& t.need_dummy_read == (s.need_dummy_read || (t.dmc_dma_running && !s.dmc_dma_running))
            &&& s.dmc_dma_running ==> t.dmc_dma_running
            &&& s.apu.dmc.quiet() ==> t.apu.dmc.quiet() && t.dmc_dma_running == s.dmc_dma_running
        }),
{
    reveal(BusState::pre);
    lemma_tick_runs_dmc(s.apu);
    assert(wrap64(s.clock.cpu_cycles + 1) % 2 != s.clock.cpu_cycles % 2) by {
        if s.clock.cpu_cycles == u64::MAX {
            assert(wrap64(s.clock.cpu_cycles + 1) == 0);
        } else {
            assert(wrap64(s.clock.cpu_cycles + 1) == s.clock.cpu_cycles + 1);
        }
    }
}

/// What the second half of a cycle does to the clock and the DMA flags.
pub proof fn lemma_post<M: Mapper, P: Ppu<M>>(s: BusState<M, P>, is_read: bool)
    ensures
        ({
            let t = s.post(is_read);
            &&& t.clock == s.clock.ended(is_read)
            &&& t.get_cycle() == s.get_cycle()
            &&& t.sprite_dma_running == s.sprite_dma_running
            &&& t.sprite_dma_page == s.sprite_dma_page
            &&& t.in_dma_loop == s.in_dma_loop
            &&& t.ram == s.ram
            &&& t.open_bus == s.open_bus
            &&& t.controllers == s.controllers
            &&& t.need_halt == s.need_halt
            &&& t.need_dummy_read == s.need_dummy_read
            &&& t.dmc_dma_running == s.dmc_dma_running
            &&& t.apu == s.apu
        }),
{
    reveal(BusState::post);
}

/// `t` is `s` one cycle later, as far as DMA is concerned, but for the flags that the cycle's
/// own access changes.
pub open spec fn one_cycle_later<M: Mapper, P: Ppu<M>>(s: BusState<M, P>, t: BusState<M, P>) -> bool {
    &&& t.clock.cpu_cycles == wrap64(s.clock.cpu_cycles + 1)
    &&& t.get_cycle() != s.get_cycle()
    &&& t.sprite_dma_running == s.sprite_dma_running
    &&& t.sprite_dma_page == s.sprite_dma_page
    &&& t.in_dma_loop == s.in_dma_loop
    &&& t.ram == s.ram
    &&& t.need_halt == (s.need_halt || (t.dmc_dma_running && !s.dmc_dma_running))
    &&& t.need_dummy_read == (s.need_dummy_read || (t.dmc_dma_running && !s.dmc_dma_running))
    &&& s.dmc_dma_running ==> t.dmc_dma_running
    &&& s.apu.dmc.quiet() ==> t.apu.dmc.quiet() && t.dmc_dma_running == s.dmc_dma_running
}

#[verifier::rlimit(40)]
pub proof fn lemma_read_cycle<M: Mapper, P: Ppu<M>>(s: BusState<M, P>, addr: u16)
    ensures
        one_cycle_later(s, s.dma_read_cycle(addr)),
{
    reveal(BusState::dma_read_cycle);
    lemma_pre(s, true);
    lemma_post(s.pre(true).dma_read(addr), true);
}

pub proof fn lemma_wait_cycle<M: Mapper, P: Ppu<M>>(s: BusState<M, P>, pending: u16)
    ensures
        one_cycle_later(s, s.dma_wait_cycle(pending)),
{
    reveal(BusState::dma_wait_cycle);
    lemma_read_cycle(s, pending);
    lemma_pre(s, true);
    lemma_post(s.pre(true), true);
}

pub proof fn lemma_fetch_cycle<M: Mapper, P: Ppu<M>>(s: BusState<M, P>)
    requires
        s.dmc_dma_running,
    ensures
        one_cycle_later(s, (BusState { dmc_dma_running: true, ..s.dmc_fetch_cycle() })),
        !s.dmc_fetch_cycle().dmc_dma_running,
{
    reveal(BusState::dmc_fetch_cycle);
    lemma_pre(s, true);
    lemma_post(s.pre(true).sample_read(), true);
}

pub proof fn lemma_sprite_write_cycle<M: Mapper, P: Ppu<M>>(s: BusState<M, P>, byte: u8)
    ensures
        one_cycle_later(s, s.sprite_write_cycle(byte)),
{
    reveal(BusState::sprite_write_cycle);
    lemma_pre(s, false);
    lemma_post(s.pre(false).sprite_stored(byte), false);
}

/// A cycle of DMA keeps the transfer aligned and brings its end nearer.
pub proof fn lemma_dma_step<M: Mapper, P: Ppu<M>>(s: BusState<M, P>, pending: u16, counter: int, byte: u8)
    requires
        s.dma_busy(),
        s.dma_aligned(counter),
    ensures
        ({
            let next = s.dma_step(pending, counter, byte);
            &&& next.0.dma_aligned(next.1)
            &&& 0 <= next.0.sprite_left(next.1) <= s.sprite_left(counter)
            &&& 0 <= next.0.dmc_left()
            &&& next.0.sprite_left(next.1) == s.sprite_left(counter) ==> next.0.dmc_left() < s.dmc_left()
        }),
{
    reveal(BusState::dma_step);
    let cleared = s.flag_cleared();
    if s.get_cycle() {
        if s.dmc_dma_running && !s.flagged() {
            lemma_fetch_cycle(cleared);
        } else if s.sprite_dma_running {
            lemma_read_cycle(cleared, s.sprite_addr(counter));
        } else {
            lemma_wait_cycle(cleared, pending);
        }
    } else if s.sprite_dma_running && counter % 2 == 1 {
        lemma_sprite_write_cycle(cleared, byte);
    } else {
        lemma_wait_cycle(cleared, pending);
    }
}

} // verus!
