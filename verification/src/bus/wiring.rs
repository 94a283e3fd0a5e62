//! How the bus wires CPU, PPU, APU, controllers and cart together: which device answers which
//! address, who runs in a cycle, and how interrupts travel.
use vstd::prelude::*;

use crate::apu::Apu;
use crate::bus::controller::Controller;
use crate::bus::state::{
    after_dots, lemma_dma_step, lemma_fetch_cycle, lemma_post, lemma_pre, lemma_read_cycle,
    lemma_wait_cycle, BusState,
};
use crate::clock::{MasterClock, Region};
use crate::mapper::Mapper;
use crate::ppu::{HeadlessPpu, HeadlessPpuState, Ppu};

verus! {

/// Either half of a cycle leaves the interrupt line at what the two APU interrupts and the cart
/// together drive.
pub proof fn lemma_irq_line<M: Mapper, P: Ppu<M>>(s: BusState<M, P>, is_read: bool)
    ensures
        ({
            let t = s.post(is_read);
            t.irq_line == (t.apu.frame_irq || t.apu.dmc_irq || M::irq(t.mapper))
        }),
        ({
            let t = s.pre(is_read);
            t.irq_line == (t.apu.frame_irq || t.apu.dmc_irq || M::irq(t.mapper))
        }),
{
    reveal(BusState::pre);
    reveal(BusState::post);
}

/// After any CPU access the interrupt line is up exactly where the APU's frame interrupt, its
/// sample interrupt or the cart's interrupt is.
pub proof fn lemma_irq_reaches_cpu<M: Mapper, P: Ppu<M>>(s: BusState<M, P>, addr: u16, data: u8)
    ensures
        ({
            let t = s.after_read(addr);
            t.irq_line == (t.apu.frame_irq || t.apu.dmc_irq || M::irq(t.mapper))
        }),
        ({
            let t = s.after_dummy_read(addr);
            t.irq_line == (t.apu.frame_irq || t.apu.dmc_irq || M::irq(t.mapper))
        }),
        addr != 0x4014 ==> ({
            let t = s.after_write(addr, data);
            t.irq_line == (t.apu.frame_irq || t.apu.dmc_irq || M::irq(t.mapper))
        }),
{
    let r = s.released(addr).pre(true);
    lemma_irq_line(r.driven(addr), true);
    lemma_irq_line(r.dummy_driven(addr), true);
    let w = (BusState { open_bus: data, ..s }).pre(false);
    lemma_irq_line(w.stored(addr, data), false);
}

/// After sprite DMA too a cart's interrupt is on the line, and so is the frame interrupt.
pub proof fn lemma_irq_after_sprite_dma<M: Mapper, P: Ppu<M>>(s: BusState<M, P>, page: u8)
    ensures
        ({
            let t = s.after_write(0x4014, page);
            &&& M::irq(t.mapper) ==> t.irq_line
            &&& t.apu.frame_irq ==> t.irq_line
            &&& t.irq_line ==> t.apu.frame_irq || t.apu.dmc_irq || M::irq(t.mapper)
        }),
{
    reveal(BusState::dma_done);
    let a = (BusState { open_bus: page, ..s });
    lemma_irq_line(a.pre(false), false);
    let b = a.pre(false).post(false);
    let armed = (BusState { sprite_dma_running: true, sprite_dma_page: page, need_halt: true, ..b });
    if !armed.in_dma_loop {
        reveal(BusState::dma_read_cycle);
        let entered = (BusState { in_dma_loop: true, need_halt: false, ..armed });
        lemma_irq_line(entered.pre(true).dma_read(0x4014), true);
        lemma_irq_through_dma(entered.dma_read_cycle(0x4014), 0x4014, 0, 0);
    }
}

/// The line, but for a sample interrupt that a fetch has just raised.
spec fn irq_follows<M: Mapper, P: Ppu<M>>(s: BusState<M, P>) -> bool {
    &&& M::irq(s.mapper) ==> s.irq_line
    &&& s.apu.frame_irq ==> s.irq_line
    &&& s.irq_line ==> s.apu.frame_irq || s.apu.dmc_irq || M::irq(s.mapper)
}

proof fn lemma_irq_through_dma<M: Mapper, P: Ppu<M>>(s: BusState<M, P>, pending: u16, counter: int, byte: u8)
    requires
        irq_follows(s),
    ensures
        irq_follows(s.dma_run(pending, counter, byte)),
    decreases s.sprite_left(counter), s.dmc_left(),
{
    if s.dma_busy() && s.dma_aligned(counter) {
        lemma_dma_step(s, pending, counter, byte);
        lemma_irq_step(s, pending, counter, byte);
        let next = s.dma_step(pending, counter, byte);
        lemma_irq_through_dma(next.0, pending, next.1, next.2);
    }
}

proof fn lemma_irq_step<M: Mapper, P: Ppu<M>>(s: BusState<M, P>, pending: u16, counter: int, byte: u8)
    requires
        s.dma_busy(),
    ensures
        irq_follows(s.dma_step(pending, counter, byte).0),
{
    reveal(BusState::dma_step);
    reveal(BusState::dma_read_cycle);
    reveal(BusState::dma_wait_cycle);
    reveal(BusState::dmc_fetch_cycle);
    reveal(BusState::sprite_write_cycle);
    let c = s.flag_cleared();
    lemma_irq_line(c.pre(true).dma_read(s.sprite_addr(counter)), true);
    lemma_irq_line(c.pre(true).dma_read(pending), true);
    lemma_irq_line(c.pre(true), true);
    lemma_irq_line(c.pre(true).sample_read(), true);
    lemma_irq_line(c.pre(false).sprite_stored(byte), false);
}

/// `n` dots tick the PPU `n` times, one after the other, with the cart in reach.
pub proof fn lemma_dots_tick_the_ppu<M: Mapper, P: Ppu<M>>(ppu: P::V, cart: M::V, n: nat)
    ensures
        after_dots::<M, P>(ppu, cart, 0) == (ppu, cart),
        after_dots::<M, P>(ppu, cart, 1) == P::after_tick(ppu, cart),
        after_dots::<M, P>(ppu, cart, n + 1) == ({
            let (p, c) = after_dots::<M, P>(ppu, cart, n);
            P::after_tick(p, c)
        }),
{
    reveal_with_fuel(after_dots, 3);
}

/// The first half of a cycle counts one CPU cycle, runs the PPU's dots, then the APU and the cart
/// for one cycle, and remembers the interrupt lines as the last cycle left them.
pub proof fn lemma_start_of_cycle<M: Mapper, P: Ppu<M>>(s: BusState<M, P>, is_read: bool)
    ensures
        ({
            let t = s.pre(is_read);
            let ran = after_dots::<M, P>(
                s.ppu,
                s.mapper,
                s.clock.dots(s.clock.start_ticks(is_read)) as nat,
            );
            &&& t.ppu == ran.0
            &&& t.mapper == M::after_cpu_cycle(ran.1)
            &&& t.apu.cycle == s.apu.ticked().cycle
            &&& t.apu.pulse1 == s.apu.ticked().pulse1
            &&& t.apu.pulse2 == s.apu.ticked().pulse2
            &&& t.apu.triangle == s.apu.ticked().triangle
            &&& t.apu.noise == s.apu.ticked().noise
            &&& t.apu.frame_irq == s.apu.ticked().frame_irq
            &&& t.apu.dmc_irq == s.apu.ticked().dmc_irq
            &&& t.clock == s.clock.started(is_read)
            &&& t.prev_irq_line == s.irq_line
            &&& t.prev_nmi_pending == s.nmi_pending
            &&& t.nmi_pending == s.nmi_pending
            &&& t.prev_nmi_flag == s.prev_nmi_flag
            &&& t.audio == s.audio
            &&& t.ram == s.ram
            &&& t.open_bus == s.open_bus
            &&& t.controllers == s.controllers
        }),
{
    reveal(BusState::pre);
}

/// A sample byte that the APU asks for arms DMA with its address, once, and not while another
/// fetch is under way.
pub proof fn lemma_sample_request_arms_dma<M: Mapper, P: Ppu<M>>(s: BusState<M, P>, is_read: bool)
    ensures
        ({
            let t = s.pre(is_read);
            let asked = s.apu.ticked().dmc;
            &&& !s.dmc_dma_running && asked.request ==> t.dmc_dma_running && t.need_halt
                && t.need_dummy_read && t.dmc_dma_addr == asked.current_addr && !t.apu.dmc.request
            &&& s.dmc_dma_running || !asked.request ==> t.dmc_dma_running == s.dmc_dma_running
                && t.need_halt == s.need_halt && t.need_dummy_read == s.need_dummy_read
                && t.dmc_dma_addr == s.dmc_dma_addr && t.apu.dmc.request == asked.request
        }),
{
    reveal(BusState::pre);
}

/// The second half of a cycle runs the dots that are left, latches a rising interrupt of the PPU,
/// and hands the sound of the cycle to the sink; APU, RAM and controllers stay as they are.
pub proof fn lemma_end_of_cycle<M: Mapper, P: Ppu<M>>(s: BusState<M, P>, is_read: bool)
    ensures
        ({
            let t = s.post(is_read);
            let ran = after_dots::<M, P>(s.ppu, s.mapper, s.clock.dots(s.clock.end_ticks(is_read)) as nat);
            &&& t.ppu == ran.0
            &&& t.mapper == ran.1
            &&& t.clock == s.clock.ended(is_read)
            &&& t.nmi_pending == (s.nmi_pending || (P::nmi(ran.0) && !s.prev_nmi_flag))
            &&& t.prev_nmi_flag == P::nmi(ran.0)
            &&& s.audio is None ==> t.audio is None
            &&& s.audio is Some ==> t.audio is Some && t.audio->Some_0 == s.audio->Some_0.push(s.apu.levels())
            &&& t.apu == s.apu
            &&& t.ram == s.ram
            &&& t.controllers == s.controllers
            &&& t.open_bus == s.open_bus
            &&& t.prev_irq_line == s.prev_irq_line
            &&& t.prev_nmi_pending == s.prev_nmi_pending
            &&& t.need_halt == s.need_halt
            &&& t.dmc_dma_running == s.dmc_dma_running
            &&& t.dmc_dma_addr == s.dmc_dma_addr
        }),
{
    reveal(BusState::post);
}

/// A read of memory: console RAM repeats every 2 KiB below `$2000`, the PPU's registers answer up
/// to `$3FFF`, and from `$6000` on the cart does. The byte stays on the data lines.
pub proof fn lemma_reads_of_memory<M: Mapper, P: Ppu<M>>(s: BusState<M, P>, addr: u16)
    requires
        !s.need_halt,
    ensures
        ({
            let t = s.pre(true);
            &&& addr < 0x2000 ==> s.read_byte(addr) == s.ram[addr as int % 0x800] && s.after_read(addr)
                == (BusState { open_bus: s.ram[addr as int % 0x800], ..t }).post(true)
            &&& 0x2000 <= addr < 0x4000 ==> s.read_byte(addr) == P::read_byte(t.ppu, t.mapper, addr)
                && s.after_read(addr) == (BusState {
                ppu: P::after_read(t.ppu, t.mapper, addr).0,
                mapper: P::after_read(t.ppu, t.mapper, addr).1,
                open_bus: P::read_byte(t.ppu, t.mapper, addr),
                ..t
            }).post(true)
            &&& addr >= 0x6000 ==> s.read_byte(addr) == M::cpu_byte(t.mapper, addr) && s.after_read(addr)
                == (BusState {
                mapper: M::after_cpu_read(t.mapper, addr),
                open_bus: M::cpu_byte(t.mapper, addr),
                ..t
            }).post(true)
        }),
{
    lemma_start_of_cycle(s, true);
}

/// A read of `$4020-$5FFF`: the cart may answer, and otherwise the data lines keep what they had.
pub proof fn lemma_reads_of_expansion<M: Mapper, P: Ppu<M>>(s: BusState<M, P>, addr: u16)
    requires
        !s.need_halt,
        0x4020 <= addr < 0x6000,
    ensures
        ({
            let t = s.pre(true);
            let byte = s.read_byte(addr);
            &&& M::expansion_byte(t.mapper, addr) is Some ==> byte == M::expansion_byte(t.mapper, addr)->Some_0
            &&& M::expansion_byte(t.mapper, addr) is None ==> byte == s.open_bus
            &&& s.after_read(addr) == (BusState {
                mapper: M::after_expansion_read(t.mapper, addr),
                open_bus: byte,
                ..t
            }).post(true)
        }),
{
    lemma_start_of_cycle(s, true);
}

/// A read of the status register gives the APU's status, with bit 5 from the data lines, ends the
/// frame interrupt and leaves the data lines alone.
pub proof fn lemma_read_of_status<M: Mapper, P: Ppu<M>>(s: BusState<M, P>)
    requires
        !s.need_halt,
    ensures
        ({
            let t = s.pre(true);
            &&& s.read_byte(0x4015) & 0xDF == t.apu.status() & 0xDF
            &&& s.read_byte(0x4015) & 0x20 == s.open_bus & 0x20
            &&& s.after_read(0x4015) == (BusState { apu: Apu { frame_irq: false, ..t.apu }, ..t }).post(true)
        }),
{
    lemma_start_of_cycle(s, true);
    let a = s.pre(true).apu.status();
    let o = s.open_bus;
    assert(((a & 0xDF) | (o & 0x20)) & 0xDF == a & 0xDF && ((a & 0xDF) | (o & 0x20)) & 0x20 == o & 0x20)
        by (bit_vector);
}

/// A read of a controller port gives that controller's bit, bits 5 and 7 of the data lines and a
/// set bit 6, and moves that controller on and no other.
pub proof fn lemma_reads_of_controllers<M: Mapper, P: Ppu<M>>(s: BusState<M, P>, port: int)
    requires
        !s.need_halt,
        s.controllers.len() == 2,
        port == 0 || port == 1,
    ensures
        ({
            let addr = (0x4016 + port) as u16;
            let byte = s.read_byte(addr);
            &&& byte & 0x01 == s.controllers[port].shifter & 1
            &&& byte & 0x1E == 0
            &&& byte & 0x40 == 0x40
            &&& byte & 0xA0 == s.open_bus & 0xA0
            &&& s.after_read(addr).controllers[port] == s.controllers[port].shifted()
            &&& s.after_read(addr).controllers[1 - port] == s.controllers[1 - port]
            &&& s.after_read(addr).open_bus == byte
        }),
{
    lemma_start_of_cycle(s, true);
    let addr = (0x4016 + port) as u16;
    lemma_end_of_cycle(s.pre(true).driven(addr), true);
    let c = s.controllers[port].shifter;
    let o = s.open_bus;
    let byte = (o & 0xA0) | 0x40 | ((c & 1) & 1);
    assert(byte & 0x01 == c & 1 && byte & 0x1E == 0 && byte & 0x40 == 0x40 && byte & 0xA0 == o & 0xA0)
        by (bit_vector)
        requires
            byte == (o & 0xA0) | 0x40 | ((c & 1) & 1),
    ;
}

/// A read that nothing decodes gives back what is on the data lines and disturbs nothing.
pub proof fn lemma_reads_of_nothing<M: Mapper, P: Ppu<M>>(s: BusState<M, P>, addr: u16)
    requires
        !s.need_halt,
        0x4000 <= addr < 0x4015 || 0x4018 <= addr < 0x4020,
    ensures
        s.read_byte(addr) == s.open_bus,
        s.after_read(addr) == s.pre(true).post(true),
{
    lemma_start_of_cycle(s, true);
}

/// The discarded read of an instruction is an ordinary read, except that the PPU is asked in its
/// own way.
pub proof fn lemma_discarded_reads<M: Mapper, P: Ppu<M>>(s: BusState<M, P>, addr: u16)
    requires
        !s.need_halt,
    ensures
        ({
            let t = s.pre(true);
            &&& addr < 0x2000 || addr >= 0x4000 ==> s.dummy_byte(addr) == s.read_byte(addr)
                && s.after_dummy_read(addr) == s.after_read(addr)
            &&& 0x2000 <= addr < 0x4000 ==> s.dummy_byte(addr) == P::dummy_byte(t.ppu, t.mapper, addr)
                && s.after_dummy_read(addr) == (BusState {
                ppu: P::after_dummy_read(t.ppu, t.mapper, addr).0,
                mapper: P::after_dummy_read(t.ppu, t.mapper, addr).1,
                open_bus: P::dummy_byte(t.ppu, t.mapper, addr),
                ..t
            }).post(true)
        }),
{
}

/// A write reaches the device that the address names and no other, and its byte stays on the data
/// lines.
pub proof fn lemma_writes<M: Mapper, P: Ppu<M>>(s: BusState<M, P>, addr: u16, data: u8)
    requires
        s.controllers.len() == 2,
    ensures
        ({
            let t = (BusState { open_bus: data, ..s }).pre(false);
            let after = s.after_write(addr, data);
            &&& addr != 0x4014 ==> after.open_bus == data
            &&& addr < 0x2000 ==> after == (BusState {
                ram: s.ram.update(addr as int % 0x800, data),
                ..t
            }).post(false)
            &&& 0x2000 <= addr < 0x4000 ==> after == (BusState {
                ppu: P::after_write(t.ppu, t.mapper, addr, data).0,
                mapper: P::after_write(t.ppu, t.mapper, addr, data).1,
                ..t
            }).post(false)
            &&& 0x4000 <= addr < 0x4014 || addr == 0x4015 || addr == 0x4017 ==> after == (BusState {
                apu: t.apu.wrote(addr, data),
                ..t
            }).post(false)
            &&& addr == 0x4016 ==> after.controllers[0] == s.controllers[0].strobed(data)
                && after.controllers[1] == s.controllers[1].strobed(data) && after.apu == t.apu
            &&& 0x4018 <= addr < 0x4020 ==> after == t.post(false)
            &&& addr >= 0x4020 ==> after == (BusState {
                mapper: M::after_cpu_write(t.mapper, addr, data),
                ..t
            }).post(false)
        }),
{
    let a = (BusState { open_bus: data, ..s });
    lemma_start_of_cycle(a, false);
    lemma_end_of_cycle(a.pre(false).stored(addr, data), false);
}

/// A look at memory shows RAM and the cart as a read would, and nothing in between.
pub proof fn lemma_peeks<M: Mapper, P: Ppu<M>>(s: BusState<M, P>, addr: u16)
    ensures
        addr < 0x2000 ==> s.peeked(addr) == s.ram[addr as int % 0x800],
        0x2000 <= addr < 0x6000 ==> s.peeked(addr) == 0,
        addr >= 0x6000 ==> s.peeked(addr) == M::peeked(s.mapper, addr),
        addr < 0x2000 && !s.need_halt ==> s.peeked(addr) == s.read_byte(addr),
{
    lemma_start_of_cycle(s, true);
}

/// The cycle of a sample fetch reads the cart at the sample's address, puts the byte on the data
/// lines and hands it to the APU, which ends the fetch.
pub proof fn lemma_sample_fetch<M: Mapper, P: Ppu<M>>(s: BusState<M, P>)
    requires
        s.dmc_dma_running,
    ensures
        ({
            let t = s.pre(true);
            let byte = M::cpu_byte(t.mapper, s.dmc_dma_addr);
            let after = s.dmc_fetch_cycle();
            &&& after.apu == t.apu.fetched(byte)
            &&& after.open_bus == byte
            &&& !after.dmc_dma_running
            &&& after.controllers == s.controllers
            &&& after.ram == s.ram
        }),
{
    reveal(BusState::dmc_fetch_cycle);
    lemma_start_of_cycle(s, true);
    lemma_sample_request_arms_dma(s, true);
    lemma_end_of_cycle(s.pre(true).sample_read(), true);
}

/// DMA that waits repeats the read it holds up, but never shifts a controller.
pub proof fn lemma_waiting_dma<M: Mapper, P: Ppu<M>>(s: BusState<M, P>, pending: u16)
    ensures
        s.dma_wait_cycle(pending).controllers == s.controllers,
        pending == 0x4016 || pending == 0x4017 ==> s.dma_wait_cycle(pending) == s.pre(true).post(true),
        pending >= 0x6000 ==> s.dma_wait_cycle(pending) == (BusState {
            mapper: M::after_cpu_read(s.pre(true).mapper, pending),
            open_bus: M::cpu_byte(s.pre(true).mapper, pending),
            ..s.pre(true)
        }).post(true),
        0x2000 <= pending < 0x4000 ==> s.dma_wait_cycle(pending) == (BusState {
            ppu: P::after_read(s.pre(true).ppu, s.pre(true).mapper, pending).0,
            mapper: P::after_read(s.pre(true).ppu, s.pre(true).mapper, pending).1,
            open_bus: P::read_byte(s.pre(true).ppu, s.pre(true).mapper, pending),
            ..s.pre(true)
        }).post(true),
{
    reveal(BusState::dma_wait_cycle);
    reveal(BusState::dma_read_cycle);
    lemma_start_of_cycle(s, true);
    lemma_end_of_cycle(s.pre(true).dma_read(pending), true);
    lemma_end_of_cycle(s.pre(true), true);
}

/// A read that DMA holds up shifts its controller once for the halt and once for itself.
pub proof fn lemma_held_up_controller<M: Mapper, P: Ppu<M>>(s: BusState<M, P>, port: int)
    requires
        s.need_halt,
        !s.in_dma_loop,
        s.controllers.len() == 2,
        port == 0 || port == 1,
    ensures
        s.released((0x4016 + port) as u16).controllers =~= s.controllers.update(
            port,
            s.controllers[port].shifted(),
        ) || s.sprite_dma_running,
{
    if !s.sprite_dma_running {
        reveal(BusState::dma_done);
        let addr = (0x4016 + port) as u16;
        let entered = (BusState { in_dma_loop: true, need_halt: false, ..s });
        reveal(BusState::dma_read_cycle);
        lemma_start_of_cycle(entered, true);
        lemma_read_cycle(entered, addr);
        lemma_end_of_cycle(entered.pre(true).dma_read(addr), true);
        lemma_sample_dma_keeps_controllers(entered.dma_read_cycle(addr), addr, 0, 0);
    }
}

proof fn lemma_sample_dma_keeps_controllers<M: Mapper, P: Ppu<M>>(
    s: BusState<M, P>,
    pending: u16,
    counter: int,
    byte: u8,
)
    requires
        !s.sprite_dma_running,
    ensures
        s.dma_run(pending, counter, byte).controllers == s.controllers,
    decreases s.sprite_left(counter), s.dmc_left(),
{
    if s.dma_busy() && s.dma_aligned(counter) {
        lemma_dma_step(s, pending, counter, byte);
        reveal(BusState::dma_step);
        let c = s.flag_cleared();
        if s.get_cycle() && !s.flagged() {
            lemma_sample_fetch(c);
            lemma_fetch_cycle(c);
        } else {
            lemma_waiting_dma(c, pending);
            lemma_wait_cycle(c, pending);
        }
        let next = s.dma_step(pending, counter, byte);
        lemma_sample_dma_keeps_controllers(next.0, pending, next.1, next.2);
    }
}

/// A cycle of DMA, by its place: an even one fetches the sample that is due, else reads the next sprite
/// byte of the page, else waits; an odd one stores the sprite byte that was read, else waits. A due halt
/// or dummy read is burnt first, and puts the sample off.
pub proof fn lemma_dma_cycle<M: Mapper, P: Ppu<M>>(s: BusState<M, P>, pending: u16, counter: int, byte: u8)
    requires
        s.dmc_dma_running || s.sprite_dma_running,
        0 <= counter < 0x200,
    ensures
        ({
            let even = s.clock.cpu_cycles % 2 == 0;
            let held = s.need_halt || s.need_dummy_read;
            let c = (BusState { need_halt: false, need_dummy_read: s.need_halt && s.need_dummy_read, ..s });
            let next = s.dma_step(pending, counter, byte);
            let addr = (s.sprite_dma_page * 0x100 + counter / 2) as u16;
            let t = c.pre(true);
            &&& even && s.dmc_dma_running && !held ==> next == (c.dmc_fetch_cycle(), counter, byte)
            &&& even && !(s.dmc_dma_running && !held) && s.sprite_dma_running ==> next == (
                (BusState { open_bus: t.bus_byte(addr), ..t.accessed(addr) }).post(true),
                counter + 1,
                t.bus_byte(addr),
            )
            &&& even && !(s.dmc_dma_running && !held) && !s.sprite_dma_running ==> next == (
                c.dma_wait_cycle(pending),
                counter,
                byte,
            )
            &&& !even && s.sprite_dma_running && counter % 2 == 1 ==> next.1 == counter + 1 && next.0.sprite_dma_running
                == (counter < 0x1FF) && next.0.ppu == ({
                let w = c.pre(false);
                let stored = P::after_write(w.ppu, w.mapper, 0x2004, byte);
                (BusState { ppu: stored.0, mapper: stored.1, open_bus: byte, ..w }).post(false).ppu
            })
            &&& !even && !(s.sprite_dma_running && counter % 2 == 1) ==> next == (
                c.dma_wait_cycle(pending),
                counter,
                byte,
            )
        }),
{
    reveal(BusState::dma_step);
    reveal(BusState::dma_read_cycle);
    reveal(BusState::sprite_write_cycle);
    let c = (BusState { need_halt: false, need_dummy_read: s.need_halt && s.need_dummy_read, ..s });
    assert(s.flag_cleared() == c);
}

/// DMA comes before the read that it holds up: one cycle that repeats that read, then cycles of DMA
/// until nothing is left, and then the read itself. Writes are never held up.
pub proof fn lemma_dma_before_read<M: Mapper, P: Ppu<M>>(s: BusState<M, P>, addr: u16)
    requires
        !s.in_dma_loop,
    ensures
        !s.need_halt ==> s.released(addr) == s,
        s.need_halt ==> ({
            let entered = (BusState { in_dma_loop: true, need_halt: false, ..s });
            let halted = entered.dma_read_cycle(addr);
            s.released(addr) == (BusState { in_dma_loop: false, ..halted.dma_run(addr, 0, 0) })
        }),
{
    reveal(BusState::dma_done);
}

/// A machine at power-on: blank RAM, the cart as it is given, every device in its own first state,
/// and no interrupt or transfer pending.
pub proof fn lemma_bus_power_on<M: Mapper, P: Ppu<M>>(cart: M::V, region: Region, id: u16)
    ensures
        ({
            let s = BusState::<M, P>::power_on(cart, region, id);
            &&& s.ram.len() == 0x800
            &&& forall|i: int| 0 <= i < 0x800 ==> s.ram[i] == 0
            &&& s.mapper == cart
            &&& s.mapper_id == id
            &&& s.clock == MasterClock::power_on(region)
            &&& s.ppu == P::power_on(region)
            &&& s.apu == Apu::power_on(region)
            &&& s.controllers =~= seq![
                Controller { buttons: 0, strobe: false, shifter: 0 },
                Controller { buttons: 0, strobe: false, shifter: 0 },
            ]
            &&& !s.irq_line && !s.nmi_pending && !s.prev_irq_line && !s.prev_nmi_pending && !s.prev_nmi_flag
            &&& !s.need_halt && !s.need_dummy_read && !s.dmc_dma_running && !s.sprite_dma_running
            &&& !s.in_dma_loop && s.open_bus == 0 && s.audio is None
        }),
{
}

/// Sprite memory of the headless PPU: what is stored through the data port is read back there, the
/// address moves on with every store and around after 256, and the other registers do nothing.
pub proof fn lemma_sprite_ports<M: Mapper>(s: HeadlessPpuState, cart: M::V, at: u8, data: u8, reg: u16)
    requires
        s.oam.len() == 256,
        reg % 8 != 3,
        reg % 8 != 4,
    ensures
        ({
            let there = <HeadlessPpu as Ppu<M>>::after_write(s, cart, 0x2003, at).0;
            let stored = <HeadlessPpu as Ppu<M>>::after_write(there, cart, 0x2004, data).0;
            let back = <HeadlessPpu as Ppu<M>>::after_write(stored, cart, 0x2003, at).0;
            &&& <HeadlessPpu as Ppu<M>>::read_byte(back, cart, 0x2004) == data
            &&& <HeadlessPpu as Ppu<M>>::dummy_byte(back, cart, 0x2004) == data
            &&& stored.oam_addr == (at + 1) % 256
            &&& forall|i: int| 0 <= i < 256 && i != at ==> stored.oam[i] == s.oam[i]
            &&& <HeadlessPpu as Ppu<M>>::after_write(s, cart, reg, data) == (s, cart)
            &&& <HeadlessPpu as Ppu<M>>::read_byte(s, cart, reg) == 0
            &&& <HeadlessPpu as Ppu<M>>::after_read(s, cart, reg) == (s, cart)
            &&& <HeadlessPpu as Ppu<M>>::after_tick(s, cart) == (s, cart)
            &&& !<HeadlessPpu as Ppu<M>>::nmi(s)
        }),
{
}

} // verus!
