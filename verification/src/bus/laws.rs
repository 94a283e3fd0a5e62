//! What holds of the bus as a whole.
use vstd::prelude::*;

use crate::bus::state::{
    after_dots, lemma_dma_step, lemma_fetch_cycle, lemma_post, lemma_pre, lemma_read_cycle,
    lemma_sprite_write_cycle, lemma_wait_cycle, BusState,
};
use crate::bus::{bus_restored, bus_snapshot};
use crate::clock::wrap64;
use crate::mapper::Mapper;
use crate::ppu::{HeadlessPpu, HeadlessPpuState, Ppu};
use crate::save_state::bus::BusSnap;

verus! {

/// A snapshot brings back everything but the PPU, the APU, the cart and the audio sink, however
/// far the bus has run since.
pub proof fn lemma_bus_round_trip<M: Mapper, P: Ppu<M>>(
    s: BusState<M, P>,
    later: BusState<M, P>,
    snap: BusSnap,
)
    requires
        s.ok(),
        bus_snapshot(snap, s),
        later.clock.region == s.clock.region,
        later.mapper_id == s.mapper_id,
    ensures
        bus_restored(later, snap) == (BusState {
            ppu: later.ppu,
            apu: later.apu,
            mapper: later.mapper,
            audio: later.audio,
            ..s
        }),
{
    assert(bus_restored(later, snap).controllers =~= s.controllers);
}

proof fn lemma_wrap64_steps(n: u64, k: int)
    requires
        0 <= k,
    ensures
        wrap64(wrap64(n + 1) + k) == wrap64(n + 1 + k),
{
}

/// With no sample wanted, the rest of a sprite transfer takes a cycle per half-step, and one
/// more where it has to wait for a read cycle.
proof fn lemma_quiet_run<M: Mapper, P: Ppu<M>>(s: BusState<M, P>, pending: u16, counter: int, byte: u8)
    requires
        s.sprite_dma_running,
        !s.dmc_dma_running,
        s.apu.dmc.quiet(),
        s.dma_aligned(counter),
    ensures
        ({
            let wait = if counter % 2 == 0 && !s.get_cycle() { 1int } else { 0 };
            let t = s.dma_run(pending, counter, byte);
            &&& t.clock.cpu_cycles == wrap64(s.clock.cpu_cycles + 0x200 - counter + wait)
            &&& !t.dma_busy()
        }),
    decreases s.sprite_left(counter), s.dmc_left(),
{
    lemma_dma_step(s, pending, counter, byte);
    lemma_quiet_step(s, pending, counter, byte);
    let next = s.dma_step(pending, counter, byte);
    assert(s.dma_run(pending, counter, byte) == next.0.dma_run(pending, next.1, next.2));
    if next.0.sprite_dma_running {
        lemma_quiet_run(next.0, pending, next.1, next.2);
        let wait = if next.1 % 2 == 0 && !next.0.get_cycle() { 1int } else { 0 };
        lemma_wrap64_steps(s.clock.cpu_cycles, 0x200 - next.1 + wait);
    } else {
        assert(next.0.dma_run(pending, next.1, next.2) == next.0);
    }
}

proof fn lemma_quiet_step<M: Mapper, P: Ppu<M>>(s: BusState<M, P>, pending: u16, counter: int, byte: u8)
    requires
        s.sprite_dma_running,
        !s.dmc_dma_running,
        s.apu.dmc.quiet(),
        s.dma_aligned(counter),
    ensures
        ({
            let next = s.dma_step(pending, counter, byte);
            &&& next.0.clock.cpu_cycles == wrap64(s.clock.cpu_cycles + 1)
            &&& next.0.get_cycle() != s.get_cycle()
            &&& next.1 == (if s.get_cycle() || counter % 2 == 1 { counter + 1 } else { counter })
            &&& next.0.sprite_dma_running == (next.1 < 0x200)
            &&& !next.0.dmc_dma_running
            &&& next.0.apu.dmc.quiet()
        }),
{
    reveal(BusState::dma_step);
    let cleared = s.flag_cleared();
    if s.get_cycle() {
        lemma_read_cycle(cleared, s.sprite_addr(counter));
    } else if counter % 2 == 1 {
        lemma_sprite_write_cycle(cleared, byte);
    } else {
        lemma_wait_cycle(cleared, pending);
    }
}

/// With no sample wanted, a write to `$4014` takes its own cycle and 513 more, or 514 where the
/// write falls on an odd cycle.
pub proof fn lemma_sprite_dma_cycles<M: Mapper, P: Ppu<M>>(s: BusState<M, P>, page: u8)
    requires
        s.apu.dmc.quiet(),
        !s.dmc_dma_running,
        !s.in_dma_loop,
    ensures
        s.after_write(0x4014, page).clock.cpu_cycles == wrap64(
            s.clock.cpu_cycles + (if s.get_cycle() { 514int } else { 515 }),
        ),
        !s.after_write(0x4014, page).dma_busy(),
{
    reveal(BusState::dma_done);
    let a = (BusState { open_bus: page, ..s });
    lemma_pre(a, false);
    lemma_post(a.pre(false), false);
    let b = a.pre(false).post(false);
    let armed = (BusState { sprite_dma_running: true, sprite_dma_page: page, need_halt: true, ..b });
    let entered = (BusState { in_dma_loop: true, need_halt: false, ..armed });
    lemma_read_cycle(entered, 0x4014);
    let halted = entered.dma_read_cycle(0x4014);
    lemma_quiet_run(halted, 0x4014, 0, 0);
    let wait = if !halted.get_cycle() { 1int } else { 0 };
    lemma_wrap64_steps(s.clock.cpu_cycles, 1);
    lemma_wrap64_steps(s.clock.cpu_cycles, 1 + 0x200 + wait);
    lemma_wrap64_steps(b.clock.cpu_cycles, 0x200 + wait);
}

/// A sample fetch on its own holds a read up for 4 cycles, or for 3 where the read falls on an
/// even cycle.
#[verifier::rlimit(40)]
pub proof fn lemma_sample_dma_cycles<M: Mapper, P: Ppu<M>>(s: BusState<M, P>, addr: u16)
    requires
        s.dmc_dma_running,
        s.need_halt,
        s.need_dummy_read,
        !s.sprite_dma_running,
        !s.in_dma_loop,
    ensures
        s.released(addr).clock.cpu_cycles == wrap64(
            s.clock.cpu_cycles + (if s.get_cycle() { 3int } else { 4 }),
        ),
        !s.released(addr).dma_busy(),
{
    reveal(BusState::dma_step);
    reveal(BusState::dma_done);
    let entered = (BusState { in_dma_loop: true, need_halt: false, ..s });
    lemma_read_cycle(entered, addr);
    let h = entered.dma_read_cycle(addr);
    let h1 = h.flag_cleared();
    lemma_wait_cycle(h1, addr);
    let w1 = h1.dma_wait_cycle(addr);
    assert(h.dma_step(addr, 0, 0) == (w1, 0int, 0u8));
    let w1c = w1.flag_cleared();
    lemma_dma_step(h, addr, 0, 0);
    assert(h.dma_run(addr, 0, 0) == w1.dma_run(addr, 0, 0));
    lemma_wrap64_steps(s.clock.cpu_cycles, 1);
    lemma_wrap64_steps(s.clock.cpu_cycles, 2);
    lemma_wrap64_steps(s.clock.cpu_cycles, 3);
    lemma_wrap64_steps(h.clock.cpu_cycles, 1);
    lemma_wrap64_steps(h.clock.cpu_cycles, 2);
    lemma_wrap64_steps(w1.clock.cpu_cycles, 1);
    if w1.get_cycle() {
        lemma_fetch_then_done(w1, addr);
    } else {
        lemma_wait_cycle(w1c, addr);
        let w2 = w1c.dma_wait_cycle(addr);
        assert(w1.dma_step(addr, 0, 0) == (w2, 0int, 0u8));
        lemma_dma_step(w1, addr, 0, 0);
        assert(w1.dma_run(addr, 0, 0) == w2.dma_run(addr, 0, 0));
        lemma_fetch_then_done(w2, addr);
    }
}

proof fn lemma_fetch_then_done<M: Mapper, P: Ppu<M>>(s: BusState<M, P>, addr: u16)
    requires
        s.dmc_dma_running,
        !s.flagged(),
        !s.sprite_dma_running,
        s.get_cycle(),
    ensures
        s.dma_run(addr, 0, 0).clock.cpu_cycles == wrap64(s.clock.cpu_cycles + 1),
        !s.dma_run(addr, 0, 0).dma_busy(),
{
    reveal(BusState::dma_step);
    let c = s.flag_cleared();
    lemma_fetch_cycle(c);
    lemma_dma_step(s, addr, 0, 0);
    let f = c.dmc_fetch_cycle();
    assert(s.dma_step(addr, 0, 0) == (f, 0int, 0u8));
    assert(s.dma_run(addr, 0, 0) == f.dma_run(addr, 0, 0));
    assert(f.dma_run(addr, 0, 0) == f);
}

/// DMA never writes the console's RAM.
pub proof fn lemma_dma_keeps_ram<M: Mapper, P: Ppu<M>>(s: BusState<M, P>, pending: u16, counter: int, byte: u8)
    ensures
        s.dma_run(pending, counter, byte).ram == s.ram,
    decreases s.sprite_left(counter), s.dmc_left(),
{
    if s.dma_busy() && s.dma_aligned(counter) {
        lemma_dma_step(s, pending, counter, byte);
        lemma_step_keeps_ram(s, pending, counter, byte);
        let next = s.dma_step(pending, counter, byte);
        lemma_dma_keeps_ram(next.0, pending, next.1, next.2);
    }
}

proof fn lemma_step_keeps_ram<M: Mapper, P: Ppu<M>>(s: BusState<M, P>, pending: u16, counter: int, byte: u8)
    requires
        s.dma_busy(),
    ensures
        s.dma_step(pending, counter, byte).0.ram == s.ram,
{
    reveal(BusState::dma_step);
    let cleared = s.flag_cleared();
    if s.get_cycle() {
        if s.dmc_dma_running && !s.flagged() {
            lemma_fetch_cycle(cleared);
        } else if s.sprite_dma_running {
            lemma_read_cycle(cleared, s.sprite_addr(counter));
        } else {
            lemma_wait_cycle(cleared, pending);
        }
    } else if s.sprite_dma_running && counter % 2 == 1 {
        lemma_sprite_write_cycle(cleared, byte);
    } else {
        lemma_wait_cycle(cleared, pending);
    }
}

proof fn lemma_released_keeps_ram<M: Mapper, P: Ppu<M>>(s: BusState<M, P>, addr: u16)
    ensures
        s.released(addr).ram == s.ram,
{
    reveal(BusState::dma_done);
    if s.need_halt && !s.in_dma_loop {
        let entered = (BusState { in_dma_loop: true, need_halt: false, ..s });
        lemma_read_cycle(entered, addr);
        lemma_dma_keeps_ram(entered.dma_read_cycle(addr), addr, 0, 0);
    }
}

/// RAM gives back what was last stored, at every address that mirrors it, whatever DMA comes
/// in between.
pub proof fn lemma_ram_read_back<M: Mapper, P: Ppu<M>>(s: BusState<M, P>, stored_at: u16, read_at: u16, data: u8)
    requires
        s.ok(),
        stored_at < 0x2000,
        read_at < 0x2000,
        stored_at as int % 0x800 == read_at as int % 0x800,
    ensures
        s.after_write(stored_at, data).read_byte(read_at) == data,
{
    let a = (BusState { open_bus: data, ..s });
    lemma_pre(a, false);
    let b = a.pre(false).stored(stored_at, data);
    lemma_post(b, false);
    let c = b.post(false);
    lemma_released_keeps_ram(c, read_at);
    lemma_pre(c.released(read_at), true);
}

/// An address that nothing decodes reads as what the data lines last carried; a write puts its
/// byte there, and a read of the status register leaves it alone.
pub proof fn lemma_open_bus<M: Mapper, P: Ppu<M>>(s: BusState<M, P>, addr: u16, data: u8)
    requires
        !s.need_halt,
        0x4018 <= addr < 0x4020,
    ensures
        s.read_byte(addr) == s.open_bus,
        s.after_write(addr, data).open_bus == data,
        s.after_read(0x4015).open_bus == s.open_bus,
{
    lemma_pre(s, true);
    lemma_post(s.pre(true).driven(0x4015), true);
    let a = (BusState { open_bus: data, ..s });
    lemma_pre(a, false);
    lemma_post(a.pre(false).stored(addr, data), false);
}

/// The CPU polls the interrupt lines as the cycle before left them. Sprite DMA does not change what
/// it polls: the write that starts it counts as one cycle.
pub proof fn lemma_polled_lines<M: Mapper, P: Ppu<M>>(s: BusState<M, P>, addr: u16, data: u8)
    requires
        !s.need_halt,
        addr != 0x4014,
    ensures
        s.after_read(addr).prev_irq_line == s.irq_line,
        s.after_read(addr).prev_nmi_pending == s.nmi_pending,
        s.after_write(addr, data).prev_irq_line == s.irq_line,
        s.after_write(addr, data).prev_nmi_pending == s.nmi_pending,
        s.after_write(0x4014, data).prev_irq_line == s.irq_line,
        s.after_write(0x4014, data).prev_nmi_pending == s.nmi_pending,
{
    lemma_polled_pre(s, true);
    lemma_polled_post(s.pre(true).driven(addr), true);
    let a = (BusState { open_bus: data, ..s });
    lemma_polled_pre(a, false);
    lemma_polled_post(a.pre(false).stored(addr, data), false);
    lemma_polled_post(a.pre(false), false);
}

proof fn lemma_polled_pre<M: Mapper, P: Ppu<M>>(s: BusState<M, P>, is_read: bool)
    ensures
        s.pre(is_read).prev_irq_line == s.irq_line,
        s.pre(is_read).prev_nmi_pending == s.nmi_pending,
{
    reveal(BusState::pre);
}

proof fn lemma_polled_post<M: Mapper, P: Ppu<M>>(s: BusState<M, P>, is_read: bool)
    ensures
        s.post(is_read).prev_irq_line == s.prev_irq_line,
        s.post(is_read).prev_nmi_pending == s.prev_nmi_pending,
{
    reveal(BusState::post);
}

/// An interrupt of the PPU is latched when its output rises from one cycle to the next, and stays
/// latched.
pub proof fn lemma_nmi_edge<M: Mapper, P: Ppu<M>>(s: BusState<M, P>, is_read: bool)
    ensures
        ({
            let t = s.post(is_read);
            &&& t.nmi_pending == (s.nmi_pending || (P::nmi(t.ppu) && !s.prev_nmi_flag))
            &&& t.prev_nmi_flag == P::nmi(t.ppu)
        }),
{
    reveal(BusState::post);
}

proof fn lemma_headless_dots<M: Mapper>(ppu: HeadlessPpuState, cart: M::V, n: nat)
    ensures
        after_dots::<M, HeadlessPpu>(ppu, cart, n) == (ppu, cart),
    decreases n,
{
    if n > 0 {
        lemma_headless_dots::<M>(ppu, cart, (n - 1) as nat);
    }
}

proof fn lemma_headless_cycle<M: Mapper>(s: BusState<M, HeadlessPpu>, is_read: bool)
    ensures
        s.pre(is_read).ppu == s.ppu,
        s.post(is_read).ppu == s.ppu,
{
    reveal(BusState::pre);
    reveal(BusState::post);
    let a = s.begun(is_read);
    lemma_headless_dots::<M>(a.ppu, a.mapper, s.clock.dots(s.clock.start_ticks(is_read)) as nat);
    lemma_headless_dots::<M>(s.ppu, s.mapper, s.clock.dots(s.clock.end_ticks(is_read)) as nat);
}

/// Sprite memory when the first `n` bytes of a page have been stored from `first` on.
pub open spec fn oam_with(before: Seq<u8>, first: u8, page: Seq<u8>, n: int) -> Seq<u8> {
    Seq::new(
        256,
        |k: int| if (k - first) % 256 < n { page[(k - first) % 256] } else { before[k] },
    )
}

/// The page of RAM that sprite DMA copies.
pub open spec fn ram_page(ram: Seq<u8>, page: u8) -> Seq<u8> {
    Seq::new(256, |k: int| ram[(page * 0x100 + k) % 0x800])
}

/// How far a transfer has come: `counter / 2` bytes stored, and one more read where it is odd.
spec fn copying<M: Mapper>(
    s: BusState<M, HeadlessPpu>,
    before: HeadlessPpuState,
    page: u8,
    counter: int,
    byte: u8,
) -> bool {
    &&& s.ram.len() == 0x800
    &&& s.sprite_dma_page == page
    &&& 0 <= counter <= 0x200
    &&& !s.sprite_dma_running ==> counter == 0x200
    &&& s.ppu.oam == oam_with(before.oam, before.oam_addr, ram_page(s.ram, page), counter / 2)
    &&& s.ppu.oam_addr == (before.oam_addr + counter / 2) % 256
    &&& counter % 2 == 1 ==> byte == ram_page(s.ram, page)[counter / 2]
}

proof fn lemma_store_extends(before: HeadlessPpuState, page: Seq<u8>, n: int)
    requires
        page.len() == 256,
        before.oam.len() == 256,
        0 <= n < 256,
    ensures
        oam_with(before.oam, before.oam_addr, page, n).update((before.oam_addr + n) % 256, page[n])
            =~= oam_with(before.oam, before.oam_addr, page, n + 1),
        ((before.oam_addr + n) % 256 + 1) % 256 == (before.oam_addr + n + 1) % 256,
{
    let first = before.oam_addr;
    let at = (first + n) % 256;
    assert((at - first) % 256 == n);
    let next = oam_with(before.oam, first, page, n + 1);
    let stored = oam_with(before.oam, first, page, n).update(at, page[n]);
    assert forall|k: int| 0 <= k < 256 implies stored[k] == #[trigger] next[k] by {
        assert(k == at <==> (k - first) % 256 == n);
    }
}

/// Waiting and fetching samples leave the copy as it is.
proof fn lemma_copy_waits<M: Mapper>(s: BusState<M, HeadlessPpu>, pending: u16)
    requires
        pending == 0x4014,
    ensures
        s.dma_wait_cycle(pending).ppu == s.ppu,
        s.dmc_fetch_cycle().ppu == s.ppu,
        s.dmc_fetch_cycle().ram == s.ram,
        s.dmc_fetch_cycle().sprite_dma_page == s.sprite_dma_page,
        s.dmc_fetch_cycle().sprite_dma_running == s.sprite_dma_running,
{
    reveal(BusState::dma_wait_cycle);
    reveal(BusState::dma_read_cycle);
    reveal(BusState::dmc_fetch_cycle);
    lemma_headless_cycle(s, true);
    let read = s.pre(true);
    lemma_headless_cycle(read.dma_read(pending), true);
    lemma_headless_cycle(read.sample_read(), true);
    lemma_pre(s, true);
    lemma_post(read.sample_read(), true);
}

/// A sprite read delivers the byte of the page.
proof fn lemma_copy_reads<M: Mapper>(s: BusState<M, HeadlessPpu>, page: u8, counter: int)
    requires
        page < 0x20,
        s.sprite_dma_page == page,
        s.ram.len() == 0x800,
        0 <= counter < 0x200,
    ensures
        s.dma_read_cycle(s.sprite_addr(counter)).ppu == s.ppu,
        s.pre(true).bus_byte(s.sprite_addr(counter)) == ram_page(s.ram, page)[counter / 2],
{
    reveal(BusState::dma_read_cycle);
    let addr = s.sprite_addr(counter);
    assert(counter / 2 < 256);
    assert(addr == page * 0x100 + counter / 2);
    assert(addr < 0x2000);
    lemma_headless_cycle(s, true);
    lemma_pre(s, true);
    lemma_headless_cycle(s.pre(true).dma_read(addr), true);
}

/// A sprite write stores the byte and moves the sprite address on.
proof fn lemma_copy_writes<M: Mapper>(s: BusState<M, HeadlessPpu>, byte: u8)
    ensures
        s.sprite_write_cycle(byte).ppu.oam == s.ppu.oam.update(s.ppu.oam_addr as int, byte),
        s.sprite_write_cycle(byte).ppu.oam_addr == (s.ppu.oam_addr + 1) % 256,
{
    reveal(BusState::sprite_write_cycle);
    lemma_headless_cycle(s, false);
    lemma_headless_cycle(s.pre(false).sprite_stored(byte), false);
}

proof fn lemma_copy_get<M: Mapper>(
    s: BusState<M, HeadlessPpu>,
    before: HeadlessPpuState,
    page: u8,
    pending: u16,
    counter: int,
    byte: u8,
)
    requires
        page < 0x20,
        pending == 0x4014,
        s.dma_busy(),
        s.get_cycle(),
        s.dma_aligned(counter),
        copying(s, before, page, counter, byte),
    ensures
        ({
            let next = s.dma_step(pending, counter, byte);
            copying(next.0, before, page, next.1, next.2)
        }),
{
    reveal(BusState::dma_step);
    let cleared = s.flag_cleared();
    lemma_step_keeps_ram(s, pending, counter, byte);
    if s.dmc_dma_running && !s.flagged() {
        lemma_copy_waits(cleared, pending);
    } else if s.sprite_dma_running {
        lemma_copy_reads(cleared, page, counter);
        lemma_read_cycle(cleared, s.sprite_addr(counter));
        assert((counter + 1) / 2 == counter / 2);
    } else {
        lemma_copy_waits(cleared, pending);
        lemma_wait_cycle(cleared, pending);
    }
}

proof fn lemma_copy_put<M: Mapper>(
    s: BusState<M, HeadlessPpu>,
    before: HeadlessPpuState,
    page: u8,
    pending: u16,
    counter: int,
    byte: u8,
)
    requires
        pending == 0x4014,
        before.oam.len() == 256,
        s.dma_busy(),
        !s.get_cycle(),
        s.dma_aligned(counter),
        copying(s, before, page, counter, byte),
    ensures
        ({
            let next = s.dma_step(pending, counter, byte);
            copying(next.0, before, page, next.1, next.2)
        }),
{
    reveal(BusState::dma_step);
    let cleared = s.flag_cleared();
    lemma_step_keeps_ram(s, pending, counter, byte);
    if s.sprite_dma_running && counter % 2 == 1 {
        lemma_copy_writes(cleared, byte);
        lemma_sprite_write_cycle(cleared, byte);
        lemma_store_extends(before, ram_page(s.ram, page), counter / 2);
        assert((counter + 1) / 2 == counter / 2 + 1);
    } else {
        lemma_copy_waits(cleared, pending);
        lemma_wait_cycle(cleared, pending);
    }
}

proof fn lemma_copy_run<M: Mapper>(
    s: BusState<M, HeadlessPpu>,
    before: HeadlessPpuState,
    page: u8,
    pending: u16,
    counter: int,
    byte: u8,
)
    requires
        page < 0x20,
        pending == 0x4014,
        before.oam.len() == 256,
        s.dma_aligned(counter),
        copying(s, before, page, counter, byte),
    ensures
        s.dma_run(pending, counter, byte).ppu.oam == oam_with(
            before.oam,
            before.oam_addr,
            ram_page(s.ram, page),
            256,
        ),
    decreases s.sprite_left(counter), s.dmc_left(),
{
    if s.dma_busy() {
        lemma_dma_step(s, pending, counter, byte);
        lemma_step_keeps_ram(s, pending, counter, byte);
        if s.get_cycle() {
            lemma_copy_get(s, before, page, pending, counter, byte);
        } else {
            lemma_copy_put(s, before, page, pending, counter, byte);
        }
        let next = s.dma_step(pending, counter, byte);
        lemma_copy_run(next.0, before, page, pending, next.1, next.2);
    }
}

/// Sprite DMA from RAM copies the whole page into sprite memory, starting at the sprite address
/// and wrapping around, however many sample fetches come in between.
pub proof fn lemma_sprite_dma_copies<M: Mapper>(s: BusState<M, HeadlessPpu>, page: u8)
    requires
        s.ok(),
        !s.in_dma_loop,
        page < 0x20,
    ensures
        forall|k: int| #![trigger s.after_write(0x4014, page).ppu.oam[k]]
            0 <= k < 256 ==> s.after_write(0x4014, page).ppu.oam[k]
                == s.ram[(page * 0x100 + (k - s.ppu.oam_addr) % 256) % 0x800],
{
    reveal(BusState::dma_done);
    let a = (BusState { open_bus: page, ..s });
    lemma_pre(a, false);
    lemma_post(a.pre(false), false);
    lemma_headless_cycle(a, false);
    lemma_headless_cycle(a.pre(false), false);
    let b = a.pre(false).post(false);
    let armed = (BusState { sprite_dma_running: true, sprite_dma_page: page, need_halt: true, ..b });
    let entered = (BusState { in_dma_loop: true, need_halt: false, ..armed });
    lemma_read_cycle(entered, 0x4014);
    reveal(BusState::dma_read_cycle);
    lemma_headless_cycle(entered, true);
    lemma_headless_cycle(entered.pre(true).dma_read(0x4014), true);
    let halted = entered.dma_read_cycle(0x4014);
    assert(halted.ppu == s.ppu);
    assert(oam_with(s.ppu.oam, s.ppu.oam_addr, ram_page(s.ram, page), 0) =~= s.ppu.oam);
    lemma_copy_run(halted, s.ppu, page, 0x4014, 0, 0);
}

} // verus!
