//! Registers of the Jaleco boards.
use vstd::prelude::*;

use crate::bits::{lemma_byte_fields, lemma_wrap_masks};
use crate::mapper::Mapper;
use crate::mapper::jaleco_jf05::{JalecoJf05, JalecoJf05State};
use crate::mapper::jaleco_jf11_14::{JalecoJf11_14, JalecoJf11_14State};
use crate::mapper::jaleco_jf13::{JalecoJf13, JalecoJf13State};
use crate::mapper::jaleco_jf17::{JalecoJf17, JalecoJf17State, PrgWiring};
use crate::mapper::jaleco_ss88006::{JalecoSs88006, JalecoSs88006State};
use crate::mapper::laws::{lemma_window, window};
use crate::rom::{Cartridge, Mirroring};

verus! {

/// A write to `$6000-$7FFF` picks an 8 KiB pattern bank by its two low bits, crossed over: 1 is
/// bank 2 and 2 is bank 1. PRG-ROM is fixed and repeats.
pub proof fn lemma_jf05_latch(s: JalecoJf05State, addr: u16, data: u8, cpu: u16, ppu: u16)
    requires
        JalecoJf05::ok(s),
        s.prg_rom.len() >= 1,
        s.chr_rom.len() >= 0x2000,
        cpu >= 0x8000,
        ppu < 0x2000,
        0x6000 <= addr < 0x8000,
    ensures
        ({
            let t = JalecoJf05::after_cpu_write(s, addr, data);
            &&& data % 4 == 0 ==> JalecoJf05::ppu_byte(t, ppu) == window(s.chr_rom, 0x2000, 0, ppu as int)
            &&& data % 4 == 1 ==> JalecoJf05::ppu_byte(t, ppu) == window(s.chr_rom, 0x2000, 2, ppu as int)
            &&& data % 4 == 2 ==> JalecoJf05::ppu_byte(t, ppu) == window(s.chr_rom, 0x2000, 1, ppu as int)
            &&& data % 4 == 3 ==> JalecoJf05::ppu_byte(t, ppu) == window(s.chr_rom, 0x2000, 3, ppu as int)
            &&& JalecoJf05::cpu_byte(t, cpu) == s.prg_rom[(cpu - 0x8000) % s.prg_rom.len() as int]
            &&& JalecoJf05::mirrored(t) == JalecoJf05::mirrored(s)
        }),
{
    lemma_window(s.chr_rom, 0x2000, 0, ppu as int);
    lemma_window(s.chr_rom, 0x2000, 2, ppu as int);
    lemma_window(s.chr_rom, 0x2000, 1, ppu as int);
    lemma_window(s.chr_rom, 0x2000, 3, ppu as int);
}

/// No other write has an effect, and PPU writes have none.
pub proof fn lemma_jf05_other_writes(s: JalecoJf05State, addr: u16, data: u8)
    ensures
        ({
            &&& addr < 0x6000 || addr >= 0x8000 ==> JalecoJf05::after_cpu_write(s, addr, data) == s
            &&& JalecoJf05::after_ppu_write(s, addr, data) == s
        }),
{
}

/// A write to `$6000-$7FFF` picks a 32 KiB PRG bank by bits 4-5 and an 8 KiB pattern bank by its
/// low four bits.
pub proof fn lemma_jf11_14_latch(s: JalecoJf11_14State, addr: u16, data: u8, cpu: u16, ppu: u16)
    requires
        JalecoJf11_14::ok(s),
        s.prg_rom.len() >= 0x8000,
        s.chr_rom.len() >= 0x2000,
        cpu >= 0x8000,
        ppu < 0x2000,
        0x6000 <= addr < 0x8000,
    ensures
        ({
            let t = JalecoJf11_14::after_cpu_write(s, addr, data);
            &&& JalecoJf11_14::cpu_byte(t, cpu) == window(s.prg_rom, 0x8000, data as int / 16 % 4, cpu as int)
            &&& JalecoJf11_14::ppu_byte(t, ppu) == window(s.chr_rom, 0x2000, data as int % 16, ppu as int)
            &&& JalecoJf11_14::mirrored(t) == JalecoJf11_14::mirrored(s)
        }),
{
    lemma_window(s.prg_rom, 0x8000, data as int / 16 % 4, cpu as int);
    lemma_window(s.chr_rom, 0x2000, data as int % 16, ppu as int);
    lemma_byte_fields(data);
}

/// No other write has an effect.
pub proof fn lemma_jf11_14_other_writes(s: JalecoJf11_14State, addr: u16, data: u8)
    requires
        addr < 0x6000 || addr >= 0x8000,
    ensures
        ({
            &&& JalecoJf11_14::after_cpu_write(s, addr, data) == s
        }),
{
}

/// A write to `$6000-$6FFF` picks a 32 KiB PRG bank by bits 4-5 and an 8 KiB pattern bank by bits 6
/// and 0-1.
pub proof fn lemma_jf13_latch(s: JalecoJf13State, addr: u16, data: u8, cpu: u16, ppu: u16)
    requires
        JalecoJf13::ok(s),
        s.prg_rom.len() >= 0x8000,
        s.chr_rom.len() >= 0x2000,
        cpu >= 0x8000,
        ppu < 0x2000,
        0x6000 <= addr < 0x7000,
    ensures
        ({
            let t = JalecoJf13::after_cpu_write(s, addr, data);
            &&& JalecoJf13::cpu_byte(t, cpu) == window(s.prg_rom, 0x8000, data as int / 16 % 4, cpu as int)
            &&& JalecoJf13::ppu_byte(t, ppu) == window(s.chr_rom, 0x2000,
                data as int / 64 % 2 * 4 + data as int % 4, ppu as int)
            &&& JalecoJf13::mirrored(t) == JalecoJf13::mirrored(s)
        }),
{
    lemma_window(s.prg_rom, 0x8000, data as int / 16 % 4, cpu as int);
    lemma_window(s.chr_rom, 0x2000, data as int / 64 % 2 * 4 + data as int % 4, ppu as int);
    lemma_byte_fields(data);
}

/// No other write has an effect, those to the speech chip at `$7000` among them.
pub proof fn lemma_jf13_other_writes(s: JalecoJf13State, addr: u16, data: u8)
    requires
        addr < 0x6000 || addr >= 0x7000,
    ensures
        ({
            &&& JalecoJf13::after_cpu_write(s, addr, data) == s
        }),
{
}

/// A write, masked by the ROM byte under it, takes its low four bits as PRG bank where bit 7 rises,
/// for the half that the wiring switches; the other half has the last bank, or the first.
pub proof fn lemma_jf17_prg_gate(s: JalecoJf17State, addr: u16, data: u8, cpu: u16, ppu: u16)
    requires
        JalecoJf17::ok(s),
        s.prg_rom.len() >= 0x4000,
        s.chr.len() >= 0x2000,
        cpu >= 0x8000,
        ppu < 0x2000,
        addr >= 0x8000,
    ensures
        ({
            let v = data & JalecoJf17::cpu_byte(s, addr);
            let t = JalecoJf17::after_cpu_write(s, addr, data);
            let high = s.wiring == PrgWiring::SwitchableHigh;
            &&& v >= 128 && !s.prev_prg_gate && !high && cpu < 0xC000
                    ==> JalecoJf17::cpu_byte(t, cpu) == window(s.prg_rom, 0x4000, v as int % 16, cpu as int)
            &&& v >= 128 && !s.prev_prg_gate && high && cpu >= 0xC000
                    ==> JalecoJf17::cpu_byte(t, cpu) == window(s.prg_rom, 0x4000, v as int % 16, cpu as int)
            &&& !high && cpu >= 0xC000
                    ==> JalecoJf17::cpu_byte(t, cpu) == window(s.prg_rom, 0x4000,
                        (s.prg_rom.len() as int / 0x4000) - 1, cpu as int)
            &&& high && cpu < 0xC000
                    ==> JalecoJf17::cpu_byte(t, cpu) == window(s.prg_rom, 0x4000, 0, cpu as int)
            &&& v < 128 || s.prev_prg_gate
                    ==> JalecoJf17::cpu_byte(t, cpu) == JalecoJf17::cpu_byte(s, cpu)
            &&& t.prev_prg_gate == (v >= 128)
            &&& t.prev_chr_gate == (v / 64 % 2 == 1)
            &&& JalecoJf17::mirrored(t) == JalecoJf17::mirrored(s)
        }),
{
    let v = data & JalecoJf17::cpu_byte(s, addr);
    lemma_window(s.prg_rom, 0x4000, v as int % 16, cpu as int);
    lemma_window(s.prg_rom, 0x4000, (s.prg_rom.len() as int / 0x4000) - 1, cpu as int);
    lemma_window(s.prg_rom, 0x4000, 0, cpu as int);
    lemma_byte_fields(data & JalecoJf17::cpu_byte(s, addr));
}

/// A write, masked by the ROM byte under it, takes its low four bits as pattern bank where bit 6
/// rises.
pub proof fn lemma_jf17_chr_gate(s: JalecoJf17State, addr: u16, data: u8, cpu: u16, ppu: u16)
    requires
        JalecoJf17::ok(s),
        s.prg_rom.len() >= 0x4000,
        s.chr.len() >= 0x2000,
        cpu >= 0x8000,
        ppu < 0x2000,
        addr >= 0x8000,
    ensures
        ({
            let v = data & JalecoJf17::cpu_byte(s, addr);
            let t = JalecoJf17::after_cpu_write(s, addr, data);
            &&& v / 64 % 2 == 1 && !s.prev_chr_gate
                    ==> JalecoJf17::ppu_byte(t, ppu) == window(s.chr, 0x2000, v as int % 16, ppu as int)
            &&& v / 64 % 2 == 0 || s.prev_chr_gate
                    ==> JalecoJf17::ppu_byte(t, ppu) == JalecoJf17::ppu_byte(s, ppu)
        }),
{
    let v = data & JalecoJf17::cpu_byte(s, addr);
    lemma_window(s.chr, 0x2000, v as int % 16, ppu as int);
    lemma_byte_fields(data & JalecoJf17::cpu_byte(s, addr));
}

/// The two halves of a PRG register, written at an even and an odd address, make the 8 KiB bank of
/// its window; the last window has the last bank.
pub proof fn lemma_ss88006_prg_registers(
    s: JalecoSs88006State,
    k: int,
    a: u16,
    b: u16,
    lo: u8,
    hi: u8,
    cpu: u16,
    ppu: u16,
)
    requires
        JalecoSs88006::ok(s),
        s.prg_rom.len() >= 0x2000,
        s.chr.len() >= 0x400,
        cpu >= 0x8000,
        ppu < 0x2000,
        0 <= k < 3,
        a as int / 0x1000 == 8 + k / 2,
        b as int / 0x1000 == 8 + k / 2,
        a as int % 4 == k % 2 * 2,
        b as int % 4 == k % 2 * 2 + 1,
    ensures
        ({
            let t = JalecoSs88006::after_cpu_write(JalecoSs88006::after_cpu_write(s, a, lo), b, hi);
            &&& (cpu - 0x8000) / 0x2000 == k
                    ==> JalecoSs88006::cpu_byte(t, cpu) == window(s.prg_rom, 0x2000,
                        lo as int % 16 + hi as int % 16 * 16, cpu as int)
            &&& (cpu - 0x8000) / 0x2000 != k
                    ==> JalecoSs88006::cpu_byte(t, cpu) == JalecoSs88006::cpu_byte(s, cpu)
            &&& cpu >= 0xE000
                    ==> JalecoSs88006::cpu_byte(t, cpu) == window(s.prg_rom, 0x2000,
                        (s.prg_rom.len() as int / 0x2000) - 1, cpu as int)
            &&& JalecoSs88006::ppu_byte(t, ppu) == JalecoSs88006::ppu_byte(s, ppu)
            &&& JalecoSs88006::mirrored(t) == JalecoSs88006::mirrored(s)
            &&& JalecoSs88006::irq(t) == JalecoSs88006::irq(s)
        }),
{
    lemma_window(s.prg_rom, 0x2000, lo as int % 16 + hi as int % 16 * 16, cpu as int);
    lemma_window(s.prg_rom, 0x2000, (s.prg_rom.len() as int / 0x2000) - 1, cpu as int);
}

/// The two halves of a pattern register make the 1 KiB bank of its window.
pub proof fn lemma_ss88006_chr_registers(
    s: JalecoSs88006State,
    k: int,
    a: u16,
    b: u16,
    lo: u8,
    hi: u8,
    cpu: u16,
    ppu: u16,
)
    requires
        JalecoSs88006::ok(s),
        s.prg_rom.len() >= 0x2000,
        s.chr.len() >= 0x400,
        cpu >= 0x8000,
        ppu < 0x2000,
        0 <= k < 8,
        a as int / 0x1000 == 0xA + k / 2,
        b as int / 0x1000 == 0xA + k / 2,
        a as int % 4 == k % 2 * 2,
        b as int % 4 == k % 2 * 2 + 1,
    ensures
        ({
            let t = JalecoSs88006::after_cpu_write(JalecoSs88006::after_cpu_write(s, a, lo), b, hi);
            &&& ppu as int / 0x400 == k
                    ==> JalecoSs88006::ppu_byte(t, ppu) == window(s.chr, 0x400,
                        lo as int % 16 + hi as int % 16 * 16, ppu as int)
            &&& ppu as int / 0x400 != k
                    ==> JalecoSs88006::ppu_byte(t, ppu) == JalecoSs88006::ppu_byte(s, ppu)
            &&& JalecoSs88006::cpu_byte(t, cpu) == JalecoSs88006::cpu_byte(s, cpu)
            &&& JalecoSs88006::mirrored(t) == JalecoSs88006::mirrored(s)
            &&& JalecoSs88006::irq(t) == JalecoSs88006::irq(s)
        }),
{
    lemma_window(s.chr, 0x400, lo as int % 16 + hi as int % 16 * 16, ppu as int);
}

/// `$F002` selects the mirroring, `$F001` acknowledges, enables and sets the counter's width, the
/// smallest asked for, `$F000` acknowledges and loads the counter, and `$9002`, `$9003` and `$F003`
/// do nothing.
pub proof fn lemma_ss88006_control(s: JalecoSs88006State, addr: u16, data: u8)
    requires
        JalecoSs88006::ok(s),
        addr >= 0x8000,
    ensures
        ({
            let t = JalecoSs88006::after_cpu_write(s, addr, data);
            let page = addr / 0x1000;
            let low = addr % 4;
            &&& page == 9 && low >= 2 ==> t == s
            &&& page == 0xF && low == 3 ==> t == s
            &&& page == 0xF && low == 2
                    ==> JalecoSs88006::mirrored(t) == (if data % 4 == 0 {
                        Mirroring::Horizontal } else if data % 4 == 1 {
                        Mirroring::Vertical } else if data % 4 == 2 {
                        Mirroring::SingleScreenLower } else { Mirroring::SingleScreenUpper })
            &&& page == 0xF && low == 1 ==> !JalecoSs88006::irq(t)
                    && t.irq_enabled == (data % 2 == 1) && t.irq_counter == s.irq_counter
            &&& page == 0xF && low == 1
                    ==> t.irq_counter_size == (if data / 8 % 2 == 1 { 3int } else if data / 4 % 2
                        == 1 { 2 } else if data / 2 % 2 == 1 { 1 } else { 0 })
            &&& page == 0xF && low == 0 ==> !JalecoSs88006::irq(t) && t.irq_enabled == s.irq_enabled
        }),
{
    lemma_byte_fields((data % 16) as u8);
}

/// Each of the four addresses from `$E000` on holds four bits of the value to load, and touches
/// nothing else.
pub proof fn lemma_ss88006_reload_registers(s: JalecoSs88006State, k: int, addr: u16, data: u8)
    requires
        JalecoSs88006::ok(s),
        0 <= k < 4,
        addr / 0x1000 == 0xE,
        addr % 4 == k,
    ensures
        ({
            let t = JalecoSs88006::after_cpu_write(s, addr, data);
            &&& t == (JalecoSs88006State { irq_reload: t.irq_reload, ..s })
            &&& t.irq_reload.len() == 4
            &&& t.irq_reload[k] == data % 16
            &&& forall|i: int| 0 <= i < 4 && i != k ==> t.irq_reload[i] == s.irq_reload[i]
        }),
{
}

/// `$F000` loads the counter with the four pieces, the lowest four bits first.
pub proof fn lemma_ss88006_load(s: JalecoSs88006State, addr: u16, data: u8, n: u16)
    requires
        JalecoSs88006::ok(s),
        addr / 0x1000 == 0xF,
        addr % 4 == 0,
        s.irq_reload[0] == n % 16,
        s.irq_reload[1] == n / 16 % 16,
        s.irq_reload[2] == n / 256 % 16,
        s.irq_reload[3] == n / 4096,
    ensures
        ({
            let t = JalecoSs88006::after_cpu_write(s, addr, data);
            &&& t.irq_counter == n
            &&& t.irq_counter_size == s.irq_counter_size
            &&& !JalecoSs88006::irq(t)
        }),
{
    let w0 = s.irq_reload[0] as u16;
    let w1 = s.irq_reload[1] as u16;
    let w2 = s.irq_reload[2] as u16;
    let w3 = s.irq_reload[3] as u16;
    assert(w0 | (w1 << 4) | (w2 << 8) | (w3 << 12) == n) by (bit_vector)
        requires
            w0 == n % 16,
            w1 == (n / 16) % 16,
            w2 == (n / 256) % 16,
            w3 == n / 4096,
    ;
}

/// Only the bits of the counter's width count down; the interrupt comes when they reach zero, and
/// from zero they wrap without one. The bits above stay.
pub proof fn lemma_ss88006_counter(s: JalecoSs88006State)
    requires
        JalecoSs88006::ok(s),
        s.irq_enabled,
    ensures
        ({
            let t = JalecoSs88006::after_cpu_cycle(s);
            let span = if s.irq_counter_size == 0 { 0x1_0000int } else if s.irq_counter_size == 1 {
                0x1000 } else if s.irq_counter_size == 2 { 0x100 } else { 0x10 };
            let n = s.irq_counter as int % span;
            &&& n > 0 ==> t.irq_counter == s.irq_counter - 1
            &&& n == 0 ==> t.irq_counter == s.irq_counter + span - 1
            &&& n == 1 ==> JalecoSs88006::irq(t)
            &&& n != 1 ==> JalecoSs88006::irq(t) == JalecoSs88006::irq(s)
            &&& t.irq_enabled
        }),
{
}

/// A disabled counter stands still.
pub proof fn lemma_ss88006_stopped(s: JalecoSs88006State)
    requires
        !s.irq_enabled,
    ensures
        ({
            &&& JalecoSs88006::after_cpu_cycle(s) == s
        }),
{
}

/// At power-on bank 0 is shown everywhere and the header gives the mirroring.
pub proof fn lemma_jaleco_jf11_14_at_power_on(cart: Cartridge, cpu: u16, ppu: u16)
    requires
        cart.prg_rom@.len() >= 0x8000,
        cpu >= 0x8000,
        ppu < 0x2000,
        cart.chr_ram || cart.chr_rom@.len() == 0 || cart.chr_rom@.len() >= 0x2000,
    ensures
        ({
            let s = JalecoJf11_14State::power_on(cart);
            &&& JalecoJf11_14::cpu_byte(s, cpu) == window(cart.prg_rom@, 0x8000, 0, cpu as int)
            &&& cart.chr_ram || cart.chr_rom@.len() == 0 ==> JalecoJf11_14::ppu_byte(s, ppu) == 0
            &&& !cart.chr_ram && cart.chr_rom@.len() > 0
                    ==> JalecoJf11_14::ppu_byte(s, ppu) == window(cart.chr_rom@, 0x2000, 0, ppu as int)
            &&& JalecoJf11_14::mirrored(s) == cart.mirroring
        }),
{
    assert(cart.prg_rom.len() == cart.prg_rom@.len());
    assert(cart.chr_rom.len() == cart.chr_rom@.len());
    lemma_byte_fields(0);
    lemma_window(cart.prg_rom@, 0x8000, 0, cpu as int);
    if cart.chr_ram || cart.chr_rom@.len() == 0 {
        lemma_window(crate::mem::zeros(0x2000), 0x2000, 0, ppu as int);
    } else {
        lemma_window(cart.chr_rom@, 0x2000, 0, ppu as int);
    }
}

/// At power-on bank 0 is shown everywhere and the header gives the mirroring.
pub proof fn lemma_jaleco_jf13_at_power_on(cart: Cartridge, cpu: u16, ppu: u16)
    requires
        cart.prg_rom@.len() >= 0x8000,
        cpu >= 0x8000,
        ppu < 0x2000,
        cart.chr_ram || cart.chr_rom@.len() == 0 || cart.chr_rom@.len() >= 0x2000,
    ensures
        ({
            let s = JalecoJf13State::power_on(cart);
            &&& JalecoJf13::cpu_byte(s, cpu) == window(cart.prg_rom@, 0x8000, 0, cpu as int)
            &&& cart.chr_ram || cart.chr_rom@.len() == 0 ==> JalecoJf13::ppu_byte(s, ppu) == 0
            &&& !cart.chr_ram && cart.chr_rom@.len() > 0
                    ==> JalecoJf13::ppu_byte(s, ppu) == window(cart.chr_rom@, 0x2000, 0, ppu as int)
            &&& JalecoJf13::mirrored(s) == cart.mirroring
        }),
{
    assert(cart.prg_rom.len() == cart.prg_rom@.len());
    assert(cart.chr_rom.len() == cart.chr_rom@.len());
    lemma_byte_fields(0);
    lemma_window(cart.prg_rom@, 0x8000, 0, cpu as int);
    if cart.chr_ram || cart.chr_rom@.len() == 0 {
        lemma_window(crate::mem::zeros(0x2000), 0x2000, 0, ppu as int);
    } else {
        lemma_window(cart.chr_rom@, 0x2000, 0, ppu as int);
    }
}

/// At power-on the switchable windows show bank 0, the last has the last bank, the header gives the
/// mirroring, and no interrupt is up.
pub proof fn lemma_jaleco_ss88006_at_power_on(cart: Cartridge, cpu: u16, ppu: u16)
    requires
        cart.prg_rom@.len() >= 0x2000,
        cpu >= 0x8000,
        ppu < 0x2000,
        cart.chr_ram || cart.chr_rom@.len() == 0 || cart.chr_rom@.len() >= 0x400,
    ensures
        ({
            let s = JalecoSs88006State::power_on(cart);
            &&& cpu < 0xE000
                    ==> JalecoSs88006::cpu_byte(s, cpu) == window(cart.prg_rom@, 0x2000, 0, cpu as int)
            &&& cpu >= 0xE000
                    ==> JalecoSs88006::cpu_byte(s, cpu) == window(cart.prg_rom@, 0x2000,
                        (cart.prg_rom@.len() as int / 0x2000) - 1, cpu as int)
            &&& cart.chr_ram || cart.chr_rom@.len() == 0 ==> JalecoSs88006::ppu_byte(s, ppu) == 0
            &&& !cart.chr_ram && cart.chr_rom@.len() > 0
                    ==> JalecoSs88006::ppu_byte(s, ppu) == window(cart.chr_rom@, 0x400, 0, ppu as int)
            &&& JalecoSs88006::mirrored(s) == cart.mirroring
            &&& !JalecoSs88006::irq(s) && !s.irq_enabled
        }),
{
    assert(cart.prg_rom.len() == cart.prg_rom@.len());
    assert(cart.chr_rom.len() == cart.chr_rom@.len());
    lemma_byte_fields(0);
    lemma_window(cart.prg_rom@, 0x2000, 0, cpu as int);
    lemma_window(cart.prg_rom@, 0x2000, (cart.prg_rom@.len() as int / 0x2000) - 1, cpu as int);
    if cart.chr_ram || cart.chr_rom@.len() == 0 {
        lemma_window(crate::mem::zeros(0x2000), 0x400, 0, ppu as int);
    } else {
        lemma_window(cart.chr_rom@, 0x400, 0, ppu as int);
    }
}

/// At power-on the switchable half shows bank 0, the other the last bank or the first by the
/// wiring, pattern bank 0 is shown, and both gates are down.
pub proof fn lemma_jaleco_jf17_at_power_on(cart: Cartridge, wiring: PrgWiring, cpu: u16, ppu: u16)
    requires
        cart.prg_rom@.len() >= 0x4000,
        cpu >= 0x8000,
        ppu < 0x2000,
        cart.chr_ram || cart.chr_rom@.len() == 0 || cart.chr_rom@.len() >= 0x2000,
    ensures
        ({
            let s = JalecoJf17State::power_on(cart, wiring);
            &&& wiring == PrgWiring::SwitchableHigh || cpu < 0xC000
                    ==> JalecoJf17::cpu_byte(s, cpu) == window(cart.prg_rom@, 0x4000, 0, cpu as int)
            &&& wiring == PrgWiring::SwitchableLow && cpu >= 0xC000
                    ==> JalecoJf17::cpu_byte(s, cpu) == window(cart.prg_rom@, 0x4000,
                        (cart.prg_rom@.len() as int / 0x4000) - 1, cpu as int)
            &&& cart.chr_ram || cart.chr_rom@.len() == 0 ==> JalecoJf17::ppu_byte(s, ppu) == 0
            &&& !cart.chr_ram && cart.chr_rom@.len() > 0
                    ==> JalecoJf17::ppu_byte(s, ppu) == window(cart.chr_rom@, 0x2000, 0, ppu as int)
            &&& JalecoJf17::mirrored(s) == cart.mirroring
            &&& !s.prev_prg_gate && !s.prev_chr_gate
        }),
{
    assert(cart.prg_rom.len() == cart.prg_rom@.len());
    assert(cart.chr_rom.len() == cart.chr_rom@.len());
    lemma_byte_fields(0);
    lemma_window(cart.prg_rom@, 0x4000, 0, cpu as int);
    lemma_window(cart.prg_rom@, 0x4000, (cart.prg_rom@.len() as int / 0x4000) - 1, cpu as int);
    if cart.chr_ram || cart.chr_rom@.len() == 0 {
        lemma_window(crate::mem::zeros(0x2000), 0x2000, 0, ppu as int);
    } else {
        lemma_window(cart.chr_rom@, 0x2000, 0, ppu as int);
    }
}

/// At power-on pattern bank 0 is shown and the header gives the mirroring.
pub proof fn lemma_jf05_at_power_on(cart: Cartridge, cpu: u16, ppu: u16)
    requires
        cart.prg_rom@.len() > 0,
        cart.chr_rom@.len() >= 0x2000,
        cpu >= 0x8000,
        ppu < 0x2000,
    ensures
        ({
            let s = JalecoJf05State::power_on(cart);
            &&& JalecoJf05::cpu_byte(s, cpu) == cart.prg_rom@[(cpu - 0x8000) % cart.prg_rom@.len() as int]
            &&& JalecoJf05::ppu_byte(s, ppu) == window(cart.chr_rom@, 0x2000, 0, ppu as int)
            &&& JalecoJf05::mirrored(s) == cart.mirroring
        }),
{
    lemma_window(cart.chr_rom@, 0x2000, 0, ppu as int);
    assert(cart.prg_rom.len() == cart.prg_rom@.len());
    assert(cart.chr_rom.len() == cart.chr_rom@.len());
}

} // verus!
