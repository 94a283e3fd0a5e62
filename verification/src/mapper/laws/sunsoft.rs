//! Registers of the Sunsoft boards.
use vstd::prelude::*;

use crate::bits::{lemma_byte_fields, lemma_wrap_masks};
use crate::mapper::Mapper;
use crate::mapper::NametableSource;
use crate::mapper::laws::{lemma_window, window};
use crate::mapper::sunsoft1::{Sunsoft1, Sunsoft1State};
use crate::mapper::sunsoft2::{Sunsoft2, Sunsoft2State};
use crate::mapper::sunsoft3::{Sunsoft3, Sunsoft3State};
use crate::mapper::sunsoft4::{Sunsoft4, Sunsoft4State};
use crate::rom::{Cartridge, Mirroring};

verus! {

/// A write to `$6000-$7FFF` picks two 4 KiB pattern banks, the second from the upper half of 256;
/// PRG-ROM and mirroring stay.
pub proof fn lemma_sunsoft1_latch(s: Sunsoft1State, addr: u16, data: u8, cpu: u16, ppu: u16)
    requires
        Sunsoft1::ok(s),
        s.chr.len() >= 0x1000,
        cpu >= 0x8000,
        ppu < 0x2000,
        0x6000 <= addr < 0x8000,
    ensures
        ({
            let t = Sunsoft1::after_cpu_write(s, addr, data);
            &&& ppu < 0x1000
                    ==> Sunsoft1::ppu_byte(t, ppu) == window(s.chr, 0x1000, (data & 0x07) as int, ppu as int)
            &&& ppu >= 0x1000
                    ==> Sunsoft1::ppu_byte(t, ppu) == window(s.chr, 0x1000,
                        0x80 + (data as int / 16 % 8), ppu as int)
            &&& Sunsoft1::cpu_byte(t, cpu) == Sunsoft1::cpu_byte(s, cpu)
            &&& Sunsoft1::mirrored(t) == Sunsoft1::mirrored(s)
        }),
{
    lemma_window(s.chr, 0x1000, (data & 0x07) as int, ppu as int);
    lemma_window(s.chr, 0x1000, 0x80 + (data as int / 16 % 8), ppu as int);
    lemma_byte_fields(data);
}

/// PRG-ROM of 32 KiB is fixed, one of 16 KiB appears twice, and no other write has an effect.
pub proof fn lemma_sunsoft1_rom(s: Sunsoft1State, addr: u16, data: u8, cpu: u16)
    requires
        Sunsoft1::ok(s),
        cpu >= 0x8000,
        addr < 0x6000 || addr >= 0x8000,
        s.prg_rom.len() == 0x4000 || s.prg_rom.len() == 0x8000,
    ensures
        ({
            &&& Sunsoft1::after_cpu_write(s, addr, data) == s
            &&& Sunsoft1::cpu_byte(s, cpu) == s.prg_rom[(cpu - 0x8000) % s.prg_rom.len() as int]
        }),
{
    lemma_wrap_masks((cpu - 0x8000) as usize);
}

/// A write is masked by the ROM byte under it and picks a 16 KiB PRG bank by bits 4-6, an 8 KiB
/// pattern bank by bits 7 and 0-2, and a single-screen page by bit 3.
pub proof fn lemma_sunsoft2_latch(s: Sunsoft2State, addr: u16, data: u8, cpu: u16, ppu: u16)
    requires
        Sunsoft2::ok(s),
        s.prg_rom.len() >= 0x4000,
        s.chr.len() >= 0x2000,
        cpu >= 0x8000,
        ppu < 0x2000,
        addr >= 0x8000,
    ensures
        ({
            let v = data & Sunsoft2::cpu_byte(s, addr);
            let t = Sunsoft2::after_cpu_write(s, addr, data);
            &&& cpu < 0xC000
                    ==> Sunsoft2::cpu_byte(t, cpu) == window(s.prg_rom, 0x4000, v as int / 16 % 8, cpu as int)
            &&& cpu >= 0xC000
                    ==> Sunsoft2::cpu_byte(t, cpu) == window(s.prg_rom, 0x4000,
                        (s.prg_rom.len() as int / 0x4000) - 1, cpu as int)
            &&& Sunsoft2::ppu_byte(t, ppu) == window(s.chr, 0x2000, v as int / 128 * 8 + v as int % 8,
                ppu as int)
            &&& v & 0x08 != 0 ==> Sunsoft2::mirrored(t) == Mirroring::SingleScreenUpper
            &&& v & 0x08 == 0 ==> Sunsoft2::mirrored(t) == Mirroring::SingleScreenLower
        }),
{
    let v = data & Sunsoft2::cpu_byte(s, addr);
    lemma_window(s.prg_rom, 0x4000, v as int / 16 % 8, cpu as int);
    lemma_window(s.prg_rom, 0x4000, (s.prg_rom.len() as int / 0x4000) - 1, cpu as int);
    lemma_window(s.chr, 0x2000, v as int / 128 * 8 + v as int % 8, ppu as int);
    lemma_byte_fields(data & Sunsoft2::cpu_byte(s, addr));
}

/// A write to `$F800-$FFFF` shows its 16 KiB bank at `$8000-$BFFF`, the last bank stays above it,
/// and nothing else changes.
pub proof fn lemma_sunsoft3_prg_register(s: Sunsoft3State, addr: u16, data: u8, cpu: u16, ppu: u16)
    requires
        Sunsoft3::ok(s),
        s.prg_rom.len() >= 0x4000,
        s.chr.len() >= 0x800,
        cpu >= 0x8000,
        ppu < 0x2000,
        addr >= 0xF800,
    ensures
        ({
            let t = Sunsoft3::after_cpu_write(s, addr, data);
            &&& cpu < 0xC000
                    ==> Sunsoft3::cpu_byte(t, cpu) == window(s.prg_rom, 0x4000, data as int, cpu as int)
            &&& cpu >= 0xC000
                    ==> Sunsoft3::cpu_byte(t, cpu) == window(s.prg_rom, 0x4000,
                        (s.prg_rom.len() as int / 0x4000) - 1, cpu as int)
            &&& Sunsoft3::ppu_byte(t, ppu) == Sunsoft3::ppu_byte(s, ppu)
            &&& Sunsoft3::mirrored(t) == Sunsoft3::mirrored(s)
            &&& Sunsoft3::irq(t) == Sunsoft3::irq(s)
        }),
{
    lemma_window(s.prg_rom, 0x4000, data as int, cpu as int);
    lemma_window(s.prg_rom, 0x4000, (s.prg_rom.len() as int / 0x4000) - 1, cpu as int);
}

/// A write to the upper half of page `$8xxx` to `$Bxxx` shows its 2 KiB bank in the pattern window
/// of that number and leaves the other windows.
pub proof fn lemma_sunsoft3_chr_registers(s: Sunsoft3State, k: int, addr: u16, data: u8, cpu: u16, ppu: u16)
    requires
        Sunsoft3::ok(s),
        s.prg_rom.len() >= 0x4000,
        s.chr.len() >= 0x800,
        cpu >= 0x8000,
        ppu < 0x2000,
        0 <= k < 4,
        addr as int / 0x1000 == 8 + k,
        addr % 0x1000 >= 0x800,
    ensures
        ({
            let t = Sunsoft3::after_cpu_write(s, addr, data);
            &&& ppu as int / 0x800 == k
                    ==> Sunsoft3::ppu_byte(t, ppu) == window(s.chr, 0x800, data as int, ppu as int)
            &&& ppu as int / 0x800 != k ==> Sunsoft3::ppu_byte(t, ppu) == Sunsoft3::ppu_byte(s, ppu)
            &&& Sunsoft3::cpu_byte(t, cpu) == Sunsoft3::cpu_byte(s, cpu)
            &&& Sunsoft3::mirrored(t) == Sunsoft3::mirrored(s)
            &&& Sunsoft3::irq(t) == Sunsoft3::irq(s)
        }),
{
    lemma_window(s.chr, 0x800, data as int, ppu as int);
}

/// The mirroring register takes its two low bits; the interrupt control acknowledges, enables by
/// bit 4 and starts the counter pair over; the lower halves of the pages do nothing.
pub proof fn lemma_sunsoft3_other_registers(s: Sunsoft3State, addr: u16, data: u8, cpu: u16, ppu: u16)
    requires
        addr >= 0x8000,
    ensures
        ({
            let t = Sunsoft3::after_cpu_write(s, addr, data);
            &&& addr % 0x1000 < 0x800 ==> t == s
            &&& addr / 0x800 == 0x1D ==> t == (Sunsoft3State { mirroring: t.mirroring, ..s })
            &&& addr / 0x800 == 0x1D && data % 4 == 0 ==> Sunsoft3::mirrored(t) == Mirroring::Vertical
            &&& addr / 0x800 == 0x1D && data % 4 == 1 ==> Sunsoft3::mirrored(t) == Mirroring::Horizontal
            &&& addr / 0x800 == 0x1D && data % 4 == 2
                    ==> Sunsoft3::mirrored(t) == Mirroring::SingleScreenLower
            &&& addr / 0x800 == 0x1D && data % 4 == 3
                    ==> Sunsoft3::mirrored(t) == Mirroring::SingleScreenUpper
            &&& addr / 0x800 == 0x1B ==> !Sunsoft3::irq(t) && t.irq_enabled == (data & 0x10 != 0)
                    && !t.irq_toggle && t.irq_counter == s.irq_counter
            &&& addr / 0x800 == 0x19 && !s.irq_toggle
                    ==> t.irq_counter == data * 0x100 + s.irq_counter % 0x100 && t.irq_toggle
            &&& addr / 0x800 == 0x19 && s.irq_toggle
                    ==> t.irq_counter == s.irq_counter / 0x100 * 0x100 + data && !t.irq_toggle
        }),
{
}

/// The counter runs down one a cycle while enabled, and on running past zero raises the interrupt
/// and stops.
pub proof fn lemma_sunsoft3_counter(s: Sunsoft3State)
    ensures
        ({
            let t = Sunsoft3::after_cpu_cycle(s);
            &&& !s.irq_enabled ==> t == s
            &&& s.irq_enabled && s.irq_counter > 0
                    ==> t == (Sunsoft3State { irq_counter: (s.irq_counter - 1) as u16, ..s })
            &&& s.irq_enabled && s.irq_counter == 0 ==> Sunsoft3::irq(t) && !t.irq_enabled
                    && t.irq_counter == 0xFFFF
        }),
{
}

/// A write to `$F000-$FFFF` shows the 16 KiB bank of its low four bits at `$8000-$BFFF` and enables
/// work RAM by bit 4; the last bank stays above.
pub proof fn lemma_sunsoft4_prg_register(s: Sunsoft4State, addr: u16, data: u8, cpu: u16, ppu: u16)
    requires
        Sunsoft4::ok(s),
        s.prg_rom.len() >= 0x4000,
        s.chr.len() >= 0x800,
        cpu >= 0x8000,
        ppu < 0x2000,
        addr >= 0xF000,
    ensures
        ({
            let t = Sunsoft4::after_cpu_write(s, addr, data);
            &&& cpu < 0xC000
                    ==> Sunsoft4::cpu_byte(t, cpu) == window(s.prg_rom, 0x4000, data as int % 16, cpu as int)
            &&& cpu >= 0xC000
                    ==> Sunsoft4::cpu_byte(t, cpu) == window(s.prg_rom, 0x4000,
                        (s.prg_rom.len() as int / 0x4000) - 1, cpu as int)
            &&& t.prg_ram_enabled == (data & 0x10 != 0)
            &&& Sunsoft4::ppu_byte(t, ppu) == Sunsoft4::ppu_byte(s, ppu)
            &&& Sunsoft4::mirrored(t) == Sunsoft4::mirrored(s)
        }),
{
    lemma_window(s.prg_rom, 0x4000, data as int % 16, cpu as int);
    lemma_window(s.prg_rom, 0x4000, (s.prg_rom.len() as int / 0x4000) - 1, cpu as int);
    lemma_byte_fields(data);
}

/// A write to page `$8xxx` to `$Bxxx` shows its 2 KiB bank in the pattern window of that number and
/// leaves the other windows.
pub proof fn lemma_sunsoft4_chr_registers(s: Sunsoft4State, k: int, addr: u16, data: u8, cpu: u16, ppu: u16)
    requires
        Sunsoft4::ok(s),
        s.prg_rom.len() >= 0x4000,
        s.chr.len() >= 0x800,
        cpu >= 0x8000,
        ppu < 0x2000,
        0 <= k < 4,
        addr as int / 0x1000 == 8 + k,
    ensures
        ({
            let t = Sunsoft4::after_cpu_write(s, addr, data);
            &&& ppu as int / 0x800 == k
                    ==> Sunsoft4::ppu_byte(t, ppu) == window(s.chr, 0x800, data as int, ppu as int)
            &&& ppu as int / 0x800 != k ==> Sunsoft4::ppu_byte(t, ppu) == Sunsoft4::ppu_byte(s, ppu)
            &&& Sunsoft4::cpu_byte(t, cpu) == Sunsoft4::cpu_byte(s, cpu)
            &&& Sunsoft4::mirrored(t) == Sunsoft4::mirrored(s)
        }),
{
    lemma_window(s.chr, 0x800, data as int, ppu as int);
}

/// With bit 4 of `$E000` set, nametables come from pattern memory: the two registers at `$C000` and
/// `$D000` give 1 KiB pages by their low seven bits, and the mirroring says which table takes
/// which. With it clear they are the console's.
pub proof fn lemma_sunsoft4_nametables(
    s: Sunsoft4State,
    reg: u16,
    page: u8,
    ctrl: u16,
    data: u8,
    slot: u8,
    offset: u16,
)
    requires
        Sunsoft4::ok(s),
        s.chr.len() >= 0x400,
        reg / 0x1000 == 0xC || reg / 0x1000 == 0xD,
        ctrl / 0x1000 == 0xE,
        slot < 4,
    ensures
        ({
            let t = Sunsoft4::after_cpu_write(Sunsoft4::after_cpu_write(s, ctrl, data), reg, page);
            let second = if data % 4 == 0 { slot % 2 == 1 } else if data % 4 == 1 { slot >= 2 } else {
                data % 4 == 3 };
            &&& data & 0x10 == 0
                    ==> Sunsoft4::nametable_source(t, slot, offset) == NametableSource::Default
            &&& data & 0x10 != 0 && second == (reg / 0x1000 == 0xD)
                    ==> Sunsoft4::nametable_source(t, slot, offset)
                        == NametableSource::Byte(window(s.chr, 0x400, page as int % 128, offset as int))
            &&& Sunsoft4::mirrored(t) == (if data % 4 == 0 { Mirroring::Vertical } else if data % 4
                == 1 { Mirroring::Horizontal } else if data % 4 == 2 {
                Mirroring::SingleScreenLower } else { Mirroring::SingleScreenUpper })
        }),
{
    lemma_window(s.chr, 0x400, page as int % 128, offset as int);
    lemma_byte_fields(page);
}

/// Work RAM that is not enabled reads as zero and ignores writes.
pub proof fn lemma_sunsoft4_work_ram(s: Sunsoft4State, addr: u16, data: u8)
    requires
        0x6000 <= addr < 0x8000,
        !s.prg_ram_enabled,
    ensures
        ({
            &&& Sunsoft4::cpu_byte(s, addr) == 0
            &&& Sunsoft4::after_cpu_write(s, addr, data) == s
        }),
{
}

/// At power-on bank 0 and the last bank are in the two halves, pattern bank 0 is shown, and the
/// lower screen is selected whatever the header says.
pub proof fn lemma_sunsoft2_at_power_on(cart: Cartridge, cpu: u16, ppu: u16)
    requires
        cart.prg_rom@.len() >= 0x4000,
        cpu >= 0x8000,
        ppu < 0x2000,
        cart.chr_ram || cart.chr_rom@.len() == 0 || cart.chr_rom@.len() >= 0x2000,
    ensures
        ({
            let s = Sunsoft2State::power_on(cart);
            &&& cpu < 0xC000
                    ==> Sunsoft2::cpu_byte(s, cpu) == window(cart.prg_rom@, 0x4000, 0, cpu as int)
            &&& cpu >= 0xC000
                    ==> Sunsoft2::cpu_byte(s, cpu) == window(cart.prg_rom@, 0x4000,
                        (cart.prg_rom@.len() as int / 0x4000) - 1, cpu as int)
            &&& cart.chr_ram || cart.chr_rom@.len() == 0 ==> Sunsoft2::ppu_byte(s, ppu) == 0
            &&& !cart.chr_ram && cart.chr_rom@.len() > 0
                    ==> Sunsoft2::ppu_byte(s, ppu) == window(cart.chr_rom@, 0x2000, 0, ppu as int)
            &&& Sunsoft2::mirrored(s) == Mirroring::SingleScreenLower
        }),
{
    assert(cart.prg_rom.len() == cart.prg_rom@.len());
    assert(cart.chr_rom.len() == cart.chr_rom@.len());
    lemma_byte_fields(0);
    lemma_window(cart.prg_rom@, 0x4000, 0, cpu as int);
    lemma_window(cart.prg_rom@, 0x4000, (cart.prg_rom@.len() as int / 0x4000) - 1, cpu as int);
    if cart.chr_ram || cart.chr_rom@.len() == 0 {
        lemma_window(crate::mem::zeros(0x2000), 0x2000, 0, ppu as int);
    } else {
        lemma_window(cart.chr_rom@, 0x2000, 0, ppu as int);
    }
}

/// At power-on bank 0 and the last bank are in the two halves, every pattern window shows bank 0,
/// the header gives the mirroring, and no interrupt is up.
pub proof fn lemma_sunsoft3_at_power_on(cart: Cartridge, cpu: u16, ppu: u16)
    requires
        cart.prg_rom@.len() >= 0x4000,
        cpu >= 0x8000,
        ppu < 0x2000,
        cart.chr_ram || cart.chr_rom@.len() == 0 || cart.chr_rom@.len() >= 0x800,
    ensures
        ({
            let s = Sunsoft3State::power_on(cart);
            &&& cpu < 0xC000
                    ==> Sunsoft3::cpu_byte(s, cpu) == window(cart.prg_rom@, 0x4000, 0, cpu as int)
            &&& cpu >= 0xC000
                    ==> Sunsoft3::cpu_byte(s, cpu) == window(cart.prg_rom@, 0x4000,
                        (cart.prg_rom@.len() as int / 0x4000) - 1, cpu as int)
            &&& cart.chr_ram || cart.chr_rom@.len() == 0 ==> Sunsoft3::ppu_byte(s, ppu) == 0
            &&& !cart.chr_ram && cart.chr_rom@.len() > 0
                    ==> Sunsoft3::ppu_byte(s, ppu) == window(cart.chr_rom@, 0x800, 0, ppu as int)
            &&& Sunsoft3::mirrored(s) == cart.mirroring
            &&& !Sunsoft3::irq(s) && !s.irq_enabled && !s.irq_toggle
        }),
{
    assert(cart.prg_rom.len() == cart.prg_rom@.len());
    assert(cart.chr_rom.len() == cart.chr_rom@.len());
    lemma_byte_fields(0);
    lemma_window(cart.prg_rom@, 0x4000, 0, cpu as int);
    lemma_window(cart.prg_rom@, 0x4000, (cart.prg_rom@.len() as int / 0x4000) - 1, cpu as int);
    if cart.chr_ram || cart.chr_rom@.len() == 0 {
        lemma_window(crate::mem::zeros(0x2000), 0x800, 0, ppu as int);
    } else {
        lemma_window(cart.chr_rom@, 0x800, 0, ppu as int);
    }
}

/// At power-on bank 0 and the last bank are in the two halves, every pattern window shows bank 0,
/// the header gives the mirroring, work RAM is off and nametables are the console's.
pub proof fn lemma_sunsoft4_at_power_on(cart: Cartridge, cpu: u16, ppu: u16)
    requires
        cart.prg_rom@.len() >= 0x4000,
        cpu >= 0x8000,
        ppu < 0x2000,
        cart.chr_ram || cart.chr_rom@.len() == 0 || cart.chr_rom@.len() >= 0x800,
    ensures
        ({
            let s = Sunsoft4State::power_on(cart);
            &&& cpu < 0xC000
                    ==> Sunsoft4::cpu_byte(s, cpu) == window(cart.prg_rom@, 0x4000, 0, cpu as int)
            &&& cpu >= 0xC000
                    ==> Sunsoft4::cpu_byte(s, cpu) == window(cart.prg_rom@, 0x4000,
                        (cart.prg_rom@.len() as int / 0x4000) - 1, cpu as int)
            &&& cart.chr_ram || cart.chr_rom@.len() == 0 ==> Sunsoft4::ppu_byte(s, ppu) == 0
            &&& !cart.chr_ram && cart.chr_rom@.len() > 0
                    ==> Sunsoft4::ppu_byte(s, ppu) == window(cart.chr_rom@, 0x800, 0, ppu as int)
            &&& Sunsoft4::mirrored(s) == cart.mirroring
            &&& !s.prg_ram_enabled && !s.use_chr_for_nametables
        }),
{
    assert(cart.prg_rom.len() == cart.prg_rom@.len());
    assert(cart.chr_rom.len() == cart.chr_rom@.len());
    lemma_byte_fields(0);
    lemma_window(cart.prg_rom@, 0x4000, 0, cpu as int);
    lemma_window(cart.prg_rom@, 0x4000, (cart.prg_rom@.len() as int / 0x4000) - 1, cpu as int);
    if cart.chr_ram || cart.chr_rom@.len() == 0 {
        lemma_window(crate::mem::zeros(0x2000), 0x800, 0, ppu as int);
    } else {
        lemma_window(cart.chr_rom@, 0x800, 0, ppu as int);
    }
}

/// At power-on the first pattern window shows bank 0, the second the first bank of the upper half
/// of 256, and the header gives the mirroring.
pub proof fn lemma_sunsoft1_at_power_on(cart: Cartridge, ppu: u16)
    requires
        !cart.chr_ram,
        cart.chr_rom@.len() >= 0x1000,
        ppu < 0x2000,
    ensures
        ({
            let s = Sunsoft1State::power_on(cart);
            &&& ppu < 0x1000
                    ==> Sunsoft1::ppu_byte(s, ppu) == window(cart.chr_rom@, 0x1000, 0, ppu as int)
            &&& ppu >= 0x1000
                    ==> Sunsoft1::ppu_byte(s, ppu) == window(cart.chr_rom@, 0x1000, 0x80, ppu as int)
            &&& Sunsoft1::mirrored(s) == cart.mirroring
            &&& s.prg_rom == cart.prg_rom@
        }),
{
    lemma_window(cart.chr_rom@, 0x1000, 0, ppu as int);
    lemma_window(cart.chr_rom@, 0x1000, 0x80, ppu as int);
    assert(cart.chr_rom.len() == cart.chr_rom@.len());
    lemma_byte_fields(0);
}

} // verus!
