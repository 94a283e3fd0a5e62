//! Registers of the Irem boards.
use vstd::prelude::*;

use crate::bits::{lemma_byte_fields, lemma_wrap_masks};
use crate::mapper::Mapper;
use crate::mapper::irem_74x161::{Irem74x161, Irem74x161State, MirrorMode};
use crate::mapper::irem_g101::{IremG101, IremG101State};
use crate::mapper::irem_h3001::{IremH3001, IremH3001State};
use crate::mapper::irem_lrog017::{IremLrog017, IremLrog017State};
use crate::mapper::irem_tam_s1;
use crate::mapper::irem_tam_s1::{IremTamS1, IremTamS1State};
use crate::mapper::laws::{lemma_window, window};
use crate::rom::{Cartridge, Mirroring};

verus! {

/// A write is masked by the ROM byte under it and picks a 16 KiB PRG bank by its low three bits, an
/// 8 KiB pattern bank by its high four, and the mirroring by bit 3: one screen or the other, or
/// horizontal or vertical.
pub proof fn lemma_irem_74x161_latch(s: Irem74x161State, addr: u16, data: u8, cpu: u16, ppu: u16)
    requires
        Irem74x161::ok(s),
        s.prg_rom.len() >= 0x4000,
        s.chr.len() >= 0x2000,
        cpu >= 0x8000,
        ppu < 0x2000,
        addr >= 0x8000,
    ensures
        ({
            let v = data & Irem74x161::cpu_byte(s, addr);
            let t = Irem74x161::after_cpu_write(s, addr, data);
            let bit = v / 8 % 2 == 1;
            &&& cpu < 0xC000
                    ==> Irem74x161::cpu_byte(t, cpu) == window(s.prg_rom, 0x4000, v as int % 8, cpu as int)
            &&& cpu >= 0xC000
                    ==> Irem74x161::cpu_byte(t, cpu) == window(s.prg_rom, 0x4000,
                        (s.prg_rom.len() as int / 0x4000) - 1, cpu as int)
            &&& Irem74x161::ppu_byte(t, ppu) == window(s.chr, 0x2000, v as int / 16, ppu as int)
            &&& s.mirror_mode == MirrorMode::SingleScreen
                    ==> Irem74x161::mirrored(t) == (if bit { Mirroring::SingleScreenUpper } else {
                        Mirroring::SingleScreenLower })
            &&& s.mirror_mode == MirrorMode::HorizontalVertical
                    ==> Irem74x161::mirrored(t) == (if bit { Mirroring::Vertical } else {
                        Mirroring::Horizontal })
        }),
{
    let v = data & Irem74x161::cpu_byte(s, addr);
    lemma_window(s.prg_rom, 0x4000, v as int % 8, cpu as int);
    lemma_window(s.prg_rom, 0x4000, (s.prg_rom.len() as int / 0x4000) - 1, cpu as int);
    lemma_window(s.chr, 0x2000, v as int / 16, ppu as int);
    lemma_byte_fields(data & Irem74x161::cpu_byte(s, addr));
}

/// At power-on bank 0 and the last bank are in the two halves and pattern bank 0 is shown.
/// Submapper 3 has the horizontal and vertical wiring and starts horizontal, any other starts on
/// the lower screen.
pub proof fn lemma_irem74x161_at_power_on(cart: Cartridge, cpu: u16, ppu: u16)
    requires
        cart.prg_rom@.len() >= 0x4000,
        cpu >= 0x8000,
        ppu < 0x2000,
        cart.chr_ram || cart.chr_rom@.len() == 0 || cart.chr_rom@.len() >= 0x2000,
    ensures
        ({
            let s = Irem74x161State::power_on(cart);
            &&& cpu < 0xC000
                    ==> Irem74x161::cpu_byte(s, cpu) == window(cart.prg_rom@, 0x4000, 0, cpu as int)
            &&& cpu >= 0xC000
                    ==> Irem74x161::cpu_byte(s, cpu) == window(cart.prg_rom@, 0x4000,
                        (cart.prg_rom@.len() as int / 0x4000) - 1, cpu as int)
            &&& cart.chr_ram || cart.chr_rom@.len() == 0 ==> Irem74x161::ppu_byte(s, ppu) == 0
            &&& !cart.chr_ram && cart.chr_rom@.len() > 0
                    ==> Irem74x161::ppu_byte(s, ppu) == window(cart.chr_rom@, 0x2000, 0, ppu as int)
            &&& cart.submapper == 3 ==> s.mirror_mode == MirrorMode::HorizontalVertical
                    && Irem74x161::mirrored(s) == Mirroring::Horizontal
            &&& cart.submapper != 3 ==> s.mirror_mode == MirrorMode::SingleScreen
                    && Irem74x161::mirrored(s) == Mirroring::SingleScreenLower
        }),
{
    assert(cart.prg_rom.len() == cart.prg_rom@.len());
    assert(cart.chr_rom.len() == cart.chr_rom@.len());
    lemma_byte_fields(0);
    lemma_window(cart.prg_rom@, 0x4000, 0, cpu as int);
    lemma_window(cart.prg_rom@, 0x4000, (cart.prg_rom@.len() as int / 0x4000) - 1, cpu as int);
    if cart.chr_ram || cart.chr_rom@.len() == 0 {
        lemma_window(crate::mem::zeros(0x2000), 0x2000, 0, ppu as int);
    } else {
        lemma_window(cart.chr_rom@, 0x2000, 0, ppu as int);
    }
}

/// On a board of full size, `$8000` and `$A000` hold two 8 KiB banks of five bits. Mode 0 has the
/// first at `$8000` and the last bank but one at `$C000`, mode 1 has them the other way round; the
/// second bank and the last stay at `$A000` and `$E000`.
pub proof fn lemma_g101_prg_registers(
    s: IremG101State,
    a: u16,
    first: u8,
    b: u16,
    second: u8,
    cpu: u16,
    ppu: u16,
)
    requires
        IremG101::ok(s),
        s.prg_rom.len() == 0x4_0000,
        s.chr.len() == 0x4_0000,
        cpu >= 0x8000,
        ppu < 0x2000,
        a / 0x1000 == 8,
        b / 0x1000 == 0xA,
        s.prg_mode < 2,
    ensures
        ({
            let t = IremG101::after_cpu_write(IremG101::after_cpu_write(s, a, first), b, second);
            let front = if s.prg_mode == 0 { 0int } else { 2 };
            let slot = (cpu - 0x8000) / 0x2000;
            &&& slot == front
                    ==> IremG101::cpu_byte(t, cpu) == window(s.prg_rom, 0x2000, first as int % 32, cpu as int)
            &&& slot == 1
                    ==> IremG101::cpu_byte(t, cpu) == window(s.prg_rom, 0x2000, second as int % 32,
                        cpu as int)
            &&& slot == 2 - front
                    ==> IremG101::cpu_byte(t, cpu) == window(s.prg_rom, 0x2000, 30, cpu as int)
            &&& slot == 3 ==> IremG101::cpu_byte(t, cpu) == window(s.prg_rom, 0x2000, 31, cpu as int)
            &&& IremG101::ppu_byte(t, ppu) == IremG101::ppu_byte(s, ppu)
            &&& IremG101::mirrored(t) == IremG101::mirrored(s)
        }),
{
    lemma_window(s.prg_rom, 0x2000, first as int % 32, cpu as int);
    lemma_window(s.prg_rom, 0x2000, second as int % 32, cpu as int);
    lemma_window(s.prg_rom, 0x2000, 30, cpu as int);
    lemma_window(s.prg_rom, 0x2000, 31, cpu as int);
    lemma_byte_fields(first);
    lemma_byte_fields(second);
    lemma_wrap_masks((first & 0x1F) as usize);
    lemma_wrap_masks((second & 0x1F) as usize);
    lemma_wrap_masks(30);
    lemma_wrap_masks(31);
}

/// `$9000` sets the mirroring by bit 0 and the PRG mode by bit 1, except on the board whose
/// mirroring is fixed.
pub proof fn lemma_g101_mode_register(s: IremG101State, addr: u16, data: u8)
    requires
        addr / 0x1000 == 9,
    ensures
        ({
            let t = IremG101::after_cpu_write(s, addr, data);
            &&& s.major_league ==> t == s
            &&& !s.major_league
                    ==> IremG101::mirrored(t) == (if data % 2 == 0 { Mirroring::Vertical } else {
                        Mirroring::Horizontal })
                    && t.prg_mode == data / 2 % 2 && t.prg_reg0 == s.prg_reg0
                    && t.prg_reg1 == s.prg_reg1 && t.chr_regs == s.chr_regs
        }),
{
    lemma_byte_fields(data);
}

/// On a board of full size, each of the eight registers from `$B000` on shows its 1 KiB bank in the
/// pattern window of its number.
pub proof fn lemma_g101_chr_registers(s: IremG101State, k: int, addr: u16, data: u8, cpu: u16, ppu: u16)
    requires
        IremG101::ok(s),
        s.prg_rom.len() == 0x4_0000,
        s.chr.len() == 0x4_0000,
        cpu >= 0x8000,
        ppu < 0x2000,
        0 <= k < 8,
        addr / 0x1000 == 0xB,
        addr % 8 == k,
    ensures
        ({
            let t = IremG101::after_cpu_write(s, addr, data);
            &&& ppu as int / 0x400 == k
                    ==> IremG101::ppu_byte(t, ppu) == window(s.chr, 0x400, data as int, ppu as int)
            &&& ppu as int / 0x400 != k ==> IremG101::ppu_byte(t, ppu) == IremG101::ppu_byte(s, ppu)
            &&& IremG101::cpu_byte(t, cpu) == IremG101::cpu_byte(s, cpu)
            &&& IremG101::mirrored(t) == IremG101::mirrored(s)
        }),
{
    lemma_window(s.chr, 0x400, data as int, ppu as int);
    lemma_wrap_masks(data as usize);
}

/// No other address has a register.
pub proof fn lemma_g101_other_writes(s: IremG101State, addr: u16, data: u8)
    requires
        addr >= 0xC000 || addr < 0x6000,
    ensures
        ({
            &&& IremG101::after_cpu_write(s, addr, data) == s
        }),
{
}

/// At power-on both registers select bank 0 in mode 0 and every pattern register bank 0. Submapper
/// 1 is fixed on the upper screen; elsewhere the header gives the mirroring.
pub proof fn lemma_g101_at_power_on(cart: Cartridge, k: int)
    requires
        0 <= k < 8,
    ensures
        ({
            let s = IremG101State::power_on(cart);
            &&& s.prg_rom == cart.prg_rom@
            &&& s.prg_mode == 0 && s.prg_reg0 == 0 && s.prg_reg1 == 0 && s.chr_regs[k] == 0
            &&& s.major_league == (cart.submapper == 1)
            &&& cart.submapper == 1 ==> IremG101::mirrored(s) == Mirroring::SingleScreenUpper
            &&& cart.submapper != 1 ==> IremG101::mirrored(s) == cart.mirroring
            &&& cart.chr_rom@.len() > 0 && !cart.chr_ram ==> s.chr == cart.chr_rom@ && !s.chr_ram
            &&& cart.chr_rom@.len() == 0 || cart.chr_ram ==> s.chr.len() == 0x2000 && s.chr_ram
        }),
{
}

/// On a board of full size, `$8000`, `$A000` and `$C000` hold the 8 KiB banks of the windows they
/// stand in; the last window has the last bank.
pub proof fn lemma_h3001_prg_registers(s: IremH3001State, k: int, addr: u16, data: u8, cpu: u16, ppu: u16)
    requires
        IremH3001::ok(s),
        s.prg_rom.len() == 0x20_0000,
        s.chr.len() == 0x4_0000,
        cpu >= 0x8000,
        ppu < 0x2000,
        0 <= k < 3,
        addr == 0x8000 + 0x2000 * k,
    ensures
        ({
            let t = IremH3001::after_cpu_write(s, addr, data);
            &&& (cpu - 0x8000) / 0x2000 == k
                    ==> IremH3001::cpu_byte(t, cpu) == window(s.prg_rom, 0x2000, data as int, cpu as int)
            &&& (cpu - 0x8000) / 0x2000 != k
                    ==> IremH3001::cpu_byte(t, cpu) == IremH3001::cpu_byte(s, cpu)
            &&& cpu >= 0xE000
                    ==> IremH3001::cpu_byte(t, cpu) == window(s.prg_rom, 0x2000, 255, cpu as int)
            &&& IremH3001::ppu_byte(t, ppu) == IremH3001::ppu_byte(s, ppu)
            &&& IremH3001::mirrored(t) == IremH3001::mirrored(s)
            &&& IremH3001::irq(t) == IremH3001::irq(s)
        }),
{
    lemma_window(s.prg_rom, 0x2000, data as int, cpu as int);
    lemma_window(s.prg_rom, 0x2000, 255, cpu as int);
    lemma_wrap_masks(data as usize);
    lemma_wrap_masks(255);
}

/// On a board of full size, each of the eight registers from `$B000` on shows its 1 KiB bank in the
/// pattern window of its number.
pub proof fn lemma_h3001_chr_registers(s: IremH3001State, k: int, addr: u16, data: u8, cpu: u16, ppu: u16)
    requires
        IremH3001::ok(s),
        s.prg_rom.len() == 0x20_0000,
        s.chr.len() == 0x4_0000,
        cpu >= 0x8000,
        ppu < 0x2000,
        0 <= k < 8,
        addr == 0xB000 + k,
    ensures
        ({
            let t = IremH3001::after_cpu_write(s, addr, data);
            &&& ppu as int / 0x400 == k
                    ==> IremH3001::ppu_byte(t, ppu) == window(s.chr, 0x400, data as int, ppu as int)
            &&& ppu as int / 0x400 != k ==> IremH3001::ppu_byte(t, ppu) == IremH3001::ppu_byte(s, ppu)
            &&& IremH3001::cpu_byte(t, cpu) == IremH3001::cpu_byte(s, cpu)
            &&& IremH3001::mirrored(t) == IremH3001::mirrored(s)
            &&& IremH3001::irq(t) == IremH3001::irq(s)
        }),
{
    lemma_window(s.chr, 0x400, data as int, ppu as int);
    lemma_wrap_masks(data as usize);
}

/// `$9001` sets the mirroring by bit 7; `$9003` enables the counter by bit 7 and acknowledges;
/// `$9004` loads it from the latch and acknowledges; `$9005` and `$9006` are the latch's high and
/// low byte.
pub proof fn lemma_h3001_control(s: IremH3001State, addr: u16, data: u8)
    requires
        IremH3001::ok(s),
    ensures
        ({
            let t = IremH3001::after_cpu_write(s, addr, data);
            &&& addr == 0x9001
                    ==> t == (IremH3001State { mirroring: if data >= 128 {
                        Mirroring::Horizontal } else { Mirroring::Vertical }, ..s })
            &&& addr == 0x9003
                    ==> t == (IremH3001State { irq_enabled: data >= 128, irq_line: false, ..s })
            &&& addr == 0x9004
                    ==> t == (IremH3001State { irq_counter: s.irq_latch, irq_line: false, ..s })
            &&& addr == 0x9005 ==> t.irq_latch == data * 0x100 + s.irq_latch % 0x100
                    && t.irq_counter == s.irq_counter
            &&& addr == 0x9006 ==> t.irq_latch == s.irq_latch / 0x100 * 0x100 + data
                    && t.irq_counter == s.irq_counter
            &&& 0x9007 <= addr < 0xA000 || addr == 0x9000 || addr == 0x9002 || addr > 0xC000
                || 0xB008 <= addr < 0xC000
                    ==> t == s
        }),
{
    lemma_byte_fields(data);
}

/// At power-on the first three windows have banks 0, 1 and 0, every pattern register bank 0, the
/// header gives the mirroring, and the counter is off.
pub proof fn lemma_h3001_at_power_on(cart: Cartridge, k: int)
    requires
        0 <= k < 8,
    ensures
        ({
            let s = IremH3001State::power_on(cart);
            &&& s.prg_rom == cart.prg_rom@
            &&& s.prg_regs =~= seq![0u8, 1u8, 0u8]
            &&& s.chr_regs[k] == 0
            &&& IremH3001::mirrored(s) == cart.mirroring
            &&& !IremH3001::irq(s) && !s.irq_enabled && s.irq_counter == 0 && s.irq_latch == 0
            &&& cart.chr_rom@.len() > 0 && !cart.chr_ram ==> s.chr == cart.chr_rom@ && !s.chr_ram
            &&& cart.chr_rom@.len() == 0 || cart.chr_ram ==> s.chr.len() == 0x2000 && s.chr_ram
        }),
{
}

/// A write is masked by the ROM byte under it and picks a 32 KiB PRG bank by its low four bits and
/// a 2 KiB pattern ROM bank for `$0000-$07FF` by its high four; the rest of the pattern space is
/// RAM, and all four screens are there.
pub proof fn lemma_lrog017_latch(s: IremLrog017State, addr: u16, data: u8, cpu: u16, ppu: u16)
    requires
        IremLrog017::ok(s),
        s.prg_rom.len() >= 0x8000,
        s.chr_rom.len() >= 0x800,
        cpu >= 0x8000,
        ppu < 0x2000,
        addr >= 0x8000,
        s.chr_ram.len() == 0x1800,
    ensures
        ({
            let v = data & IremLrog017::cpu_byte(s, addr);
            let t = IremLrog017::after_cpu_write(s, addr, data);
            &&& IremLrog017::cpu_byte(t, cpu) == window(s.prg_rom, 0x8000, v as int % 16, cpu as int)
            &&& ppu < 0x800
                    ==> IremLrog017::ppu_byte(t, ppu) == window(s.chr_rom, 0x800, v as int / 16, ppu as int)
            &&& ppu >= 0x800 ==> IremLrog017::ppu_byte(t, ppu) == s.chr_ram[ppu - 0x800]
            &&& IremLrog017::mirrored(t) == Mirroring::FourScreen
        }),
{
    let v = data & IremLrog017::cpu_byte(s, addr);
    lemma_window(s.prg_rom, 0x8000, v as int % 16, cpu as int);
    lemma_window(s.chr_rom, 0x800, v as int / 16, ppu as int);
    lemma_byte_fields(data & IremLrog017::cpu_byte(s, addr));
}

/// Pattern RAM keeps what the PPU writes from `$0800` on, and pattern ROM below ignores it.
pub proof fn lemma_lrog017_pattern_ram(s: IremLrog017State, addr: u16, data: u8, ppu: u16)
    requires
        s.chr_ram.len() == 0x1800,
        ppu < 0x2000,
    ensures
        ({
            let t = IremLrog017::after_ppu_write(s, addr, data);
            &&& addr < 0x800 || addr >= 0x2000 ==> t == s
            &&& 0x800 <= addr < 0x2000 ==> IremLrog017::ppu_byte(t, addr) == data
            &&& ppu != addr ==> IremLrog017::ppu_byte(t, ppu) == IremLrog017::ppu_byte(s, ppu)
        }),
{
}

/// At power-on bank 0 is shown in both ROM windows and pattern RAM is blank.
pub proof fn lemma_lrog017_at_power_on(cart: Cartridge, cpu: u16, ppu: u16)
    requires
        cart.prg_rom@.len() >= 0x8000,
        cart.chr_rom@.len() >= 0x800,
        cpu >= 0x8000,
        ppu < 0x2000,
    ensures
        ({
            let s = IremLrog017State::power_on(cart);
            &&& IremLrog017::cpu_byte(s, cpu) == window(cart.prg_rom@, 0x8000, 0, cpu as int)
            &&& ppu < 0x800
                    ==> IremLrog017::ppu_byte(s, ppu) == window(cart.chr_rom@, 0x800, 0, ppu as int)
            &&& ppu >= 0x800 ==> IremLrog017::ppu_byte(s, ppu) == 0
        }),
{
    lemma_window(cart.prg_rom@, 0x8000, 0, cpu as int);
    lemma_window(cart.chr_rom@, 0x800, 0, ppu as int);
    assert(cart.prg_rom.len() == cart.prg_rom@.len());
    assert(cart.chr_rom.len() == cart.chr_rom@.len());
    lemma_byte_fields(0);
}

/// A write picks the 16 KiB PRG bank at `$C000` by its low four bits, with the last bank fixed at
/// `$8000`, and the mirroring: bit 7 alone, horizontal or vertical, or bits 6-7, one screen,
/// horizontal, vertical, the other screen.
pub proof fn lemma_tam_s1_latch(s: IremTamS1State, addr: u16, data: u8, cpu: u16, ppu: u16)
    requires
        IremTamS1::ok(s),
        s.prg_rom.len() >= 0x4000,
        cpu >= 0x8000,
        ppu < 0x2000,
        addr >= 0x8000,
    ensures
        ({
            let t = IremTamS1::after_cpu_write(s, addr, data);
            &&& cpu >= 0xC000
                    ==> IremTamS1::cpu_byte(t, cpu) == window(s.prg_rom, 0x4000, data as int % 16, cpu as int)
            &&& cpu < 0xC000
                    ==> IremTamS1::cpu_byte(t, cpu) == window(s.prg_rom, 0x4000,
                        (s.prg_rom.len() as int / 0x4000) - 1, cpu as int)
            &&& IremTamS1::ppu_byte(t, ppu) == IremTamS1::ppu_byte(s, ppu)
            &&& s.mirror_mode == irem_tam_s1::MirrorMode::TwoMode
                    ==> IremTamS1::mirrored(t) == (if data >= 128 { Mirroring::Vertical } else {
                        Mirroring::Horizontal })
            &&& s.mirror_mode == irem_tam_s1::MirrorMode::FourMode
                    ==> IremTamS1::mirrored(t) == (if data / 64 == 0 {
                        Mirroring::SingleScreenLower } else if data / 64 == 1 {
                        Mirroring::Horizontal } else if data / 64 == 2 { Mirroring::Vertical } else {
                        Mirroring::SingleScreenUpper })
        }),
{
    lemma_window(s.prg_rom, 0x4000, data as int % 16, cpu as int);
    lemma_window(s.prg_rom, 0x4000, (s.prg_rom.len() as int / 0x4000) - 1, cpu as int);
    lemma_byte_fields(data);
}

/// At power-on the last bank is at `$8000` and bank 0 at `$C000`. Submapper 1 decodes two mirroring
/// bits and starts on the lower screen, any other starts horizontal.
pub proof fn lemma_tam_s1_at_power_on(cart: Cartridge, cpu: u16, ppu: u16)
    requires
        cart.prg_rom@.len() >= 0x4000,
        cpu >= 0x8000,
        ppu < 0x2000,
    ensures
        ({
            let s = IremTamS1State::power_on(cart);
            &&& cpu < 0xC000
                    ==> IremTamS1::cpu_byte(s, cpu) == window(cart.prg_rom@, 0x4000,
                        (cart.prg_rom@.len() as int / 0x4000) - 1, cpu as int)
            &&& cpu >= 0xC000
                    ==> IremTamS1::cpu_byte(s, cpu) == window(cart.prg_rom@, 0x4000, 0, cpu as int)
            &&& cart.submapper == 1 ==> s.mirror_mode == irem_tam_s1::MirrorMode::FourMode
                    && IremTamS1::mirrored(s) == Mirroring::SingleScreenLower
            &&& cart.submapper != 1 ==> s.mirror_mode == irem_tam_s1::MirrorMode::TwoMode
                    && IremTamS1::mirrored(s) == Mirroring::Horizontal
            &&& !cart.chr_ram && ppu < cart.chr_rom@.len()
                    ==> IremTamS1::ppu_byte(s, ppu) == cart.chr_rom@[ppu as int]
        }),
{
    lemma_window(cart.prg_rom@, 0x4000, (cart.prg_rom@.len() as int / 0x4000) - 1, cpu as int);
    lemma_window(cart.prg_rom@, 0x4000, 0, cpu as int);
    assert(cart.prg_rom.len() == cart.prg_rom@.len());
    lemma_byte_fields(0);
}

} // verus!
