//! Registers of the Namco 118 boards.
use vstd::prelude::*;

use crate::bits::lemma_byte_fields;
use crate::mapper::laws::{lemma_window, window};
use crate::mapper::namco_118::{Namco118, Namco118State, Variant};
use crate::mapper::{Mapper, NametableSource, NametableWriteTarget};
use crate::rom::{Cartridge, Mirroring};

verus! {

/// A register number at an even address and a bank at an odd one in `$8000-$9FFF` set that
/// register, by the three low bits of its number, and no other.
pub proof fn lemma_namco_118_bank_registers(s: Namco118State, a: u16, sel: u8, b: u16, data: u8, k: int)
    requires
        Namco118::ok(s),
        0x8000 <= a < 0xA000,
        0x8000 <= b < 0xA000,
        a % 2 == 0,
        b % 2 == 1,
        0 <= k < 8,
    ensures
        ({
            let t = Namco118::after_cpu_write(Namco118::after_cpu_write(s, a, sel), b, data);
            &&& t.bank_regs.len() == 8
            &&& k == sel % 8 ==> t.bank_regs[k] == data
            &&& k != sel % 8 ==> t.bank_regs[k] == s.bank_regs[k]
            &&& t == (Namco118State { bank_select: t.bank_select, bank_regs: t.bank_regs,
                mirroring: t.mirroring, ..s })
        }),
{
    lemma_byte_fields(sel);
}

/// Registers 6 and 7 show 8 KiB banks at `$8000` and `$A000`, and the last two banks stay above.
pub proof fn lemma_namco_118_prg_windows(s: Namco118State, cpu: u16)
    requires
        Namco118::ok(s),
        s.prg_rom.len() >= 0x4000,
        cpu >= 0x8000,
    ensures
        ({
            let slot = (cpu - 0x8000) / 0x2000;
            &&& slot == 0
                    ==> Namco118::cpu_byte(s, cpu) == window(s.prg_rom, 0x2000, s.bank_regs[6] as int,
                        cpu as int)
            &&& slot == 1
                    ==> Namco118::cpu_byte(s, cpu) == window(s.prg_rom, 0x2000, s.bank_regs[7] as int,
                        cpu as int)
            &&& slot == 2
                    ==> Namco118::cpu_byte(s, cpu) == window(s.prg_rom, 0x2000,
                        (s.prg_rom.len() as int / 0x2000) - 2, cpu as int)
            &&& slot == 3
                    ==> Namco118::cpu_byte(s, cpu) == window(s.prg_rom, 0x2000,
                        (s.prg_rom.len() as int / 0x2000) - 1, cpu as int)
        }),
{
    lemma_window(s.prg_rom, 0x2000, s.bank_regs[6] as int, cpu as int);
    lemma_window(s.prg_rom, 0x2000, s.bank_regs[7] as int, cpu as int);
    lemma_window(s.prg_rom, 0x2000, (s.prg_rom.len() as int / 0x2000) - 2, cpu as int);
    lemma_window(s.prg_rom, 0x2000, (s.prg_rom.len() as int / 0x2000) - 1, cpu as int);
}

/// Registers 0 and 1 show pairs of 1 KiB banks in the first four pattern windows, registers 2 to 5
/// single ones in the others.
pub proof fn lemma_namco_118_chr_windows(s: Namco118State, ppu: u16)
    requires
        Namco118::ok(s),
        s.chr.len() >= 0x400,
        s.variant == Variant::Mapper206 || s.variant == Variant::Mapper95,
        ppu < 0x2000,
    ensures
        ({
            let slot = ppu as int / 0x400;
            &&& slot < 4
                    ==> Namco118::ppu_byte(s, ppu) == window(s.chr, 0x400,
                        s.bank_regs[slot / 2] as int / 2 * 2 + slot % 2, ppu as int)
            &&& slot >= 4
                    ==> Namco118::ppu_byte(s, ppu) == window(s.chr, 0x400,
                        s.bank_regs[slot - 2] as int, ppu as int)
        }),
{
    let slot = ppu as int / 0x400;
    lemma_window(s.chr, 0x400, s.bank_regs[slot / 2] as int / 2 * 2 + slot % 2, ppu as int);
    lemma_window(s.chr, 0x400, s.bank_regs[slot - 2] as int, ppu as int);
}

/// Where 64 KiB of pattern memory are split, registers 0 and 1 show pairs of banks of the low half
/// in the first four windows, and registers 2 to 5 single banks of the high half in the others.
pub proof fn lemma_namco_118_split_windows_of_64k(s: Namco118State, ppu: u16)
    requires
        Namco118::ok(s),
        s.chr.len() == 0x1_0000,
        s.variant == Variant::Mapper88 || s.variant == Variant::Mapper154,
        ppu < 0x2000,
    ensures
        ({
            let slot = ppu as int / 0x400;
            &&& slot < 4
                    ==> Namco118::ppu_byte(s, ppu)
                        == s.chr[(s.bank_regs[slot / 2] as int % 32 / 2 * 2 + slot % 2) * 0x400 + ppu as int % 0x400]
            &&& slot >= 4
                    ==> Namco118::ppu_byte(s, ppu)
                        == s.chr[(32 + s.bank_regs[slot - 2] as int % 32) * 0x400 + ppu as int % 0x400]
        }),
{
    let slot = ppu as int / 0x400;
    lemma_split_page(s, slot, 32);
}

/// Where 128 KiB of pattern memory are split, registers 0 and 1 show pairs of banks of the low half
/// in the first four windows, and registers 2 to 5 single banks of the high half in the others.
pub proof fn lemma_namco_118_split_windows_of_128k(s: Namco118State, ppu: u16)
    requires
        Namco118::ok(s),
        s.chr.len() == 0x2_0000,
        s.variant == Variant::Mapper88 || s.variant == Variant::Mapper154,
        ppu < 0x2000,
    ensures
        ({
            let slot = ppu as int / 0x400;
            &&& slot < 4
                    ==> Namco118::ppu_byte(s, ppu)
                        == s.chr[(s.bank_regs[slot / 2] as int % 64 / 2 * 2 + slot % 2) * 0x400 + ppu as int % 0x400]
            &&& slot >= 4
                    ==> Namco118::ppu_byte(s, ppu)
                        == s.chr[(64 + s.bank_regs[slot - 2] as int % 64) * 0x400 + ppu as int % 0x400]
        }),
{
    let slot = ppu as int / 0x400;
    lemma_split_page(s, slot, 64);
}

proof fn lemma_extra_line(raw: u8)
    ensures
        raw & 0x3F == raw % 64,
        (raw | 0x40) % 64 == raw % 64,
{
    lemma_byte_fields(raw);
}

proof fn lemma_split_page(s: Namco118State, slot: int, half: int)
    requires
        s.splits_chr(),
        s.half_banks() == half,
        half == 32 || half == 64,
        s.bank_regs.len() == 8,
        0 <= slot < 8,
    ensures
        slot < 4 ==> s.chr_page(slot) == s.bank_regs[slot / 2] as int % half / 2 * 2 + slot % 2,
        slot >= 4 ==> s.chr_page(slot) == half + s.bank_regs[slot - 2] as int % half,
{
    let reg = if slot < 4 { slot / 2 } else { slot - 2 };
    let raw = s.bank_regs[reg];
    lemma_extra_line(raw);
    lemma_pair_wraps(raw as int, slot % 2);
    let x = (raw | 0x40) as int;
    assert(x % 32 == x % 64 % 32);
}

proof fn lemma_pair_wraps(raw: int, odd: int)
    requires
        0 <= raw < 256,
        0 <= odd < 2,
    ensures
        (raw % 64 / 2 * 2 + odd) % 32 == raw % 32 / 2 * 2 + odd,
        (raw % 64 / 2 * 2 + odd) % 64 == raw % 64 / 2 * 2 + odd,
        raw % 64 % 32 == raw % 32,
{
    let r = raw % 64;
    if r < 32 {
        assert(raw % 32 == r);
    } else {
        assert(raw % 32 == r - 32);
        assert((r - 32) / 2 == r / 2 - 16);
    }
}

/// Mapper 154 picks the screen by bit 6 of every register write. Mapper 95 gives the first two
/// nametables the page of bit 5 of register 0 and the others that of register 1. The rest keep the
/// mirroring of the cart.
pub proof fn lemma_namco_118_mirroring(s: Namco118State, addr: u16, data: u8, slot: u8, offset: u16, byte: u8)
    requires
        Namco118::ok(s),
        slot < 4,
    ensures
        ({
            let t = Namco118::after_cpu_write(s, addr, data);
            let page = if slot < 2 { s.bank_regs[0] } else { s.bank_regs[1] };
            &&& s.variant != Variant::Mapper154 || addr < 0x8000 || addr >= 0xA000
                    ==> Namco118::mirrored(t) == Namco118::mirrored(s)
            &&& s.variant == Variant::Mapper154 && 0x8000 <= addr < 0xA000
                    ==> Namco118::mirrored(t) == (if data / 64 % 2 == 1 {
                        Mirroring::SingleScreenUpper } else { Mirroring::SingleScreenLower })
            &&& s.variant != Variant::Mapper95
                    ==> Namco118::nametable_source(s, slot, offset) == NametableSource::Default
                    && Namco118::nametable_target(s, slot, offset, byte) == NametableWriteTarget::Default
            &&& s.variant == Variant::Mapper95 && page / 32 % 2 == 0
                    ==> Namco118::nametable_source(s, slot, offset) == NametableSource::CiramA
                    && Namco118::nametable_target(s, slot, offset, byte) == NametableWriteTarget::CiramA
            &&& s.variant == Variant::Mapper95 && page / 32 % 2 == 1
                    ==> Namco118::nametable_source(s, slot, offset) == NametableSource::CiramB
                    && Namco118::nametable_target(s, slot, offset, byte) == NametableWriteTarget::CiramB
        }),
{
    let page = if slot < 2 { s.bank_regs[0] } else { s.bank_regs[1] };
    lemma_byte_fields(data);
    lemma_byte_fields(page);
}

/// Nothing above `$9FFF` takes a write, nor anything below `$6000`.
pub proof fn lemma_namco_118_other_writes(s: Namco118State, addr: u16, data: u8)
    requires
        addr >= 0xA000 || addr < 0x6000,
    ensures
        ({
            &&& Namco118::after_cpu_write(s, addr, data) == s
        }),
{
}

/// At power-on both PRG windows show bank 0 and every pattern register holds 0; the header gives
/// the mirroring.
pub proof fn lemma_namco_118_at_power_on(cart: Cartridge, variant: Variant, cpu: u16, k: int)
    requires
        cart.prg_rom@.len() >= 0x4000,
        cpu >= 0x8000,
        0 <= k < 8,
    ensures
        ({
            let s = Namco118State::power_on(cart, variant);
            &&& cpu < 0xC000
                    ==> Namco118::cpu_byte(s, cpu) == window(cart.prg_rom@, 0x2000, 0, cpu as int)
            &&& cpu >= 0xE000
                    ==> Namco118::cpu_byte(s, cpu) == window(cart.prg_rom@, 0x2000,
                        (cart.prg_rom@.len() as int / 0x2000) - 1, cpu as int)
            &&& s.bank_regs[k] == 0 && s.bank_select == 0
            &&& s.variant == variant
            &&& Namco118::mirrored(s) == cart.mirroring
            &&& !cart.chr_ram && cart.chr_rom@.len() > 0 ==> s.chr == cart.chr_rom@ && !s.chr_ram
            &&& cart.chr_ram || cart.chr_rom@.len() == 0 ==> s.chr.len() == 0x2000 && s.chr_ram
        }),
{
    lemma_window(cart.prg_rom@, 0x2000, 0, cpu as int);
    lemma_window(cart.prg_rom@, 0x2000, (cart.prg_rom@.len() as int / 0x2000) - 1, cpu as int);
    assert(cart.prg_rom.len() == cart.prg_rom@.len());
}

} // verus!
