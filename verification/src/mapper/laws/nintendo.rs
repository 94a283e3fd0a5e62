//! Registers of the Nintendo boards.
use vstd::prelude::*;

use crate::bits::{lemma_byte_fields, lemma_top_flags, lemma_wrap_masks};
use crate::mapper::laws::{lemma_window, window};
use crate::mapper::mapper037::{Mapper037, Mapper037State};
use crate::mapper::mapper047::{Mapper047, Mapper047State};
use crate::mapper::mmc1::{Mmc1, Mmc1State};
use crate::mapper::mmc2::{Mmc2, Mmc2State};
use crate::mapper::mmc3::{Mmc3, Mmc3State};
use crate::mapper::nes_event::{Mapper105, Mapper105State};
use crate::mapper::nrom::{Nrom, NromState};
use crate::mapper::{Mapper, PpuFetchKind};
use crate::rom::{Cartridge, Mirroring};

verus! {

/// Writes outside work RAM have no effect, and neither have PPU writes to pattern ROM.
pub proof fn lemma_nrom_has_no_registers(s: NromState, addr: u16, data: u8)
    requires
        Nrom::ok(s),
    ensures
        ({
            &&& addr < 0x6000 || addr >= 0x8000 ==> Nrom::after_cpu_write(s, addr, data) == s
            &&& !s.chr_ram || addr >= 0x2000 ==> Nrom::after_ppu_write(s, addr, data) == s
        }),
{
}

/// At power-on the cart's memories are there as they are, and the header gives the mirroring.
pub proof fn lemma_nrom_at_power_on(cart: Cartridge, cpu: u16, ppu: u16)
    requires
        cart.prg_rom@.len() == 0x4000 || cart.prg_rom@.len() == 0x8000,
        cpu >= 0x8000,
        ppu < 0x2000,
    ensures
        ({
            let s = NromState::power_on(cart);
            &&& Nrom::cpu_byte(s, cpu) == cart.prg_rom@[(cpu - 0x8000) % cart.prg_rom@.len() as int]
            &&& ppu < cart.chr_rom@.len() ==> Nrom::ppu_byte(s, ppu) == cart.chr_rom@[ppu as int]
            &&& Nrom::mirrored(s) == cart.mirroring
            &&& !Nrom::save_due(s)
        }),
{
    assert(cart.prg_rom.len() == cart.prg_rom@.len());
    lemma_wrap_masks((cpu - 0x8000) as usize);
}

/// The control register's bits 2-3 lay PRG-ROM out: 32 KiB pairs, the first bank fixed at `$8000`,
/// or the last fixed at `$C000`; the switched bank has four bits.
pub proof fn lemma_mmc1_prg_windows(s: Mmc1State, cpu: u16)
    requires
        Mmc1::ok(s),
        s.prg_rom.len() >= 0x4000,
        cpu >= 0x8000,
    ensures
        ({
            let mode = s.control / 4 % 4;
            let bank = s.prg_bank as int % 16;
            let high = cpu >= 0xC000;
            &&& mode < 2 && !high
                    ==> Mmc1::cpu_byte(s, cpu) == window(s.prg_rom, 0x4000, bank / 2 * 2, cpu as int)
            &&& mode < 2 && high
                    ==> Mmc1::cpu_byte(s, cpu) == window(s.prg_rom, 0x4000, bank / 2 * 2 + 1, cpu as int)
            &&& mode == 2 && !high ==> Mmc1::cpu_byte(s, cpu) == window(s.prg_rom, 0x4000, 0, cpu as int)
            &&& mode == 2 && high
                    ==> Mmc1::cpu_byte(s, cpu) == window(s.prg_rom, 0x4000, bank, cpu as int)
            &&& mode == 3 && !high
                    ==> Mmc1::cpu_byte(s, cpu) == window(s.prg_rom, 0x4000, bank, cpu as int)
            &&& mode == 3 && high
                    ==> Mmc1::cpu_byte(s, cpu) == window(s.prg_rom, 0x4000,
                        (s.prg_rom.len() as int / 0x4000) - 1, cpu as int)
        }),
{
    let bank = s.prg_bank as int % 16;
    lemma_window(s.prg_rom, 0x4000, bank / 2 * 2, cpu as int);
    lemma_window(s.prg_rom, 0x4000, bank / 2 * 2 + 1, cpu as int);
    lemma_window(s.prg_rom, 0x4000, 0, cpu as int);
    lemma_window(s.prg_rom, 0x4000, bank, cpu as int);
    lemma_window(s.prg_rom, 0x4000, (s.prg_rom.len() as int / 0x4000) - 1, cpu as int);
}

/// On a board of full size, bit 4 of the control register makes two 4 KiB pattern windows with a
/// register each.
pub proof fn lemma_mmc1_chr_windows_of_4k(s: Mmc1State, ppu: u16)
    requires
        Mmc1::ok(s),
        s.chr.len() == 0x2_0000,
        s.control / 16 % 2 == 1,
        s.chr_bank_0 < 32,
        s.chr_bank_1 < 32,
        ppu < 0x2000,
    ensures
        ({
            &&& ppu < 0x1000
                    ==> Mmc1::ppu_byte(s, ppu) == window(s.chr, 0x1000, s.chr_bank_0 as int, ppu as int)
            &&& ppu >= 0x1000
                    ==> Mmc1::ppu_byte(s, ppu) == window(s.chr, 0x1000, s.chr_bank_1 as int, ppu as int)
        }),
{
    lemma_window(s.chr, 0x1000, s.chr_bank_0 as int, ppu as int);
    lemma_window(s.chr, 0x1000, s.chr_bank_1 as int, ppu as int);
    lemma_byte_fields(s.control);
    lemma_wrap_masks(s.chr_bank_0 as usize);
    lemma_wrap_masks(s.chr_bank_1 as usize);
    assert(s.chr_bank_0 as usize & 31usize == s.chr_bank_0);
    assert(s.chr_bank_1 as usize & 31usize == s.chr_bank_1);
}

/// On a board of full size, with bit 4 of the control register clear there is one 8 KiB pattern
/// window, whose bank ignores the register's low bit.
pub proof fn lemma_mmc1_chr_window_of_8k(s: Mmc1State, ppu: u16)
    requires
        Mmc1::ok(s),
        s.chr.len() == 0x2_0000,
        s.control / 16 % 2 == 0,
        s.chr_bank_0 < 32,
        ppu < 0x2000,
    ensures
        ({
            &&& Mmc1::ppu_byte(s, ppu) == window(s.chr, 0x2000, s.chr_bank_0 as int / 2, ppu as int)
        }),
{
    lemma_window(s.chr, 0x2000, s.chr_bank_0 as int / 2, ppu as int);
    lemma_byte_fields(s.control);
    lemma_byte_fields(s.chr_bank_0);
    lemma_wrap_masks((s.chr_bank_0 & 0xFE) as usize);
    let even = (s.chr_bank_0 & 0xFE) as usize;
    assert(even & 31usize == even);
    assert(even == s.chr_bank_0 / 2 * 2);
    assert(even * 0x1000 + ppu < 0x2_0000);
}

proof fn lemma_serial_bits(shift: u8, data: u8)
    by (bit_vector)
    requires
        shift < 32,
    ensures
        (shift >> 1) | ((data & 1) << 4) == shift / 2 + (data % 2) * 16,
        ((shift >> 1) | ((data & 1) << 4)) & 0x1F == shift / 2 + (data % 2) * 16,
        (data & 0x80 != 0) == (data >= 128),
{
}

/// A write moves bit 0 into the top of the five-bit register. The fifth hands the whole to the
/// register that the address names, control, two pattern banks and PRG bank, and clears it; the
/// others leave the registers alone.
pub proof fn lemma_mmc1_serial_writes(s: Mmc1State, addr: u16, data: u8)
    requires
        Mmc1::ok(s),
        s.shift < 32,
        addr >= 0x8000,
        data < 128,
        s.last_write_cycle is Some
            ==> s.cycle_counter != (s.last_write_cycle->Some_0 + 1) % 0x1_0000_0000_0000_0000,
    ensures
        ({
            let t = Mmc1::after_cpu_write(s, addr, data);
            let value = s.shift / 2 + data % 2 * 16;
            let last = s.shift_count == 4;
            &&& !last
                    ==> t == (Mmc1State { shift: value as u8, shift_count: (s.shift_count + 1) as u8,
                        last_write_cycle: Some(s.cycle_counter), ..s })
            &&& last ==> t.shift == 0x10 && t.shift_count == 0
                    && t.last_write_cycle == Some(s.cycle_counter)
            &&& last ==> t.control == (if addr < 0xA000 { value } else { s.control as int })
            &&& last
                    ==> t.chr_bank_0 == (if 0xA000 <= addr < 0xC000 { value } else { s.chr_bank_0 as int })
            &&& last
                    ==> t.chr_bank_1 == (if 0xC000 <= addr < 0xE000 { value } else { s.chr_bank_1 as int })
            &&& last ==> t.prg_bank == (if addr >= 0xE000 { value } else { s.prg_bank as int })
            &&& last && addr < 0xA000
                    ==> Mmc1::mirrored(t) == (if value % 4 == 0 {
                        Mirroring::SingleScreenLower } else if value % 4 == 1 {
                        Mirroring::SingleScreenUpper } else if value % 4 == 2 {
                        Mirroring::Vertical } else { Mirroring::Horizontal })
            &&& addr >= 0xA000 ==> Mmc1::mirrored(t) == Mmc1::mirrored(s)
        }),
{
    lemma_serial_bits(s.shift, data);
    let v = (s.shift / 2 + data % 2 * 16) as u8;
    lemma_byte_fields(v);
}

/// A write with bit 7 set clears the serial register and fixes the last bank, and leaves the banks
/// and the mirroring.
pub proof fn lemma_mmc1_reset_bit(s: Mmc1State, addr: u16, data: u8)
    requires
        Mmc1::ok(s),
        addr >= 0x8000,
        data >= 128,
        s.last_write_cycle is None,
        s.control < 32,
        s.mirroring == (if s.control % 4 == 0 { Mirroring::SingleScreenLower } else if s.control % 4
            == 1 { Mirroring::SingleScreenUpper } else if s.control % 4 == 2 {
            Mirroring::Vertical } else { Mirroring::Horizontal }),
    ensures
        ({
            let t = Mmc1::after_cpu_write(s, addr, data);
            &&& t.shift == 0x10 && t.shift_count == 0
            &&& t.control / 4 % 4 == 3
            &&& t.control % 4 == s.control % 4 && t.control / 16 == s.control / 16
            &&& t.prg_bank == s.prg_bank && t.chr_bank_0 == s.chr_bank_0 && t.chr_bank_1 == s.chr_bank_1
            &&& Mmc1::mirrored(t) == Mmc1::mirrored(s)
        }),
{
    lemma_byte_fields(data);
    lemma_reset_bits(s.control);
}

proof fn lemma_reset_bits(control: u8)
    by (bit_vector)
    ensures
        ((control | 0x0C) / 4) % 4 == 3,
        (control | 0x0C) % 4 == control % 4,
        (control | 0x0C) / 16 == control / 16,
{
}

/// At power-on bank 0 is at `$8000` and the last bank at `$C000`, and one screen is selected.
pub proof fn lemma_mmc1_at_power_on(cart: Cartridge, cpu: u16)
    requires
        cart.prg_rom@.len() >= 0x4000,
        cpu >= 0x8000,
    ensures
        ({
            let s = Mmc1State::power_on(cart);
            &&& cpu < 0xC000 ==> Mmc1::cpu_byte(s, cpu) == window(cart.prg_rom@, 0x4000, 0, cpu as int)
            &&& cpu >= 0xC000
                    ==> Mmc1::cpu_byte(s, cpu) == window(cart.prg_rom@, 0x4000,
                        (cart.prg_rom@.len() as int / 0x4000) - 1, cpu as int)
            &&& Mmc1::mirrored(s) == Mirroring::SingleScreenLower
            &&& s.shift < 32 && s.shift_count == 0 && s.last_write_cycle is None
            &&& s.chr_bank_0 == 0 && s.chr_bank_1 == 0
            &&& cart.chr_ram ==> s.chr.len() == 0x2000
            &&& !cart.chr_ram ==> s.chr == cart.chr_rom@
        }),
{
    lemma_window(cart.prg_rom@, 0x4000, 0, cpu as int);
    lemma_window(cart.prg_rom@, 0x4000, (cart.prg_rom@.len() as int / 0x4000) - 1, cpu as int);
    assert(cart.prg_rom.len() == cart.prg_rom@.len());
}

/// `$A000` shows the 8 KiB bank of its low four bits at `$8000`, below the last three banks.
/// `$B000-$E000` hold the two banks of each 4 KiB pattern window, of which the window's latch shows
/// one. `$F000` sets the mirroring by bit 0.
pub proof fn lemma_mmc2_registers(s: Mmc2State, addr: u16, data: u8, cpu: u16, ppu: u16)
    requires
        Mmc2::ok(s),
        s.prg_rom.len() >= 0x8000,
        s.chr.len() >= 0x1000,
        cpu >= 0x8000,
        ppu < 0x2000,
        addr >= 0x8000,
    ensures
        ({
            let t = Mmc2::after_cpu_write(s, addr, data);
            let page = addr / 0x1000;
            let slot = (cpu - 0x8000) / 0x2000;
            let left = ppu < 0x1000;
            let shown = if left { if s.left_latch == 0 { 0xBu16 } else { 0xCu16 } } else {
                if s.right_latch == 0 { 0xDu16 } else { 0xEu16 } };
            &&& page == 0xA && slot == 0
                    ==> Mmc2::cpu_byte(t, cpu) == window(s.prg_rom, 0x2000, data as int % 16, cpu as int)
            &&& page != 0xA ==> Mmc2::cpu_byte(t, cpu) == Mmc2::cpu_byte(s, cpu)
            &&& slot > 0
                    ==> Mmc2::cpu_byte(t, cpu) == window(s.prg_rom, 0x2000,
                        (s.prg_rom.len() as int / 0x2000) - 4 + slot, cpu as int)
            &&& page == shown
                    ==> Mmc2::ppu_byte(t, ppu) == window(s.chr, 0x1000, data as int % 32, ppu as int)
            &&& page != shown ==> Mmc2::ppu_byte(t, ppu) == Mmc2::ppu_byte(s, ppu)
            &&& page == 0xF
                    ==> Mmc2::mirrored(t) == (if data % 2 == 1 { Mirroring::Horizontal } else {
                        Mirroring::Vertical })
            &&& page != 0xF ==> Mmc2::mirrored(t) == Mmc2::mirrored(s)
        }),
{
    let slot = (cpu - 0x8000) / 0x2000;
    lemma_window(s.prg_rom, 0x2000, data as int % 16, cpu as int);
    lemma_window(s.prg_rom, 0x2000, (s.prg_rom.len() as int / 0x2000) - 4 + slot, cpu as int);
    lemma_window(s.chr, 0x1000, data as int % 32, ppu as int);
    lemma_byte_fields(data);
}

/// A PPU read of `$0FD8` or `$0FE8`, or in `$1FD8-$1FDF` or `$1FE8-$1FEF`, turns its window to the
/// first or the second bank for the reads that follow; other reads turn neither.
pub proof fn lemma_mmc2_latches(s: Mmc2State, addr: u16)
    ensures
        ({
            let t = Mmc2::after_ppu_read(s, addr);
            &&& addr == 0x0FD8 ==> t == (Mmc2State { left_latch: 0, ..s })
            &&& addr == 0x0FE8 ==> t == (Mmc2State { left_latch: 1, ..s })
            &&& 0x1FD8 <= addr <= 0x1FDF ==> t == (Mmc2State { right_latch: 0, ..s })
            &&& 0x1FE8 <= addr <= 0x1FEF ==> t == (Mmc2State { right_latch: 1, ..s })
            &&& addr != 0x0FD8 && addr != 0x0FE8 && !(0x1FD8 <= addr <= 0x1FDF)
                    && !(0x1FE8 <= addr <= 0x1FEF) ==> t == s
        }),
{
}

/// At power-on bank 0 is at `$8000` below the last three, both pattern windows show bank 0 by their
/// second registers, and the header gives the mirroring.
pub proof fn lemma_mmc2_at_power_on(cart: Cartridge, cpu: u16, ppu: u16)
    requires
        cart.prg_rom@.len() >= 0x8000,
        cpu >= 0x8000,
        ppu < 0x2000,
        cart.chr_ram || cart.chr_rom@.len() == 0 || cart.chr_rom@.len() >= 0x1000,
    ensures
        ({
            let s = Mmc2State::power_on(cart);
            &&& cart.chr_ram || cart.chr_rom@.len() == 0 ==> Mmc2::ppu_byte(s, ppu) == 0
            &&& !cart.chr_ram && cart.chr_rom@.len() > 0
                    ==> Mmc2::ppu_byte(s, ppu) == window(cart.chr_rom@, 0x1000, 0, ppu as int)
            &&& cpu < 0xA000 ==> Mmc2::cpu_byte(s, cpu) == window(cart.prg_rom@, 0x2000, 0, cpu as int)
            &&& cpu >= 0xE000
                    ==> Mmc2::cpu_byte(s, cpu) == window(cart.prg_rom@, 0x2000,
                        (cart.prg_rom@.len() as int / 0x2000) - 1, cpu as int)
            &&& Mmc2::mirrored(s) == cart.mirroring
            &&& s.left_latch == 1 && s.right_latch == 1
        }),
{
    assert(cart.prg_rom.len() == cart.prg_rom@.len());
    assert(cart.chr_rom.len() == cart.chr_rom@.len());
    lemma_byte_fields(0);
    lemma_window(cart.prg_rom@, 0x2000, 0, cpu as int);
    lemma_window(cart.prg_rom@, 0x2000, (cart.prg_rom@.len() as int / 0x2000) - 1, cpu as int);
    if cart.chr_ram || cart.chr_rom@.len() == 0 {
        lemma_window(crate::mem::zeros(0x2000), 0x1000, 0, ppu as int);
    } else {
        lemma_window(cart.chr_rom@, 0x1000, 0, ppu as int);
    }
}

/// A select byte at an even address and a bank at an odd one in `$8000-$9FFF` set the register of
/// the select byte's three low bits, and nothing else.
pub proof fn lemma_mmc3_bank_registers(s: Mmc3State, a: u16, sel: u8, b: u16, data: u8, k: int)
    requires
        Mmc3::ok(s),
        a / 0x2000 == 4 && a % 2 == 0,
        b / 0x2000 == 4 && b % 2 == 1,
        0 <= k < 8,
    ensures
        ({
            let t = Mmc3::after_cpu_write(Mmc3::after_cpu_write(s, a, sel), b, data);
            &&& t.bank_select == sel
            &&& t.bank_regs.len() == 8
            &&& k == sel % 8 ==> t.bank_regs[k] == data
            &&& k != sel % 8 ==> t.bank_regs[k] == s.bank_regs[k]
            &&& t == (Mmc3State { bank_select: sel, bank_regs: t.bank_regs, ..s })
        }),
{
}

/// Register 6 shows an 8 KiB bank of six bits at `$8000`, or at `$C000` where bit 6 of the select
/// byte is set; the last bank but one has the other place. Register 7 is at `$A000`, the last bank
/// at `$E000`.
pub proof fn lemma_mmc3_prg_windows(s: Mmc3State, cpu: u16)
    requires
        Mmc3::ok(s),
        s.prg_rom.len() >= 0x4000,
        cpu >= 0x8000,
    ensures
        ({
            let slot = (cpu - 0x8000) / 0x2000;
            let front = if s.bank_select / 64 % 2 == 0 { 0int } else { 2 };
            &&& slot == front
                    ==> Mmc3::cpu_byte(s, cpu) == window(s.prg_rom, 0x2000, s.bank_regs[6] as int % 64,
                        cpu as int)
            &&& slot == 1
                    ==> Mmc3::cpu_byte(s, cpu) == window(s.prg_rom, 0x2000, s.bank_regs[7] as int % 64,
                        cpu as int)
            &&& slot == 2 - front
                    ==> Mmc3::cpu_byte(s, cpu) == window(s.prg_rom, 0x2000,
                        (s.prg_rom.len() as int / 0x2000) - 2, cpu as int)
            &&& slot == 3
                    ==> Mmc3::cpu_byte(s, cpu) == window(s.prg_rom, 0x2000,
                        (s.prg_rom.len() as int / 0x2000) - 1, cpu as int)
        }),
{
    lemma_window(s.prg_rom, 0x2000, s.bank_regs[6] as int % 64, cpu as int);
    lemma_window(s.prg_rom, 0x2000, s.bank_regs[7] as int % 64, cpu as int);
    lemma_window(s.prg_rom, 0x2000, (s.prg_rom.len() as int / 0x2000) - 2, cpu as int);
    lemma_window(s.prg_rom, 0x2000, (s.prg_rom.len() as int / 0x2000) - 1, cpu as int);
    lemma_top_flags(s.bank_select);
}

/// Registers 0 and 1 show pairs of 1 KiB banks, 2 to 5 single ones, in the pattern windows from
/// `$0000` on, or with the two halves exchanged where bit 7 of the select byte is set.
pub proof fn lemma_mmc3_chr_windows(s: Mmc3State, ppu: u16)
    requires
        Mmc3::ok(s),
        s.chr.len() >= 0x400,
        ppu < 0x2000,
    ensures
        ({
            let place = ppu as int / 0x400;
            let slot = if s.bank_select < 128 { place } else if place < 4 { place + 4 } else { place - 4 };
            let bank = if slot < 4 { s.bank_regs[slot / 2] as int / 2 * 2 + slot % 2 } else {
                s.bank_regs[slot - 2] as int };
            &&& Mmc3::ppu_byte(s, ppu) == window(s.chr, 0x400, bank, ppu as int)
        }),
{
    let place = ppu as int / 0x400;
    let slot = if s.bank_select < 128 { place } else if place < 4 { place + 4 } else { place - 4 };
    let bank = if slot < 4 { s.bank_regs[slot / 2] as int / 2 * 2 + slot % 2 } else {
        s.bank_regs[slot - 2] as int };
    lemma_window(s.chr, 0x400, bank, ppu as int);
    lemma_top_flags(s.bank_select);
    assert(s.chr_select(ppu) == bank);
}

/// `$A000` sets the mirroring, except on four screens; `$A001` opens work RAM by bit 7 and protects
/// it by bit 6; `$C000` is the interrupt latch and `$C001` asks for a reload; `$E000` disables and
/// acknowledges, `$E001` enables.
pub proof fn lemma_mmc3_control(s: Mmc3State, addr: u16, data: u8)
    requires
        Mmc3::ok(s),
        addr >= 0xA000,
    ensures
        ({
            let t = Mmc3::after_cpu_write(s, addr, data);
            let page = addr / 0x2000;
            let even = addr % 2 == 0;
            &&& page == 5 && even && s.mirroring == Mirroring::FourScreen ==> t == s
            &&& page == 5 && even && s.mirroring != Mirroring::FourScreen
                    ==> t == (Mmc3State { mirroring: if data % 2 == 0 { Mirroring::Vertical } else {
                        Mirroring::Horizontal }, ..s })
            &&& page == 5 && !even
                    ==> t == (Mmc3State { reg_a001: data, prg_ram_enabled: data >= 128,
                        prg_ram_write_protected: data / 64 % 2 == 1, ..s })
            &&& page == 6 && even ==> t == (Mmc3State { irq_latch: data, ..s })
            &&& page == 6 && !even ==> t == (Mmc3State { irq_counter: 0, irq_reload: true, ..s })
            &&& page == 7 && even ==> t == (Mmc3State { irq_enabled: false, irq_line: false, ..s })
            &&& page == 7 && !even ==> t == (Mmc3State { irq_enabled: true, ..s })
        }),
{
    lemma_byte_fields(data);
}

/// The counter is clocked when address line 12 rises after at least ten dots low. The clock reloads
/// a counter that is empty or told to, counts others down, and raises an enabled interrupt at zero.
pub proof fn lemma_mmc3_address_line(s: Mmc3State, addr: u16, cycle: u64, kind: PpuFetchKind)
    ensures
        ({
            let t = Mmc3::after_ppu_addr(s, addr, cycle, kind);
            let high = addr / 0x1000 % 2 == 1;
            let clocks = high && s.a12_low_since is Some && s.a12_low_since->Some_0 + 10 <= cycle;
            let count = if s.irq_counter == 0
                || s.irq_reload { s.irq_latch as int } else { s.irq_counter - 1 };
            &&& !high && s.a12_low_since is None ==> t.a12_low_since == Some(cycle)
            &&& !high && s.a12_low_since is Some ==> t == s
            &&& high ==> t.a12_low_since is None
            &&& !clocks ==> t.irq_counter == s.irq_counter && t.irq_line == s.irq_line
                    && t.irq_reload == s.irq_reload
            &&& clocks ==> t.irq_counter == count && !t.irq_reload
                    && t.irq_line == (s.irq_line || (count == 0 && s.irq_enabled))
            &&& t.bank_regs == s.bank_regs && t.irq_latch == s.irq_latch && t.irq_enabled == s.irq_enabled
        }),
{
}

/// Closed work RAM reads as zero; work RAM that is closed or protected ignores writes.
pub proof fn lemma_mmc3_work_ram(s: Mmc3State, addr: u16, data: u8)
    requires
        0x6000 <= addr < 0x8000,
    ensures
        ({
            &&& !s.prg_ram_enabled ==> Mmc3::cpu_byte(s, addr) == 0
            &&& !s.prg_ram_enabled || s.prg_ram_write_protected
                    ==> Mmc3::after_cpu_write(s, addr, data) == s
        }),
{
}

/// At power-on PRG banks 0 and 1 come before the last two, the pattern windows show banks 0 to 7,
/// work RAM is open, the header gives the mirroring, and no interrupt is up.
pub proof fn lemma_mmc3_at_power_on(cart: Cartridge, cpu: u16, ppu: u16)
    requires
        cart.prg_rom@.len() >= 0x4000,
        !cart.chr_ram,
        cart.chr_rom@.len() >= 0x400,
        cpu >= 0x8000,
        ppu < 0x2000,
    ensures
        ({
            let s = Mmc3State::power_on(cart);
            &&& cpu < 0xA000 ==> Mmc3::cpu_byte(s, cpu) == window(cart.prg_rom@, 0x2000, 0, cpu as int)
            &&& 0xA000 <= cpu < 0xC000
                    ==> Mmc3::cpu_byte(s, cpu) == window(cart.prg_rom@, 0x2000, 1, cpu as int)
            &&& cpu >= 0xE000
                    ==> Mmc3::cpu_byte(s, cpu) == window(cart.prg_rom@, 0x2000,
                        (cart.prg_rom@.len() as int / 0x2000) - 1, cpu as int)
            &&& Mmc3::ppu_byte(s, ppu) == window(cart.chr_rom@, 0x400, ppu as int / 0x400, ppu as int)
            &&& Mmc3::mirrored(s) == cart.mirroring
            &&& s.prg_ram_enabled && !s.prg_ram_write_protected
            &&& !Mmc3::irq(s) && !s.irq_enabled && !s.irq_reload
        }),
{
    lemma_window(cart.prg_rom@, 0x2000, 0, cpu as int);
    lemma_window(cart.prg_rom@, 0x2000, 1, cpu as int);
    lemma_window(cart.prg_rom@, 0x2000, (cart.prg_rom@.len() as int / 0x2000) - 1, cpu as int);
    lemma_window(cart.chr_rom@, 0x400, ppu as int / 0x400, ppu as int);
    assert(cart.prg_rom.len() == cart.prg_rom@.len());
    assert(cart.chr_rom.len() == cart.chr_rom@.len());
    lemma_byte_fields(0);
}

/// A write to `$6000-$7FFF` that work RAM would take picks the game by its three low bits: 64 KiB
/// of PRG-ROM for 0 to 2 and for 3, 128 KiB for 4 to 6, their upper half for 7, and from 4 on the
/// upper 128 KiB of patterns. Inside, the banks are as the chip selects them.
#[verifier::rlimit(40)]
pub proof fn lemma_mapper037_blocks_shown(s: Mapper037State, addr: u16, data: u8, cpu: u16, ppu: u16)
    requires
        Mapper037::ok(s),
        s.inner.prg_rom.len() >= 0x2000,
        s.inner.chr.len() >= 0x400,
        cpu >= 0x8000,
        ppu < 0x2000,
        0x6000 <= addr < 0x8000,
        s.inner.prg_ram_enabled && !s.inner.prg_ram_write_protected,
    ensures
        ({
            let t = Mapper037::after_cpu_write(s, addr, data);
            let inner = s.inner.prg_select(cpu);
            let pattern = s.inner.chr_select(ppu);
            let prg = if data % 8 < 3 { inner % 8 } else if data % 8 == 3 {
                8 + inner % 8 } else if data % 8 < 7 { 16 + inner % 16 } else { 24 + inner % 8 };
            let pat = pattern % 128 + data as int / 4 % 2 * 128;
            &&& Mapper037::cpu_byte(t, cpu) == window(s.inner.prg_rom, 0x2000, prg, cpu as int)
            &&& Mapper037::ppu_byte(t, ppu) == window(s.inner.chr, 0x400, pat, ppu as int)
            &&& Mapper037::mirrored(t) == Mapper037::mirrored(s)
            &&& Mapper037::irq(t) == Mapper037::irq(s)
            &&& t.inner == s.inner
        }),
{
    let t = Mapper037::after_cpu_write(s, addr, data);
    let inner = s.inner.prg_select(cpu);
    let pattern = s.inner.chr_select(ppu);
    let prg = if data % 8 < 3 { inner % 8 } else if data % 8 == 3 {
        8 + inner % 8 } else if data % 8 < 7 { 16 + inner % 16 } else { 24 + inner % 8 };
    let pat = pattern % 128 + data as int / 4 % 2 * 128;
    lemma_window(s.inner.prg_rom, 0x2000, prg, cpu as int);
    lemma_window(s.inner.chr, 0x400, pat, ppu as int);
    lemma_byte_fields(data);
    lemma_outer_037(t.block, inner as usize, pattern as usize);
}

/// Register writes, the PPU's address line, mirroring and interrupts are the chip's own; what looks
/// like work RAM reads as zero and is never saved.
pub proof fn lemma_mapper037_passes_on(
    s: Mapper037State,
    addr: u16,
    data: u8,
    cycle: u64,
    kind: PpuFetchKind,
    ram: u16,
)
    requires
        addr >= 0x8000,
        0x6000 <= ram < 0x8000,
    ensures
        ({
            &&& Mapper037::after_cpu_write(s, addr, data) == (Mapper037State {
                inner: Mmc3::after_cpu_write(s.inner, addr, data), ..s })
            &&& Mapper037::after_ppu_addr(s, addr, cycle, kind) == (Mapper037State {
                inner: Mmc3::after_ppu_addr(s.inner, addr, cycle, kind), ..s })
            &&& Mapper037::mirrored(s) == Mmc3::mirrored(s.inner)
            &&& Mapper037::irq(s) == Mmc3::irq(s.inner)
            &&& Mapper037::cpu_byte(s, ram) == 0
            &&& Mapper037::battery_bytes(s) is None
        }),
{
}

/// At power-on the first game is selected and the chip is fresh.
pub proof fn lemma_mapper037_at_power_on(cart: Cartridge)
    ensures
        ({
            let s = Mapper037State::power_on(cart);
            &&& s.block == 0
            &&& s.inner == Mmc3State::power_on(cart)
        }),
{
}

/// A write to `$6000-$7FFF` that work RAM would take picks the half of PRG-ROM and patterns by its
/// lowest bit. Inside, the banks are as the chip selects them.
#[verifier::rlimit(40)]
pub proof fn lemma_mapper047_blocks_shown(s: Mapper047State, addr: u16, data: u8, cpu: u16, ppu: u16)
    requires
        Mapper047::ok(s),
        s.inner.prg_rom.len() >= 0x2000,
        s.inner.chr.len() >= 0x400,
        cpu >= 0x8000,
        ppu < 0x2000,
        0x6000 <= addr < 0x8000,
        s.inner.prg_ram_enabled && !s.inner.prg_ram_write_protected,
    ensures
        ({
            let t = Mapper047::after_cpu_write(s, addr, data);
            let inner = s.inner.prg_select(cpu);
            let pattern = s.inner.chr_select(ppu);
            let prg = inner % 16 + data as int % 2 * 16;
            let pat = pattern % 128 + data as int % 2 * 128;
            &&& Mapper047::cpu_byte(t, cpu) == window(s.inner.prg_rom, 0x2000, prg, cpu as int)
            &&& Mapper047::ppu_byte(t, ppu) == window(s.inner.chr, 0x400, pat, ppu as int)
            &&& Mapper047::mirrored(t) == Mapper047::mirrored(s)
            &&& Mapper047::irq(t) == Mapper047::irq(s)
            &&& t.inner == s.inner
        }),
{
    let t = Mapper047::after_cpu_write(s, addr, data);
    let inner = s.inner.prg_select(cpu);
    let pattern = s.inner.chr_select(ppu);
    let prg = inner % 16 + data as int % 2 * 16;
    let pat = pattern % 128 + data as int % 2 * 128;
    lemma_window(s.inner.prg_rom, 0x2000, prg, cpu as int);
    lemma_window(s.inner.chr, 0x400, pat, ppu as int);
    lemma_byte_fields(data);
    lemma_outer_047(t.block, inner as usize, pattern as usize);
}

/// Register writes, the PPU's address line, mirroring and interrupts are the chip's own; what looks
/// like work RAM reads as zero and is never saved.
pub proof fn lemma_mapper047_passes_on(
    s: Mapper047State,
    addr: u16,
    data: u8,
    cycle: u64,
    kind: PpuFetchKind,
    ram: u16,
)
    requires
        addr >= 0x8000,
        0x6000 <= ram < 0x8000,
    ensures
        ({
            &&& Mapper047::after_cpu_write(s, addr, data) == (Mapper047State {
                inner: Mmc3::after_cpu_write(s.inner, addr, data), ..s })
            &&& Mapper047::after_ppu_addr(s, addr, cycle, kind) == (Mapper047State {
                inner: Mmc3::after_ppu_addr(s.inner, addr, cycle, kind), ..s })
            &&& Mapper047::mirrored(s) == Mmc3::mirrored(s.inner)
            &&& Mapper047::irq(s) == Mmc3::irq(s.inner)
            &&& Mapper047::cpu_byte(s, ram) == 0
            &&& Mapper047::battery_bytes(s) is None
        }),
{
}

/// At power-on the first game is selected and the chip is fresh.
pub proof fn lemma_mapper047_at_power_on(cart: Cartridge)
    ensures
        ({
            let s = Mapper047State::power_on(cart);
            &&& s.block == 0
            &&& s.inner == Mmc3State::power_on(cart)
        }),
{
}

proof fn lemma_outer_037(block: u8, bank: usize, pattern: usize)
    by (bit_vector)
    requires
        block < 8,
    ensures
        ({
            let reg = block as usize;
            let base = ((reg << 2) & 0x10) | (if reg & 0x03 == 0x03 { 0x08usize } else { 0usize });
            let prg = base | (bank & ((reg << 1) | 0x07));
            &&& block < 3 ==> prg == bank % 8
            &&& block == 3 ==> prg == 8 + bank % 8
            &&& 4 <= block && block < 7 ==> prg == 16 + bank % 16
            &&& block == 7 ==> prg == 24 + bank % 8
            &&& ((reg << 5) & 0x80) | (pattern & 0x7F) == pattern % 128 + ((block / 4) as usize) * 128
        }),
{
}

proof fn lemma_outer_047(block: u8, bank: usize, pattern: usize)
    by (bit_vector)
    requires
        block < 2,
    ensures
        ((block as usize) << 4) | (bank & 0x0F) == bank % 16 + (block as usize) * 16,
        ((block as usize) << 7) | (pattern & 0x7F) == pattern % 128 + (block as usize) * 128,
{
}

/// Until it is unlocked the board shows the first 32 KiB. Then bit 3 of the first pattern register
/// picks the half of PRG-ROM: in the lower, bits 1-2 pick 32 KiB; in the upper, the PRG register
/// and the control bits 2-3 lay 16 KiB banks out as on an MMC1.
pub proof fn lemma_event_prg_windows(s: Mapper105State, cpu: u16)
    requires
        Mapper105::ok(s),
        s.prg_rom.len() >= 0x4000,
        cpu >= 0x8000,
    ensures
        ({
            let mode = s.control / 4 % 4;
            let high = if cpu >= 0xC000 { 1int } else { 0 };
            let open = s.init_state >= 2;
            let upper = s.chr0 / 8 % 2 == 1;
            let inner = s.prg as int % 8;
            &&& !open ==> Mapper105::cpu_byte(s, cpu) == window(s.prg_rom, 0x4000, high, cpu as int)
            &&& open && !upper
                    ==> Mapper105::cpu_byte(s, cpu) == window(s.prg_rom, 0x4000,
                        s.chr0 as int / 2 % 4 * 2 + high, cpu as int)
            &&& open && upper && mode < 2
                    ==> Mapper105::cpu_byte(s, cpu) == window(s.prg_rom, 0x4000,
                        8 + inner / 2 * 2 + high, cpu as int)
            &&& open && upper && mode == 2
                    ==> Mapper105::cpu_byte(s, cpu) == window(s.prg_rom, 0x4000, 8 + high * inner, cpu as int)
            &&& open && upper && mode == 3 && high == 0
                    ==> Mapper105::cpu_byte(s, cpu) == window(s.prg_rom, 0x4000, 8 + inner, cpu as int)
            &&& open && upper && mode == 3 && high == 1
                    ==> Mapper105::cpu_byte(s, cpu) == window(s.prg_rom, 0x4000, 15, cpu as int)
        }),
{
    let high = if cpu >= 0xC000 { 1int } else { 0 };
    let inner = s.prg as int % 8;
    lemma_window(s.prg_rom, 0x4000, high, cpu as int);
    lemma_window(s.prg_rom, 0x4000, s.chr0 as int / 2 % 4 * 2 + high, cpu as int);
    lemma_window(s.prg_rom, 0x4000, 8 + inner / 2 * 2 + high, cpu as int);
    lemma_window(s.prg_rom, 0x4000, 8 + high * inner, cpu as int);
    lemma_window(s.prg_rom, 0x4000, 8 + inner, cpu as int);
    lemma_window(s.prg_rom, 0x4000, 15, cpu as int);
    lemma_byte_fields(s.chr0);
}

/// The serial register works as on an MMC1. A commit also runs the unlocking and the timer: bit 4
/// of the first pattern register clear starts the timer, set stops and acknowledges it; clear and
/// set again unlocks.
#[verifier::rlimit(40)]
pub proof fn lemma_event_serial_writes(s: Mapper105State, addr: u16, data: u8)
    requires
        Mapper105::ok(s),
        s.shift < 32,
        addr >= 0x8000,
        data < 128,
        s.last_write_cycle is Some
            ==> s.cycle_counter != (s.last_write_cycle->Some_0 + 1) % 0x1_0000_0000_0000_0000,
    ensures
        ({
            let t = Mapper105::after_cpu_write(s, addr, data);
            let value = s.shift / 2 + data % 2 * 16;
            let last = s.shift_count == 4;
            let chr0 = if 0xA000 <= addr < 0xC000 { value } else { s.chr0 as int };
            let bit = chr0 / 16 % 2 == 1;
            &&& !last
                    ==> t == (Mapper105State { shift: value as u8,
                        shift_count: (s.shift_count + 1) as u8,
                        last_write_cycle: Some(s.cycle_counter), ..s })
            &&& last ==> t.shift == 0x10 && t.shift_count == 0
            &&& last ==> t.control == (if addr < 0xA000 { value } else { s.control as int })
            &&& last ==> t.chr0 == chr0
            &&& last ==> t.prg == (if addr >= 0xE000 { value } else { s.prg as int })
            &&& last && addr < 0xA000
                    ==> Mapper105::mirrored(t) == (if value % 4 == 0 {
                        Mirroring::SingleScreenLower } else if value % 4 == 1 {
                        Mirroring::SingleScreenUpper } else if value % 4 == 2 {
                        Mirroring::Vertical } else { Mirroring::Horizontal })
            &&& last && s.init_state == 0 ==> t.init_state == (if bit { 0int } else { 1 })
            &&& last && s.init_state == 1 ==> t.init_state == (if bit { 2int } else { 1 })
            &&& last && s.init_state >= 2 ==> t.init_state == s.init_state
            &&& last && bit ==> !t.irq_enabled && t.irq_counter == 0 && !Mapper105::irq(t)
            &&& last && !bit ==> t.irq_enabled && t.irq_counter == s.irq_counter
                    && Mapper105::irq(t) == Mapper105::irq(s)
        }),
{
    let value = s.shift / 2 + data % 2 * 16;
    let chr0 = if 0xA000 <= addr < 0xC000 { value } else { s.chr0 as int };
    lemma_serial_bits(s.shift, data);
    let v = (s.shift / 2 + data % 2 * 16) as u8;
    lemma_byte_fields(v);
    lemma_byte_fields(s.chr0);
}

/// At power-on the board is locked, its timer stopped, and its RAM blank.
pub proof fn lemma_event_at_power_on(cart: Cartridge, cpu: u16, ppu: u16)
    requires
        cart.prg_rom@.len() >= 0x4000,
        cpu >= 0x8000,
        ppu < 0x2000,
    ensures
        ({
            let s = Mapper105State::power_on(cart);
            &&& s.init_state == 0 && s.chr0 == 0x10 && s.dip == 0
            &&& !s.irq_enabled && !Mapper105::irq(s) && s.irq_counter == 0
            &&& cpu < 0xC000
                    ==> Mapper105::cpu_byte(s, cpu) == window(cart.prg_rom@, 0x4000, 0, cpu as int)
            &&& cpu >= 0xC000
                    ==> Mapper105::cpu_byte(s, cpu) == window(cart.prg_rom@, 0x4000, 1, cpu as int)
            &&& Mapper105::ppu_byte(s, ppu) == 0
            &&& s.shift < 32 && s.shift_count == 0
        }),
{
    lemma_window(cart.prg_rom@, 0x4000, 0, cpu as int);
    lemma_window(cart.prg_rom@, 0x4000, 1, cpu as int);
    assert(cart.prg_rom.len() == cart.prg_rom@.len());
}

/// A register write in the cycle after another is dropped, and time counts one cycle at a time.
pub proof fn lemma_event_second_write(s: Mapper105State, addr: u16, data: u8)
    requires
        addr >= 0x8000,
    ensures
        ({
            &&& s.last_write_cycle is Some
                    && s.cycle_counter == (s.last_write_cycle->Some_0 + 1) % 0x1_0000_0000_0000_0000
                    ==> Mapper105::after_cpu_write(s, addr, data) == s
            &&& Mapper105::after_cpu_cycle(s).cycle_counter == (s.cycle_counter + 1) % 0x1_0000_0000_0000_0000
            &&& Mapper105::after_cpu_cycle(s).last_write_cycle == s.last_write_cycle
        }),
{
}

/// A write with bit 7 set clears the serial register and fixes the last bank, without a commit: the
/// lock and the timer stay.
pub proof fn lemma_event_reset_bit(s: Mapper105State, addr: u16, data: u8)
    requires
        addr >= 0x8000,
        data >= 128,
        s.last_write_cycle is None,
    ensures
        ({
            let t = Mapper105::after_cpu_write(s, addr, data);
            &&& t.shift == 0x10 && t.shift_count == 0
            &&& t.control / 4 % 4 == 3
            &&& t.init_state == s.init_state && t.irq_enabled == s.irq_enabled
                    && t.irq_counter == s.irq_counter
            &&& t.prg == s.prg && t.chr0 == s.chr0
        }),
{
    lemma_byte_fields(data);
    lemma_reset_bits(s.control);
}

/// A register write in the cycle after another is dropped, and time counts one cycle at a time.
pub proof fn lemma_mmc1_second_write(s: Mmc1State, addr: u16, data: u8)
    requires
        addr >= 0x8000,
    ensures
        ({
            &&& s.last_write_cycle is Some
                    && s.cycle_counter == (s.last_write_cycle->Some_0 + 1) % 0x1_0000_0000_0000_0000
                    ==> Mmc1::after_cpu_write(s, addr, data) == s
            &&& Mmc1::after_cpu_cycle(s) == (Mmc1State {
                cycle_counter: ((s.cycle_counter + 1) % 0x1_0000_0000_0000_0000) as u64, ..s })
        }),
{
}

} // verus!
