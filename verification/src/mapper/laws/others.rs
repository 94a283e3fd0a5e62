//! Registers of the AVE, Codemasters, Color Dreams and Nintendo discrete boards.
use vstd::prelude::*;

use crate::bits::lemma_byte_fields;
use crate::mapper::Mapper;
use crate::mapper::ave_nina::{AveNina, AveNinaState};
use crate::mapper::bnrom::{Bnrom, BnromState, Variant};
use crate::mapper::cnrom_protect::{CnromProtect, CnromProtectState};
use crate::mapper::codemasters_bf9096::{CodemastersBf9096, CodemastersBf9096State};
use crate::mapper::codemasters_bf909x::{CodemastersBf909x, CodemastersBf909xState};
use crate::mapper::color_dreams::{ColorDreams, ColorDreamsState};
use crate::mapper::cprom::{Cprom, CpromState};
use crate::mapper::laws::{lemma_window, window};
use crate::rom::{Cartridge, Mirroring};

verus! {

/// A write to an address in `$4100-$5FFF` with bit 8 set picks a 32 KiB PRG bank by bit 3 and an 8
/// KiB pattern bank by its low three bits.
pub proof fn lemma_ave_nina_latch(s: AveNinaState, addr: u16, data: u8, cpu: u16, ppu: u16)
    requires
        AveNina::ok(s),
        s.prg_rom.len() >= 0x8000,
        s.chr.len() >= 0x2000,
        cpu >= 0x8000,
        ppu < 0x2000,
        0x4000 <= addr < 0x6000,
        addr / 0x100 % 2 == 1,
    ensures
        ({
            let t = AveNina::after_cpu_write(s, addr, data);
            &&& AveNina::cpu_byte(t, cpu) == window(s.prg_rom, 0x8000, data as int / 8 % 2, cpu as int)
            &&& AveNina::ppu_byte(t, ppu) == window(s.chr, 0x2000, data as int % 8, ppu as int)
            &&& AveNina::mirrored(t) == AveNina::mirrored(s)
        }),
{
    lemma_window(s.prg_rom, 0x8000, data as int / 8 % 2, cpu as int);
    lemma_window(s.chr, 0x2000, data as int % 8, ppu as int);
    lemma_byte_fields(data);
    lemma_nina_decode(addr);
}

/// No other write has an effect, and the board answers no read below `$8000`.
pub proof fn lemma_ave_nina_other_writes(s: AveNinaState, addr: u16, data: u8)
    requires
        addr < 0x4000 || addr >= 0x6000 || addr / 0x100 % 2 == 0,
    ensures
        ({
            &&& AveNina::after_cpu_write(s, addr, data) == s
            &&& AveNina::expansion_byte(s, addr) is None
            &&& addr < 0x8000 ==> AveNina::cpu_byte(s, addr) == 0
        }),
{
    lemma_nina_decode(addr);
}

proof fn lemma_nina_decode(addr: u16)
    by (bit_vector)
    ensures
        (addr & 0xE100 == 0x4100) == (0x4000 <= addr && addr < 0x6000 && (addr / 0x100) % 2 == 1),
{
}

/// At power-on bank 0 is shown everywhere and the header gives the mirroring.
pub proof fn lemma_ave_nina_at_power_on(cart: Cartridge, cpu: u16, ppu: u16)
    requires
        cart.prg_rom@.len() >= 0x8000,
        cpu >= 0x8000,
        ppu < 0x2000,
        cart.chr_ram || cart.chr_rom@.len() == 0 || cart.chr_rom@.len() >= 0x2000,
    ensures
        ({
            let s = AveNinaState::power_on(cart);
            &&& AveNina::cpu_byte(s, cpu) == window(cart.prg_rom@, 0x8000, 0, cpu as int)
            &&& cart.chr_ram || cart.chr_rom@.len() == 0 ==> AveNina::ppu_byte(s, ppu) == 0
            &&& !cart.chr_ram && cart.chr_rom@.len() > 0
                    ==> AveNina::ppu_byte(s, ppu) == window(cart.chr_rom@, 0x2000, 0, ppu as int)
            &&& AveNina::mirrored(s) == cart.mirroring
        }),
{
    assert(cart.prg_rom.len() == cart.prg_rom@.len());
    assert(cart.chr_rom.len() == cart.chr_rom@.len());
    lemma_byte_fields(0);
    lemma_window(cart.prg_rom@, 0x8000, 0, cpu as int);
    if cart.chr_ram || cart.chr_rom@.len() == 0 {
        lemma_window(crate::mem::zeros(0x2000), 0x2000, 0, ppu as int);
    } else {
        lemma_window(cart.chr_rom@, 0x2000, 0, ppu as int);
    }
}

/// A write is masked by the ROM byte under it and picks a 32 KiB PRG bank by its low four bits and
/// an 8 KiB pattern bank by its high four.
pub proof fn lemma_color_dreams_latch(s: ColorDreamsState, addr: u16, data: u8, cpu: u16, ppu: u16)
    requires
        ColorDreams::ok(s),
        s.prg_rom.len() >= 0x8000,
        s.chr.len() >= 0x2000,
        cpu >= 0x8000,
        ppu < 0x2000,
        addr >= 0x8000,
    ensures
        ({
            let v = data & ColorDreams::cpu_byte(s, addr);
            let t = ColorDreams::after_cpu_write(s, addr, data);
            &&& ColorDreams::cpu_byte(t, cpu) == window(s.prg_rom, 0x8000, v as int % 16, cpu as int)
            &&& ColorDreams::ppu_byte(t, ppu) == window(s.chr, 0x2000, v as int / 16, ppu as int)
            &&& ColorDreams::mirrored(t) == ColorDreams::mirrored(s)
        }),
{
    let v = data & ColorDreams::cpu_byte(s, addr);
    lemma_window(s.prg_rom, 0x8000, v as int % 16, cpu as int);
    lemma_window(s.chr, 0x2000, v as int / 16, ppu as int);
    lemma_byte_fields(data & ColorDreams::cpu_byte(s, addr));
    lemma_window(s.prg_rom, 0x8000, (s.reg & 0x0F) as int, addr as int);
}

/// A write below `$8000` has no effect.
pub proof fn lemma_color_dreams_other_writes(s: ColorDreamsState, addr: u16, data: u8)
    requires
        addr < 0x8000,
    ensures
        ({
            &&& ColorDreams::after_cpu_write(s, addr, data) == s
        }),
{
}

/// At power-on bank 0 is shown everywhere and the header gives the mirroring.
pub proof fn lemma_color_dreams_at_power_on(cart: Cartridge, cpu: u16, ppu: u16)
    requires
        cart.prg_rom@.len() >= 0x8000,
        cpu >= 0x8000,
        ppu < 0x2000,
        cart.chr_ram || cart.chr_rom@.len() == 0 || cart.chr_rom@.len() >= 0x2000,
    ensures
        ({
            let s = ColorDreamsState::power_on(cart);
            &&& ColorDreams::cpu_byte(s, cpu) == window(cart.prg_rom@, 0x8000, 0, cpu as int)
            &&& cart.chr_ram || cart.chr_rom@.len() == 0 ==> ColorDreams::ppu_byte(s, ppu) == 0
            &&& !cart.chr_ram && cart.chr_rom@.len() > 0
                    ==> ColorDreams::ppu_byte(s, ppu) == window(cart.chr_rom@, 0x2000, 0, ppu as int)
            &&& ColorDreams::mirrored(s) == cart.mirroring
        }),
{
    assert(cart.prg_rom.len() == cart.prg_rom@.len());
    assert(cart.chr_rom.len() == cart.chr_rom@.len());
    lemma_byte_fields(0);
    lemma_window(cart.prg_rom@, 0x8000, 0, cpu as int);
    if cart.chr_ram || cart.chr_rom@.len() == 0 {
        lemma_window(crate::mem::zeros(0x2000), 0x2000, 0, ppu as int);
    } else {
        lemma_window(cart.chr_rom@, 0x2000, 0, ppu as int);
    }
}

/// A write shows the 4 KiB page of its two low bits at `$1000`, while page 0 stays at `$0000` and
/// PRG-ROM is fixed. The mirroring is vertical.
pub proof fn lemma_cprom_latch(s: CpromState, addr: u16, data: u8, cpu: u16, ppu: u16)
    requires
        Cprom::ok(s),
        s.prg_rom.len() > 0,
        s.chr_ram.len() == 0x4000,
        cpu >= 0x8000,
        ppu < 0x2000,
        addr >= 0x8000,
    ensures
        ({
            let t = Cprom::after_cpu_write(s, addr, data);
            &&& ppu < 0x1000 ==> Cprom::ppu_byte(t, ppu) == s.chr_ram[ppu as int]
            &&& ppu >= 0x1000
                    ==> Cprom::ppu_byte(t, ppu) == s.chr_ram[data as int % 4 * 0x1000 + ppu - 0x1000]
            &&& Cprom::cpu_byte(t, cpu) == s.prg_rom[(cpu - 0x8000) % s.prg_rom.len() as int]
            &&& Cprom::mirrored(t) == Mirroring::Vertical
        }),
{
    lemma_byte_fields(data);
}

/// A byte that the PPU writes through the upper window into page 0 is there in the lower window
/// too.
pub proof fn lemma_cprom_pages_are_one_ram(s: CpromState, addr: u16, data: u8)
    requires
        Cprom::ok(s),
        s.chr_ram.len() == 0x4000,
        s.upper_bank == 0,
        addr < 0x1000,
    ensures
        ({
            let t = Cprom::after_ppu_write(s, (addr + 0x1000) as u16, data);
            &&& Cprom::ppu_byte(t, addr) == data
            &&& Cprom::ppu_byte(t, (addr + 0x1000) as u16) == data
        }),
{
}

/// At power-on 16 KiB of pattern RAM are blank and page 0 is in both windows; pattern ROM in the
/// file is ignored.
pub proof fn lemma_cprom_at_power_on(cart: Cartridge, ppu: u16)
    requires
        ppu < 0x2000,
    ensures
        ({
            let s = CpromState::power_on(cart);
            &&& s.chr_ram.len() == 0x4000
            &&& Cprom::ppu_byte(s, ppu) == 0
            &&& s.upper_bank == 0
            &&& s.prg_rom == cart.prg_rom@
            &&& Cprom::mirrored(s) == Mirroring::Vertical
        }),
{
}

/// The plain board takes its 32 KiB PRG bank from a write to `$8000-$FFFF`, masked by the ROM byte
/// under it; its pattern RAM is not banked by it.
pub proof fn lemma_bnrom_latch(s: BnromState, addr: u16, data: u8, cpu: u16, ppu: u16)
    requires
        Bnrom::ok(s),
        s.prg_rom.len() >= 0x8000,
        s.chr.len() >= 0x1000,
        cpu >= 0x8000,
        ppu < 0x2000,
        addr >= 0x8000,
        s.variant == Variant::Bnrom,
    ensures
        ({
            let v = data & Bnrom::cpu_byte(s, addr);
            let t = Bnrom::after_cpu_write(s, addr, data);
            &&& Bnrom::cpu_byte(t, cpu) == window(s.prg_rom, 0x8000, v as int, cpu as int)
            &&& Bnrom::ppu_byte(t, ppu) == Bnrom::ppu_byte(s, ppu)
            &&& Bnrom::mirrored(t) == Bnrom::mirrored(s)
        }),
{
    let v = data & Bnrom::cpu_byte(s, addr);
    lemma_window(s.prg_rom, 0x8000, v as int, cpu as int);
}

/// The other board takes its 32 KiB PRG bank at `$7FFD` and its two 4 KiB pattern banks at `$7FFE`
/// and `$7FFF`, and ignores writes to ROM. The rest of `$6000-$7FFF` is RAM.
pub proof fn lemma_nina001_registers(s: BnromState, addr: u16, data: u8, cpu: u16, ppu: u16)
    requires
        Bnrom::ok(s),
        s.prg_rom.len() >= 0x8000,
        s.chr.len() >= 0x1000,
        cpu >= 0x8000,
        ppu < 0x2000,
        s.variant == Variant::Nina001,
    ensures
        ({
            let t = Bnrom::after_cpu_write(s, addr, data);
            &&& addr == 0x7FFD
                    ==> Bnrom::cpu_byte(t, cpu) == window(s.prg_rom, 0x8000, data as int, cpu as int)
            &&& addr != 0x7FFD ==> Bnrom::cpu_byte(t, cpu) == Bnrom::cpu_byte(s, cpu)
            &&& addr == 0x7FFE && ppu < 0x1000
                    ==> Bnrom::ppu_byte(t, ppu) == window(s.chr, 0x1000, data as int, ppu as int)
            &&& addr == 0x7FFF && ppu >= 0x1000
                    ==> Bnrom::ppu_byte(t, ppu) == window(s.chr, 0x1000, data as int, ppu as int)
            &&& addr != 0x7FFE && ppu < 0x1000 ==> Bnrom::ppu_byte(t, ppu) == Bnrom::ppu_byte(s, ppu)
            &&& addr != 0x7FFF && ppu >= 0x1000 ==> Bnrom::ppu_byte(t, ppu) == Bnrom::ppu_byte(s, ppu)
            &&& addr >= 0x8000 || addr < 0x6000 ==> t == s
            &&& addr >= 0x7FFD ==> t.prg_ram == s.prg_ram
            &&& Bnrom::mirrored(t) == Bnrom::mirrored(s)
        }),
{
    lemma_window(s.prg_rom, 0x8000, data as int, cpu as int);
    lemma_window(s.chr, 0x1000, data as int, ppu as int);
}

/// Submapper 1 is NINA-001 and submapper 2 BNROM; otherwise pattern ROM tells NINA-001. At power-on
/// PRG bank 0 is shown, and on NINA-001 pattern banks 0 and 1.
pub proof fn lemma_bnrom_at_power_on(cart: Cartridge, cpu: u16, ppu: u16)
    requires
        cart.prg_rom@.len() >= 0x8000,
        cpu >= 0x8000,
        ppu < 0x2000,
    ensures
        ({
            let s = BnromState::power_on(cart);
            let nina = cart.submapper == 1 || (cart.submapper != 2 && !cart.chr_ram
                && cart.chr_rom@.len() > 0);
            &&& nina ==> s.variant == Variant::Nina001
            &&& !nina ==> s.variant == Variant::Bnrom && s.chr_ram
            &&& Bnrom::cpu_byte(s, cpu) == window(cart.prg_rom@, 0x8000, 0, cpu as int)
            &&& s.chr_banks =~= seq![0u8, 1u8]
            &&& nina && !cart.chr_ram && cart.chr_rom@.len() > 0 ==> s.chr == cart.chr_rom@ && !s.chr_ram
            &&& s.chr_ram ==> s.chr.len() == 0x2000 && Bnrom::ppu_byte(s, ppu) == 0
            &&& Bnrom::mirrored(s) == cart.mirroring
        }),
{
    lemma_window(cart.prg_rom@, 0x8000, 0, cpu as int);
    assert(cart.prg_rom.len() == cart.prg_rom@.len());
    assert(cart.chr_rom.len() == cart.chr_rom@.len());
    lemma_window(crate::mem::zeros(0x2000), 0x1000, 0, ppu as int);
    lemma_window(crate::mem::zeros(0x2000), 0x1000, 1, ppu as int);
}

/// A write, masked by the ROM byte under it, shows the patterns where it is the key: its two low
/// bits 0, 1, 2 or 3 for submappers 4 to 7, otherwise a low half that is not zero, `$13` excepted.
/// Any other hides them behind `$FF`.
pub proof fn lemma_cnrom_protect_keys(s: CnromProtectState, addr: u16, data: u8, cpu: u16, ppu: u16)
    requires
        s.prg_rom.len() > 0,
        s.chr_rom.len() >= 0x2000,
        cpu >= 0x8000,
        ppu < 0x2000,
        addr >= 0x8000,
    ensures
        ({
            let v = data & CnromProtect::cpu_byte(s, addr);
            let t = CnromProtect::after_cpu_write(s, addr, data);
            let key = if s.submapper == 4 { v % 4 == 0 } else if s.submapper == 5 { v % 4
                == 1 } else if s.submapper == 6 { v % 4 == 2 } else if s.submapper == 7 { v % 4
                == 3 } else { v % 16 != 0 && v != 0x13 };
            &&& key ==> CnromProtect::ppu_byte(t, ppu) == s.chr_rom[ppu as int]
            &&& !key ==> CnromProtect::ppu_byte(t, ppu) == 0xFF
            &&& CnromProtect::cpu_byte(t, cpu) == s.prg_rom[(cpu - 0x8000) % s.prg_rom.len() as int]
            &&& CnromProtect::mirrored(t) == CnromProtect::mirrored(s)
        }),
{
    lemma_byte_fields(data & CnromProtect::cpu_byte(s, addr));
}

/// `$8000-$BFFF` picks one of four 64 KiB blocks by bits 3-4, the other way round on the Aladdin
/// board, and `$C000-$FFFF` a 16 KiB page of it for `$8000`; the block's last page is at `$C000`.
pub proof fn lemma_bf9096_registers(
    s: CodemastersBf9096State,
    a: u16,
    block: u8,
    b: u16,
    page: u8,
    cpu: u16,
    ppu: u16,
)
    requires
        CodemastersBf9096::ok(s),
        s.prg_rom.len() >= 0x4000,
        cpu >= 0x8000,
        ppu < 0x2000,
        0x8000 <= a < 0xC000,
        b >= 0xC000,
    ensures
        ({
            let t = CodemastersBf9096::after_cpu_write(CodemastersBf9096::after_cpu_write(s, a, block),
                b, page);
            let n = if s.aladdin_mode { block as int / 16 % 2 + block as int / 8 % 2 * 2 } else {
                block as int / 8 % 4 };
            &&& cpu < 0xC000
                    ==> CodemastersBf9096::cpu_byte(t, cpu) == window(s.prg_rom, 0x4000,
                        n * 4 + page as int % 4, cpu as int)
            &&& cpu >= 0xC000
                    ==> CodemastersBf9096::cpu_byte(t, cpu) == window(s.prg_rom, 0x4000, n * 4 + 3,
                        cpu as int)
            &&& CodemastersBf9096::ppu_byte(t, ppu) == CodemastersBf9096::ppu_byte(s, ppu)
            &&& CodemastersBf9096::mirrored(t) == CodemastersBf9096::mirrored(s)
        }),
{
    let t = CodemastersBf9096::after_cpu_write(CodemastersBf9096::after_cpu_write(s, a, block), b, page);
    let n = if s.aladdin_mode { block as int / 16 % 2 + block as int / 8 % 2 * 2 } else {
        block as int / 8 % 4 };
    lemma_window(s.prg_rom, 0x4000, n * 4 + page as int % 4, cpu as int);
    lemma_window(s.prg_rom, 0x4000, n * 4 + 3, cpu as int);
    lemma_byte_fields(block);
    lemma_byte_fields(page);
    lemma_block_page(t.prg_block as usize, t.prg_page as usize);
    lemma_block_page(t.prg_block as usize, 3);
}

proof fn lemma_block_page(block: usize, page: usize)
    by (bit_vector)
    requires
        block <= 3,
        page <= 3,
    ensures
        (block << 2) | page == block * 4 + page,
{
}

/// Each register keeps what the other is written, and writes below `$8000` have no effect.
pub proof fn lemma_bf9096_registers_are_apart(s: CodemastersBf9096State, addr: u16, data: u8)
    ensures
        ({
            let t = CodemastersBf9096::after_cpu_write(s, addr, data);
            &&& addr < 0x8000 ==> t == s
            &&& 0x8000 <= addr < 0xC000 ==> t.prg_page == s.prg_page
            &&& addr >= 0xC000 ==> t.prg_block == s.prg_block
        }),
{
}

/// At power-on the first page is at `$8000` and the first block's last at `$C000`; submapper 1 is
/// the Aladdin board.
pub proof fn lemma_bf9096_at_power_on(cart: Cartridge, cpu: u16)
    requires
        cart.prg_rom@.len() >= 0x4000,
        cpu >= 0x8000,
    ensures
        ({
            let s = CodemastersBf9096State::power_on(cart);
            &&& cpu < 0xC000
                    ==> CodemastersBf9096::cpu_byte(s, cpu) == window(cart.prg_rom@, 0x4000, 0, cpu as int)
            &&& cpu >= 0xC000
                    ==> CodemastersBf9096::cpu_byte(s, cpu) == window(cart.prg_rom@, 0x4000, 3, cpu as int)
            &&& s.aladdin_mode == (cart.submapper == 1)
            &&& CodemastersBf9096::mirrored(s) == cart.mirroring
        }),
{
    lemma_window(cart.prg_rom@, 0x4000, 0, cpu as int);
    lemma_window(cart.prg_rom@, 0x4000, 3, cpu as int);
    assert(cart.prg_rom.len() == cart.prg_rom@.len());
    lemma_block_page(0, 0);
    lemma_block_page(0, 3);
}

/// A write to `$C000-$FFFF` shows its 16 KiB bank at `$8000`, with the last bank above. So does one
/// to `$8000-$BFFF` on the plain board; on the other it picks the screen by bit 4 instead. A write
/// to `$9000-$9FFF` makes the board the other one for good.
pub proof fn lemma_bf909x_registers(s: CodemastersBf909xState, addr: u16, data: u8, cpu: u16, ppu: u16)
    requires
        CodemastersBf909x::ok(s),
        s.prg_rom.len() >= 0x4000,
        cpu >= 0x8000,
        ppu < 0x2000,
        addr >= 0x8000,
    ensures
        ({
            let t = CodemastersBf909x::after_cpu_write(s, addr, data);
            let other = s.bf9097_mode || addr / 0x1000 == 9;
            let banks = addr >= 0xC000 || !other;
            &&& banks && cpu < 0xC000
                    ==> CodemastersBf909x::cpu_byte(t, cpu) == window(s.prg_rom, 0x4000, data as int,
                        cpu as int)
            &&& cpu >= 0xC000
                    ==> CodemastersBf909x::cpu_byte(t, cpu) == window(s.prg_rom, 0x4000,
                        (s.prg_rom.len() as int / 0x4000) - 1, cpu as int)
            &&& !banks ==> CodemastersBf909x::cpu_byte(t, cpu) == CodemastersBf909x::cpu_byte(s, cpu)
            &&& t.bf9097_mode == other
            &&& banks ==> CodemastersBf909x::mirrored(t) == CodemastersBf909x::mirrored(s)
            &&& !banks
                    ==> CodemastersBf909x::mirrored(t) == (if data / 16 % 2 == 1 {
                        Mirroring::SingleScreenUpper } else { Mirroring::SingleScreenLower })
            &&& CodemastersBf909x::ppu_byte(t, ppu) == CodemastersBf909x::ppu_byte(s, ppu)
        }),
{
    lemma_window(s.prg_rom, 0x4000, data as int, cpu as int);
    lemma_window(s.prg_rom, 0x4000, (s.prg_rom.len() as int / 0x4000) - 1, cpu as int);
    lemma_byte_fields(data);
}

/// At power-on bank 0 and the last bank are in the two halves, the header gives the mirroring, and
/// submapper 1 is the board with mirroring control.
pub proof fn lemma_bf909x_at_power_on(cart: Cartridge, cpu: u16, ppu: u16)
    requires
        cart.prg_rom@.len() >= 0x4000,
        cpu >= 0x8000,
        ppu < 0x2000,
    ensures
        ({
            let s = CodemastersBf909xState::power_on(cart);
            &&& cpu < 0xC000
                    ==> CodemastersBf909x::cpu_byte(s, cpu) == window(cart.prg_rom@, 0x4000, 0, cpu as int)
            &&& cpu >= 0xC000
                    ==> CodemastersBf909x::cpu_byte(s, cpu) == window(cart.prg_rom@, 0x4000,
                        (cart.prg_rom@.len() as int / 0x4000) - 1, cpu as int)
            &&& s.bf9097_mode == (cart.submapper == 1)
            &&& CodemastersBf909x::mirrored(s) == cart.mirroring
            &&& cart.chr_ram || cart.chr_rom@.len() == 0
                    ==> CodemastersBf909x::ppu_byte(s, ppu) == 0 && s.chr_ram
        }),
{
    lemma_window(cart.prg_rom@, 0x4000, 0, cpu as int);
    lemma_window(cart.prg_rom@, 0x4000, (cart.prg_rom@.len() as int / 0x4000) - 1, cpu as int);
    assert(cart.prg_rom.len() == cart.prg_rom@.len());
}

} // verus!
