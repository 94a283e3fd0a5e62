//! Registers of the Bandai boards.
use vstd::prelude::*;

use crate::bits::lemma_byte_fields;
use crate::mapper::bandai_74161::{Bandai74161, Bandai74161State};
use crate::mapper::bandai_datach::{BandaiDatach, BandaiDatachState};
use crate::mapper::bandai_fcg::{mentions, BandaiFcg, BandaiFcgState, Variant};
use crate::mapper::bandai_karaoke::{BandaiKaraoke, BandaiKaraokeState};
use crate::mapper::bandai_lz93d50_sram::{BandaiLz93d50Sram, BandaiLz93d50SramState};
use crate::mapper::bandai_oeka_kids::{BandaiOekaKids, BandaiOekaKidsState};
use crate::mapper::eeprom_24c0x::{EepromChip, EepromState};
use crate::mapper::laws::{lemma_window, window};
use crate::mapper::{Mapper, PpuFetchKind};
use crate::rom::{Cartridge, Mirroring};
use vstd::string::StringSliceAdditionalSpecFns;

verus! {

/// The mirroring that the two low bits of register 9 select.
pub open spec fn mirroring_selected(data: u8) -> Mirroring {
    match data % 4 {
        0 => Mirroring::Vertical,
        1 => Mirroring::Horizontal,
        2 => Mirroring::SingleScreenLower,
        _ => Mirroring::SingleScreenUpper,
    }
}

/// A write is masked by the ROM byte under it and picks a 16 KiB PRG bank by bits 4-6 and an 8 KiB
/// pattern bank by its low four bits. Bit 7 of the byte as written turns mirroring control on for
/// good, and of the masked byte picks the screen while control is on.
pub proof fn lemma_bandai_74161_latch(s: Bandai74161State, addr: u16, data: u8, cpu: u16, ppu: u16)
    requires
        Bandai74161::ok(s),
        s.prg_rom.len() >= 0x4000,
        s.chr.len() >= 0x2000,
        cpu >= 0x8000,
        ppu < 0x2000,
        addr >= 0x8000,
    ensures
        ({
            let v = data & Bandai74161::cpu_byte(s, addr);
            let t = Bandai74161::after_cpu_write(s, addr, data);
            &&& cpu < 0xC000
                    ==> Bandai74161::cpu_byte(t, cpu) == window(s.prg_rom, 0x4000, v as int / 16 % 8,
                        cpu as int)
            &&& cpu >= 0xC000
                    ==> Bandai74161::cpu_byte(t, cpu) == window(s.prg_rom, 0x4000,
                        (s.prg_rom.len() as int / 0x4000) - 1, cpu as int)
            &&& Bandai74161::ppu_byte(t, ppu) == window(s.chr, 0x2000, v as int % 16, ppu as int)
            &&& t.mirroring_control == (s.mirroring_control || data >= 128)
            &&& !t.mirroring_control ==> Bandai74161::mirrored(t) == Bandai74161::mirrored(s)
            &&& t.mirroring_control
                    ==> Bandai74161::mirrored(t) == (if v >= 128 {
                        Mirroring::SingleScreenUpper } else { Mirroring::SingleScreenLower })
        }),
{
    let v = data & Bandai74161::cpu_byte(s, addr);
    lemma_window(s.prg_rom, 0x4000, v as int / 16 % 8, cpu as int);
    lemma_window(s.prg_rom, 0x4000, (s.prg_rom.len() as int / 0x4000) - 1, cpu as int);
    lemma_window(s.chr, 0x2000, v as int % 16, ppu as int);
    lemma_byte_fields(data & Bandai74161::cpu_byte(s, addr));
    lemma_byte_fields(data);
}

/// At power-on bank 0 and the last bank are in the two halves and pattern bank 0 is shown. With
/// mirroring control the lower screen is selected, without it the header decides.
pub proof fn lemma_bandai74161_at_power_on(cart: Cartridge, control: bool, cpu: u16, ppu: u16)
    requires
        cart.prg_rom@.len() >= 0x4000,
        cpu >= 0x8000,
        ppu < 0x2000,
        cart.chr_ram || cart.chr_rom@.len() == 0 || cart.chr_rom@.len() >= 0x2000,
    ensures
        ({
            let s = Bandai74161State::power_on(cart, control);
            &&& cpu < 0xC000
                    ==> Bandai74161::cpu_byte(s, cpu) == window(cart.prg_rom@, 0x4000, 0, cpu as int)
            &&& cpu >= 0xC000
                    ==> Bandai74161::cpu_byte(s, cpu) == window(cart.prg_rom@, 0x4000,
                        (cart.prg_rom@.len() as int / 0x4000) - 1, cpu as int)
            &&& cart.chr_ram || cart.chr_rom@.len() == 0 ==> Bandai74161::ppu_byte(s, ppu) == 0
            &&& !cart.chr_ram && cart.chr_rom@.len() > 0
                    ==> Bandai74161::ppu_byte(s, ppu) == window(cart.chr_rom@, 0x2000, 0, ppu as int)
            &&& control ==> Bandai74161::mirrored(s) == Mirroring::SingleScreenLower
            &&& !control ==> Bandai74161::mirrored(s) == cart.mirroring
            &&& s.mirroring_control == control
        }),
{
    assert(cart.prg_rom.len() == cart.prg_rom@.len());
    assert(cart.chr_rom.len() == cart.chr_rom@.len());
    lemma_byte_fields(0);
    lemma_window(cart.prg_rom@, 0x4000, 0, cpu as int);
    lemma_window(cart.prg_rom@, 0x4000, (cart.prg_rom@.len() as int / 0x4000) - 1, cpu as int);
    if cart.chr_ram || cart.chr_rom@.len() == 0 {
        lemma_window(crate::mem::zeros(0x2000), 0x2000, 0, ppu as int);
    } else {
        lemma_window(cart.chr_rom@, 0x2000, 0, ppu as int);
    }
}

/// Register 8 shows the 16 KiB bank of its low four bits at `$8000`, with the last bank above, and
/// register 9 selects the mirroring. Neither touches anything else.
pub proof fn lemma_datach_prg_register(s: BandaiDatachState, addr: u16, data: u8, cpu: u16, ppu: u16)
    requires
        BandaiDatach::ok(s),
        s.prg_rom.len() >= 0x4000,
        cpu >= 0x8000,
        ppu < 0x2000,
        addr >= 0x8000,
    ensures
        ({
            let t = BandaiDatach::after_cpu_write(s, addr, data);
            &&& addr % 16 == 8 && cpu < 0xC000
                    ==> BandaiDatach::cpu_byte(t, cpu) == window(s.prg_rom, 0x4000, data as int % 16,
                        cpu as int)
            &&& cpu >= 0xC000
                    ==> BandaiDatach::cpu_byte(t, cpu) == window(s.prg_rom, 0x4000,
                        (s.prg_rom.len() as int / 0x4000) - 1, cpu as int)
            &&& addr % 16 != 8 ==> BandaiDatach::cpu_byte(t, cpu) == BandaiDatach::cpu_byte(s, cpu)
            &&& BandaiDatach::ppu_byte(t, ppu) == BandaiDatach::ppu_byte(s, ppu)
            &&& addr % 16 == 9 ==> BandaiDatach::mirrored(t) == mirroring_selected(data)
            &&& addr % 16 != 9 ==> BandaiDatach::mirrored(t) == BandaiDatach::mirrored(s)
        }),
{
    lemma_window(s.prg_rom, 0x4000, data as int % 16, cpu as int);
    lemma_window(s.prg_rom, 0x4000, (s.prg_rom.len() as int / 0x4000) - 1, cpu as int);
    lemma_byte_fields(data);
}

/// Register A enables the counter by bit 0, acknowledges, and copies the latch to the counter; B
/// and C are the latch's low and high byte.
pub proof fn lemma_datach_irq_registers(s: BandaiDatachState, addr: u16, data: u8)
    requires
        BandaiDatach::ok(s),
        addr >= 0x8000,
    ensures
        ({
            let t = BandaiDatach::after_cpu_write(s, addr, data);
            &&& addr % 16 == 0xA ==> !BandaiDatach::irq(t) && t.irq_enabled == (data % 2 == 1)
                    && t.irq_counter == s.irq_reload && t.irq_reload == s.irq_reload
            &&& addr % 16 == 0xB ==> t.irq_reload == s.irq_reload / 0x100 * 0x100 + data
                    && t.irq_counter == s.irq_counter
            &&& addr % 16 == 0xC ==> t.irq_reload == data * 0x100 + s.irq_reload % 0x100
                    && t.irq_counter == s.irq_counter
            &&& addr % 16 == 0xB || addr % 16 == 0xC
                    ==> BandaiDatach::irq(t) == BandaiDatach::irq(s)
                    && t.irq_enabled == s.irq_enabled
        }),
{
    lemma_byte_fields(data);
}

/// The counter runs down while enabled and around from zero, and the cycle that finds it at zero
/// raises the interrupt.
pub proof fn lemma_datach_counter(s: BandaiDatachState)
    ensures
        ({
            let t = BandaiDatach::after_cpu_cycle(s);
            &&& !s.irq_enabled ==> t == s
            &&& s.irq_enabled && s.irq_counter == 0 ==> BandaiDatach::irq(t)
                    && t.irq_counter == 0xFFFF && t.irq_enabled
            &&& s.irq_enabled && s.irq_counter > 0 ==> BandaiDatach::irq(t) == BandaiDatach::irq(s)
                    && t.irq_counter == s.irq_counter - 1 && t.irq_enabled
        }),
{
}

/// Register D drives clock and data of the base unit's chip by bits 5 and 6, and the data of the
/// cart's chip; registers 0 to 3 drive the clock of the cart's chip by bit 3. Each leaves the other
/// pins as they are.
pub proof fn lemma_datach_eeprom_pins(s: BandaiDatachState, addr: u16, data: u8)
    requires
        BandaiDatach::ok(s),
        addr >= 0x8000,
    ensures
        ({
            let t = BandaiDatach::after_cpu_write(s, addr, data);
            &&& addr % 16 == 0xD
                    ==> t.standard_eeprom == s.standard_eeprom.wrote((data / 32 % 2) as u8,
                        (data / 64 % 2) as u8)
            &&& addr % 16 != 0xD ==> t.standard_eeprom == s.standard_eeprom
            &&& s.extra_eeprom is None ==> t.extra_eeprom is None
            &&& s.extra_eeprom is Some && addr % 16 == 0xD
                    ==> t.extra_eeprom
                        == Some(s.extra_eeprom->Some_0.wrote(s.extra_eeprom->Some_0.prev_scl,
                        (data / 64 % 2) as u8))
            &&& s.extra_eeprom is Some && addr % 16 < 4
                    ==> t.extra_eeprom == Some(s.extra_eeprom->Some_0.wrote((data / 8 % 2) as u8,
                        s.extra_eeprom->Some_0.prev_sda))
            &&& addr % 16 >= 4 && addr % 16 != 0xD ==> t.extra_eeprom == s.extra_eeprom
            &&& BandaiDatach::save_due(t) == (s.save_dirty || addr % 16 == 0xD || (addr % 16 < 4
                    && s.extra_eeprom is Some))
        }),
{
    lemma_byte_fields(data);
}

/// A read of `$6000-$7FFF` has the shared data line in bit 4, low where either chip pulls it, and
/// zeros elsewhere.
pub proof fn lemma_datach_data_line(s: BandaiDatachState, addr: u16)
    requires
        0x6000 <= addr < 0x8000,
        s.standard_eeprom.output <= 1,
        s.extra_eeprom is Some ==> s.extra_eeprom->Some_0.output <= 1,
    ensures
        ({
            let high = s.standard_eeprom.output == 1 && (s.extra_eeprom is Some
                ==> s.extra_eeprom->Some_0.output == 1);
            &&& BandaiDatach::cpu_byte(s, addr) == (if high { 0x10u8 } else { 0u8 })
        }),
{
    lemma_line_bits(s.standard_eeprom.output, if s.extra_eeprom is Some {
        s.extra_eeprom->Some_0.output } else { 1 });
}

/// At power-on bank 0 and the last bank are in the two halves, pattern RAM is blank, the header
/// gives the mirroring, and a cart with 128 bytes of its own has a second chip.
pub proof fn lemma_datach_at_power_on(cart: Cartridge, cpu: u16, ppu: u16)
    requires
        cart.prg_rom@.len() >= 0x4000,
        cpu >= 0x8000,
        ppu < 0x2000,
    ensures
        ({
            let s = BandaiDatachState::power_on(cart);
            &&& cpu < 0xC000
                    ==> BandaiDatach::cpu_byte(s, cpu) == window(cart.prg_rom@, 0x4000, 0, cpu as int)
            &&& cpu >= 0xC000
                    ==> BandaiDatach::cpu_byte(s, cpu) == window(cart.prg_rom@, 0x4000,
                        (cart.prg_rom@.len() as int / 0x4000) - 1, cpu as int)
            &&& BandaiDatach::ppu_byte(s, ppu) == 0
            &&& BandaiDatach::mirrored(s) == cart.mirroring
            &&& s.standard_eeprom.chip == EepromChip::C24C02
            &&& s.extra_eeprom is Some == (cart.prg_nvram_size == 128)
            &&& !BandaiDatach::irq(s) && !s.irq_enabled && !s.save_dirty
        }),
{
    lemma_window(cart.prg_rom@, 0x4000, 0, cpu as int);
    lemma_window(cart.prg_rom@, 0x4000, (cart.prg_rom@.len() as int / 0x4000) - 1, cpu as int);
    assert(cart.prg_rom.len() == cart.prg_rom@.len());
}

proof fn lemma_line_bits(a: u8, b: u8)
    by (bit_vector)
    requires
        a <= 1,
        b <= 1,
    ensures
        ((a & 1) & (b & 1)) << 4 == (if a == 1 && b == 1 { 0x10u8 } else { 0u8 }),
        ((a & 1) & 1) << 4 == (if a == 1 { 0x10u8 } else { 0u8 }),
        (a & 1) << 4 == (if a == 1 { 0x10u8 } else { 0u8 }),
{
}

/// In the range that the chip decodes, registers 0 to 7 show 1 KiB banks in the pattern windows of
/// their number, register 8 the 16 KiB bank of its low four bits at `$8000` with the last bank
/// above, and register 9 selects the mirroring. Writes outside the range do nothing.
pub proof fn lemma_fcg_banks(s: BandaiFcgState, addr: u16, data: u8, cpu: u16, ppu: u16)
    requires
        BandaiFcg::ok(s),
        s.prg_rom.len() >= 0x4000,
        s.chr.len() >= 0x400,
        cpu >= 0x8000,
        ppu < 0x2000,
    ensures
        ({
            let dec = if s.variant == Variant::Fcg12 { 0x6000 <= addr < 0x8000 } else if s.variant
                == Variant::Lz93d50 { addr >= 0x8000 } else { addr >= 0x6000 };
            let t = BandaiFcg::after_cpu_write(s, addr, data);
            let reg = addr as int % 16;
            &&& !dec ==> t == s
            &&& dec && reg == ppu as int / 0x400
                    ==> BandaiFcg::ppu_byte(t, ppu) == window(s.chr, 0x400, data as int, ppu as int)
            &&& reg != ppu as int / 0x400 ==> BandaiFcg::ppu_byte(t, ppu) == BandaiFcg::ppu_byte(s, ppu)
            &&& dec && reg == 8 && cpu < 0xC000
                    ==> BandaiFcg::cpu_byte(t, cpu) == window(s.prg_rom, 0x4000, data as int % 16, cpu as int)
            &&& cpu >= 0xC000
                    ==> BandaiFcg::cpu_byte(t, cpu) == window(s.prg_rom, 0x4000,
                        (s.prg_rom.len() as int / 0x4000) - 1, cpu as int)
            &&& reg != 8 ==> BandaiFcg::cpu_byte(t, cpu) == BandaiFcg::cpu_byte(s, cpu)
            &&& dec && reg == 9 ==> BandaiFcg::mirrored(t) == mirroring_selected(data)
            &&& reg != 9 ==> BandaiFcg::mirrored(t) == BandaiFcg::mirrored(s)
        }),
{
    lemma_window(s.chr, 0x400, data as int, ppu as int);
    lemma_window(s.prg_rom, 0x4000, data as int % 16, cpu as int);
    lemma_window(s.prg_rom, 0x4000, (s.prg_rom.len() as int / 0x4000) - 1, cpu as int);
    lemma_byte_fields(data);
}

/// Register A enables the counter by bit 0 and acknowledges. B and C are the low and high byte of
/// the counter on the older chip; on the others they are those of a latch, which A copies to the
/// counter.
pub proof fn lemma_fcg_irq_registers(s: BandaiFcgState, addr: u16, data: u8)
    requires
        BandaiFcg::ok(s),
        if s.variant == Variant::Fcg12 { 0x6000 <= addr < 0x8000 } else { addr >= 0x8000 },
    ensures
        ({
            let t = BandaiFcg::after_cpu_write(s, addr, data);
            let old = s.variant == Variant::Fcg12;
            &&& addr % 16 == 0xA ==> !BandaiFcg::irq(t) && t.irq_enabled == (data % 2 == 1)
            &&& addr % 16 == 0xA && !old ==> t.irq_counter == s.irq_reload
            &&& addr % 16 == 0xA && old ==> t.irq_counter == s.irq_counter
            &&& addr % 16 == 0xB && old ==> t.irq_counter == s.irq_counter / 0x100 * 0x100 + data
            &&& addr % 16 == 0xC && old ==> t.irq_counter == data * 0x100 + s.irq_counter % 0x100
            &&& addr % 16 == 0xB && !old ==> t.irq_reload == s.irq_reload / 0x100 * 0x100 + data
                    && t.irq_counter == s.irq_counter
            &&& addr % 16 == 0xC && !old ==> t.irq_reload == data * 0x100 + s.irq_reload % 0x100
                    && t.irq_counter == s.irq_counter
            &&& addr % 16 != 0xA ==> BandaiFcg::irq(t) == BandaiFcg::irq(s)
        }),
{
    lemma_byte_fields(data);
}

/// The counter runs down while enabled and around from zero, and the cycle that finds it at zero
/// raises the interrupt.
pub proof fn lemma_fcg_counter(s: BandaiFcgState)
    ensures
        ({
            let t = BandaiFcg::after_cpu_cycle(s);
            &&& !s.irq_enabled ==> t == s
            &&& s.irq_enabled && s.irq_counter == 0 ==> BandaiFcg::irq(t) && t.irq_counter == 0xFFFF
                    && t.irq_enabled
            &&& s.irq_enabled && s.irq_counter > 0 ==> BandaiFcg::irq(t) == BandaiFcg::irq(s)
                    && t.irq_counter == s.irq_counter - 1 && t.irq_enabled
        }),
{
}

/// Register D drives the chip's clock and data by bits 5 and 6, where there is a chip, and nothing
/// else reaches it. A read of `$6000-$7FFF` has the chip's data line in bit 4.
pub proof fn lemma_fcg_eeprom(s: BandaiFcgState, addr: u16, data: u8, read: u16)
    requires
        BandaiFcg::ok(s),
        if s.variant == Variant::Fcg12 { 0x6000 <= addr < 0x8000 } else { addr >= 0x8000 },
        0x6000 <= read < 0x8000,
    ensures
        ({
            let t = BandaiFcg::after_cpu_write(s, addr, data);
            &&& s.eeprom is None ==> t.eeprom is None && BandaiFcg::cpu_byte(s, read) == 0
                    && BandaiFcg::battery_bytes(s) is None
            &&& s.eeprom is Some && addr % 16 == 0xD
                    ==> t.eeprom == Some(s.eeprom->Some_0.wrote((data / 32 % 2) as u8, (data / 64 % 2) as u8))
                    && t.save_dirty
            &&& addr % 16 != 0xD ==> t.eeprom == s.eeprom && t.save_dirty == s.save_dirty
            &&& s.eeprom is Some && s.eeprom->Some_0.output <= 1
                    ==> BandaiFcg::cpu_byte(s, read) == (if s.eeprom->Some_0.output == 1 {
                        0x10u8 } else { 0u8 })
            &&& s.eeprom is Some ==> BandaiFcg::battery_bytes(s) == Some(s.eeprom->Some_0.bytes)
        }),
{
    lemma_byte_fields(data);
    if s.eeprom is Some && s.eeprom->Some_0.output <= 1 {
        lemma_line_bits(s.eeprom->Some_0.output, 1);
    }
}

/// At power-on bank 0 and the last bank are in the two halves, every pattern window shows bank 0,
/// the header gives the mirroring, and no interrupt is up.
pub proof fn lemma_bandai_fcg_at_power_on(cart: Cartridge, board: Option<Seq<u8>>, cpu: u16, ppu: u16)
    requires
        cart.prg_rom@.len() >= 0x4000,
        cpu >= 0x8000,
        ppu < 0x2000,
        cart.chr_ram || cart.chr_rom@.len() == 0 || cart.chr_rom@.len() >= 0x400,
    ensures
        ({
            let s = BandaiFcgState::power_on(cart, board);
            &&& cpu < 0xC000
                    ==> BandaiFcg::cpu_byte(s, cpu) == window(cart.prg_rom@, 0x4000, 0, cpu as int)
            &&& cpu >= 0xC000
                    ==> BandaiFcg::cpu_byte(s, cpu) == window(cart.prg_rom@, 0x4000,
                        (cart.prg_rom@.len() as int / 0x4000) - 1, cpu as int)
            &&& cart.chr_ram || cart.chr_rom@.len() == 0 ==> BandaiFcg::ppu_byte(s, ppu) == 0
            &&& !cart.chr_ram && cart.chr_rom@.len() > 0
                    ==> BandaiFcg::ppu_byte(s, ppu) == window(cart.chr_rom@, 0x400, 0, ppu as int)
            &&& BandaiFcg::mirrored(s) == cart.mirroring
            &&& !BandaiFcg::irq(s) && !s.irq_enabled
        }),
{
    assert(cart.prg_rom.len() == cart.prg_rom@.len());
    assert(cart.chr_rom.len() == cart.chr_rom@.len());
    lemma_byte_fields(0);
    lemma_window(cart.prg_rom@, 0x4000, 0, cpu as int);
    lemma_window(cart.prg_rom@, 0x4000, (cart.prg_rom@.len() as int / 0x4000) - 1, cpu as int);
    if cart.chr_ram || cart.chr_rom@.len() == 0 {
        lemma_window(crate::mem::zeros(0x2000), 0x400, 0, ppu as int);
    } else {
        lemma_window(cart.chr_rom@, 0x400, 0, ppu as int);
    }
}

/// Without a board name the header decides. Mapper 159 is the later chip with 128 bytes. On mapper
/// 16, submapper 4 is the older chip with none, submapper 3 the later one with 256 bytes, submapper
/// 5 the later one with what its size says; anything else takes both ranges and has 256 bytes with
/// a battery.
pub proof fn lemma_fcg_header_choice(cart: Cartridge)
    ensures
        ({
            let s = BandaiFcgState::power_on(cart, None);
            &&& cart.mapper_id == 159 ==> s.variant == Variant::Lz93d50
                    && s.eeprom == Some(EepromState::power_on(EepromChip::C24C01))
            &&& cart.mapper_id == 16 && cart.is_nes2 && cart.submapper == 4
                    ==> s.variant == Variant::Fcg12 && s.eeprom is None
            &&& cart.mapper_id == 16 && cart.is_nes2 && cart.submapper == 3
                    ==> s.variant == Variant::Lz93d50
                    && s.eeprom == Some(EepromState::power_on(EepromChip::C24C02))
            &&& cart.mapper_id == 16 && cart.is_nes2 && cart.submapper == 5
                    ==> s.variant == Variant::Lz93d50
            &&& cart.mapper_id == 16 && cart.is_nes2 && cart.submapper == 5
                    && cart.prg_nvram_size == 128
                    ==> s.eeprom == Some(EepromState::power_on(EepromChip::C24C01))
            &&& cart.mapper_id == 16 && cart.is_nes2 && cart.submapper == 5
                    && cart.prg_nvram_size == 256
                    ==> s.eeprom == Some(EepromState::power_on(EepromChip::C24C02))
            &&& cart.mapper_id == 16 && cart.is_nes2 && cart.submapper == 5
                    && cart.prg_nvram_size != 128 && cart.prg_nvram_size != 256 ==> s.eeprom is None
            &&& cart.mapper_id == 16 && (!cart.is_nes2 || (cart.submapper != 3
                    && cart.submapper != 4 && cart.submapper != 5)) ==> s.variant == Variant::Legacy
                    && (cart.battery_backed
                    ==> s.eeprom == Some(EepromState::power_on(EepromChip::C24C02)))
                    && (!cart.battery_backed ==> s.eeprom is None)
        }),
{
}

/// A board name that a database gives goes before the header on mapper 16: FCG-1 and FCG-2 are the
/// older chip with no memory, LZ93D50 the later one with the memory that the name adds.
pub proof fn lemma_fcg_name_choice(cart: Cartridge, head: Seq<u8>, tail: Seq<u8>)
    requires
        cart.mapper_id == 16,
    ensures
        ({
            let fcg1 = BandaiFcgState::power_on(cart, Some(head + "FCG-1".spec_bytes() + tail));
            let fcg2 = BandaiFcgState::power_on(cart, Some(head + "FCG-2".spec_bytes() + tail));
            &&& fcg1.variant == Variant::Fcg12 && fcg1.eeprom is None
            &&& fcg2.variant == Variant::Fcg12 && fcg2.eeprom is None
        }),
{
    let a = "FCG-1".spec_bytes();
    let b = "FCG-2".spec_bytes();
    let x = head + a + tail;
    let y = head + b + tail;
    let at = head.len() as int;
    assert(x.subrange(at, at + a.len()) =~= a);
    assert(y.subrange(at, at + b.len()) =~= b);
    assert(mentions(x, a));
    assert(mentions(y, b));
}

/// A name of the later chip tells its memory: 24C02, 24C01, or none. A name that tells nothing
/// leaves the choice to the header.
pub proof fn lemma_fcg_memory_choice(cart: Cartridge, name: Seq<u8>)
    requires
        cart.mapper_id == 16,
        !mentions(name, "FCG-1".spec_bytes()),
        !mentions(name, "FCG-2".spec_bytes()),
    ensures
        ({
            let s = BandaiFcgState::power_on(cart, Some(name));
            let later = mentions(name, "LZ93D50".spec_bytes());
            let big = mentions(name, "+24C02".spec_bytes());
            let small = mentions(name, "+24C01".spec_bytes());
            &&& later ==> s.variant == Variant::Lz93d50
            &&& later && big ==> s.eeprom == Some(EepromState::power_on(EepromChip::C24C02))
            &&& later && !big && small ==> s.eeprom == Some(EepromState::power_on(EepromChip::C24C01))
            &&& later && !big && !small ==> s.eeprom is None
            &&& !later && !big && !small ==> s == BandaiFcgState::power_on(cart, None)
        }),
{
}

/// A save of 256 bytes fills the base unit's chip, one of 384 the cart's too where it has one; any
/// other is ignored.
pub proof fn lemma_datach_load(s: BandaiDatachState, data: Seq<u8>)
    requires
        BandaiDatach::ok(s),
    ensures
        ({
            let t = BandaiDatach::after_load(s, data);
            &&& data.len() == 256
                    ==> t.standard_eeprom == (EepromState { bytes: data, ..s.standard_eeprom })
                    && t.extra_eeprom == s.extra_eeprom
            &&& data.len() == 384 ==> t.standard_eeprom.bytes == data.subrange(0, 256)
            &&& data.len() == 384 && s.extra_eeprom is Some ==> t.extra_eeprom is Some
                    && t.extra_eeprom->Some_0.bytes == data.subrange(256, 384)
            &&& data.len() != 256 && data.len() != 384 ==> t == s
            &&& s.extra_eeprom is None ==> t.extra_eeprom is None
            &&& BandaiDatach::save_due(s) == s.save_dirty
            &&& BandaiDatach::after_save(s) == (BandaiDatachState { save_dirty: false, ..s })
        }),
{
    if data.len() == 256 {
        assert(data.take(256) =~= data);
    } else if data.len() == 384 {
        assert(data.take(256) =~= data.subrange(0, 256));
        assert(data.skip(256) =~= data.subrange(256, 384));
    }
}

/// A save fills the chip where it has its size, and is ignored otherwise.
pub proof fn lemma_fcg_load(s: BandaiFcgState, data: Seq<u8>)
    requires
        BandaiFcg::ok(s),
    ensures
        ({
            let t = BandaiFcg::after_load(s, data);
            &&& s.eeprom is None ==> t == s
            &&& s.eeprom is Some && data.len() == s.eeprom->Some_0.bytes.len()
                    ==> t.eeprom == Some(EepromState { bytes: data, ..s.eeprom->Some_0 })
            &&& s.eeprom is Some && data.len() != s.eeprom->Some_0.bytes.len() ==> t.eeprom == s.eeprom
            &&& BandaiFcg::save_due(s) == (s.save_dirty && s.eeprom is Some)
            &&& BandaiFcg::after_save(s) == (BandaiFcgState { save_dirty: false, ..s })
        }),
{
}

/// A write is masked by the ROM byte under it. Bit 4 set shows the internal 16 KiB bank of its low
/// three bits at `$8000`, clear the bank eight further up, where there is one; the eighth internal
/// bank stays at `$C000`. Bit 5 selects horizontal mirroring.
pub proof fn lemma_karaoke_latch(s: BandaiKaraokeState, addr: u16, data: u8, cpu: u16, ppu: u16)
    requires
        BandaiKaraoke::ok(s),
        s.prg_rom.len() >= 0x2_0000,
        s.has_expansion == (s.prg_rom.len() >= 0x4_0000),
        cpu >= 0x8000,
        ppu < 0x2000,
        addr >= 0x8000,
    ensures
        ({
            let shown = s.reg & 0x10 != 0 || s.has_expansion || addr >= 0xC000;
            let v = if shown { data & BandaiKaraoke::cpu_byte(s, addr) } else { data };
            let t = BandaiKaraoke::after_cpu_write(s, addr, data);
            &&& v / 16 % 2 == 1 && cpu < 0xC000
                    ==> BandaiKaraoke::cpu_byte(t, cpu) == window(s.prg_rom, 0x4000, v as int % 8, cpu as int)
            &&& v / 16 % 2 == 0 && s.prg_rom.len() >= 0x4_0000 && cpu < 0xC000
                    ==> BandaiKaraoke::cpu_byte(t, cpu) == window(s.prg_rom, 0x4000, 8 + v as int % 8,
                        cpu as int)
            &&& v / 16 % 2 == 0 && s.prg_rom.len() < 0x4_0000 && cpu < 0xC000
                    ==> BandaiKaraoke::cpu_byte(t, cpu) == 0
            &&& cpu >= 0xC000
                    ==> BandaiKaraoke::cpu_byte(t, cpu) == window(s.prg_rom, 0x4000, 7, cpu as int)
            &&& BandaiKaraoke::mirrored(t) == (if v / 32 % 2 == 1 { Mirroring::Horizontal } else {
                Mirroring::Vertical })
            &&& BandaiKaraoke::ppu_byte(t, ppu) == BandaiKaraoke::ppu_byte(s, ppu)
        }),
{
    let shown = s.reg & 0x10 != 0 || s.has_expansion || addr >= 0xC000;
    let v = if shown { data & BandaiKaraoke::cpu_byte(s, addr) } else { data };
    lemma_window(s.prg_rom, 0x4000, v as int % 8, cpu as int);
    lemma_window(s.prg_rom, 0x4000, 8 + v as int % 8, cpu as int);
    lemma_window(s.prg_rom, 0x4000, 7, cpu as int);
    lemma_byte_fields(data);
    lemma_byte_fields(data & BandaiKaraoke::cpu_byte(s, addr));
    lemma_byte_fields(data & 0xFF);
}

/// The microphone reads as silent, whatever is written below `$8000`.
pub proof fn lemma_karaoke_microphone(s: BandaiKaraokeState, addr: u16, data: u8, read: u16)
    requires
        0x6000 <= read < 0x8000,
        addr < 0x8000,
    ensures
        ({
            &&& BandaiKaraoke::cpu_byte(s, read) == 0xF8
            &&& BandaiKaraoke::after_cpu_write(s, addr, data) == s
        }),
{
}

/// At power-on the register is clear, so that the expansion shows where there is one, the header
/// gives the mirroring, and pattern RAM is blank.
pub proof fn lemma_karaoke_at_power_on(cart: Cartridge, cpu: u16, ppu: u16)
    requires
        cart.prg_rom@.len() >= 0x2_0000,
        cpu >= 0x8000,
        ppu < 0x2000,
    ensures
        ({
            let s = BandaiKaraokeState::power_on(cart);
            &&& cpu >= 0xC000
                    ==> BandaiKaraoke::cpu_byte(s, cpu) == window(cart.prg_rom@, 0x4000, 7, cpu as int)
            &&& cpu < 0xC000 && cart.prg_rom@.len() >= 0x4_0000
                    ==> BandaiKaraoke::cpu_byte(s, cpu) == window(cart.prg_rom@, 0x4000, 8, cpu as int)
            &&& cpu < 0xC000 && cart.prg_rom@.len() < 0x4_0000 ==> BandaiKaraoke::cpu_byte(s, cpu) == 0
            &&& s.has_expansion == (cart.prg_rom@.len() >= 0x4_0000)
            &&& BandaiKaraoke::mirrored(s) == cart.mirroring
            &&& BandaiKaraoke::ppu_byte(s, ppu) == 0
        }),
{
    lemma_window(cart.prg_rom@, 0x4000, 7, cpu as int);
    lemma_window(cart.prg_rom@, 0x4000, 8, cpu as int);
    assert(cart.prg_rom.len() == cart.prg_rom@.len());
    lemma_byte_fields(0);
}

/// `$8000` shows the 16 KiB bank of the page and the outer bit above it, `$C000` the last bank of
/// the half that the outer bit picks.
pub proof fn lemma_sram_windows(s: BandaiLz93d50SramState, cpu: u16)
    requires
        BandaiLz93d50Sram::ok(s),
        s.prg_rom.len() >= 0x4000,
        s.prg_page < 16,
        s.prg_outer <= 1,
        cpu >= 0x8000,
    ensures
        ({
            &&& cpu < 0xC000
                    ==> BandaiLz93d50Sram::cpu_byte(s, cpu) == window(s.prg_rom, 0x4000,
                        s.prg_page + 16 * s.prg_outer, cpu as int)
            &&& cpu >= 0xC000
                    ==> BandaiLz93d50Sram::cpu_byte(s, cpu) == window(s.prg_rom, 0x4000,
                        15 + 16 * s.prg_outer, cpu as int)
        }),
{
    lemma_window(s.prg_rom, 0x4000, s.prg_page + 16 * s.prg_outer, cpu as int);
    lemma_window(s.prg_rom, 0x4000, 15 + 16 * s.prg_outer, cpu as int);
    lemma_outer_bank(s.prg_page as usize, s.prg_outer as usize);
    lemma_outer_bank(15, s.prg_outer as usize);
}

/// Register 8 holds the page. The outer bit is set where the lowest bit of any of registers 0 to 7
/// is. Register 9 selects the mirroring.
pub proof fn lemma_sram_bank_registers(s: BandaiLz93d50SramState, addr: u16, data: u8, other: int, ppu: u16)
    requires
        BandaiLz93d50Sram::ok(s),
        addr >= 0x8000,
        0 <= other < 8,
        other != addr as int % 16,
        ppu < 0x2000,
    ensures
        ({
            let t = BandaiLz93d50Sram::after_cpu_write(s, addr, data);
            let reg = addr as int % 16;
            &&& reg == 8 ==> t.prg_page == data % 16
            &&& reg != 8 ==> t.prg_page == s.prg_page
            &&& reg >= 8 ==> t.prg_outer == s.prg_outer && t.chr_regs == s.chr_regs
            &&& reg < 8 && data % 2 == 1 ==> t.prg_outer == 1
            &&& reg < 8 && s.chr_regs[other] % 2 == 1 ==> t.prg_outer == 1
            &&& reg < 8 && data % 2 == 0 && (forall|i: int| 0 <= i < 8 && i != reg
                    ==> #[trigger] s.chr_regs[i] % 2 == 0) ==> t.prg_outer == 0
            &&& reg < 8 ==> t.chr_regs == s.chr_regs.update(reg, data)
            &&& BandaiLz93d50Sram::ppu_byte(t, ppu) == BandaiLz93d50Sram::ppu_byte(s, ppu)
            &&& reg == 9 ==> BandaiLz93d50Sram::mirrored(t) == mirroring_selected(data)
            &&& reg != 9 ==> BandaiLz93d50Sram::mirrored(t) == BandaiLz93d50Sram::mirrored(s)
            &&& t.prg_rom == s.prg_rom
        }),
{
    let t = BandaiLz93d50Sram::after_cpu_write(s, addr, data);
    let reg = addr as int % 16;
    lemma_byte_fields(data);
    lemma_byte_fields(s.chr_regs[other]);
    if reg < 8 {
        assert(t.chr_regs[reg] == data);
        assert(t.chr_regs[other] == s.chr_regs[other]);
        assert forall|i: int| 0 <= i < 8 implies (#[trigger] t.chr_regs[i] & 0x01 != 0)
            == (t.chr_regs[i] % 2 == 1) by {
            lemma_byte_fields(t.chr_regs[i]);
        }
        assert(forall|i: int| 0 <= i < 8 && i != reg ==> t.chr_regs[i] == #[trigger] s.chr_regs[i]);
    }
}

proof fn lemma_outer_bank(page: usize, outer: usize)
    by (bit_vector)
    requires
        page < 16,
        outer <= 1,
    ensures
        page | (outer << 4) == page + 16 * outer,
{
}

/// Register A enables the counter by bit 0, acknowledges, and copies the latch to the counter; B
/// and C are the latch's low and high byte.
pub proof fn lemma_sram_irq_registers(s: BandaiLz93d50SramState, addr: u16, data: u8)
    requires
        BandaiLz93d50Sram::ok(s),
        addr >= 0x8000,
    ensures
        ({
            let t = BandaiLz93d50Sram::after_cpu_write(s, addr, data);
            &&& addr % 16 == 0xA ==> !BandaiLz93d50Sram::irq(t) && t.irq_enabled == (data % 2 == 1)
                    && t.irq_counter == s.irq_reload && t.irq_reload == s.irq_reload
            &&& addr % 16 == 0xB ==> t.irq_reload == s.irq_reload / 0x100 * 0x100 + data
                    && t.irq_counter == s.irq_counter
            &&& addr % 16 == 0xC ==> t.irq_reload == data * 0x100 + s.irq_reload % 0x100
                    && t.irq_counter == s.irq_counter
            &&& addr % 16 == 0xB || addr % 16 == 0xC
                    ==> BandaiLz93d50Sram::irq(t) == BandaiLz93d50Sram::irq(s)
                    && t.irq_enabled == s.irq_enabled
        }),
{
    lemma_byte_fields(data);
}

/// The counter runs down while enabled and around from zero, and the cycle that finds it at zero
/// raises the interrupt.
pub proof fn lemma_sram_counter(s: BandaiLz93d50SramState)
    ensures
        ({
            let t = BandaiLz93d50Sram::after_cpu_cycle(s);
            &&& !s.irq_enabled ==> t == s
            &&& s.irq_enabled && s.irq_counter == 0 ==> BandaiLz93d50Sram::irq(t)
                    && t.irq_counter == 0xFFFF && t.irq_enabled
            &&& s.irq_enabled && s.irq_counter > 0
                    ==> BandaiLz93d50Sram::irq(t) == BandaiLz93d50Sram::irq(s)
                    && t.irq_counter == s.irq_counter - 1 && t.irq_enabled
        }),
{
}

/// Bit 5 of register D opens work RAM; while it is closed, work RAM reads as zero and ignores
/// writes.
pub proof fn lemma_sram_gate(s: BandaiLz93d50SramState, addr: u16, data: u8, ram: u16, byte: u8)
    requires
        addr >= 0x8000,
        0x6000 <= ram < 0x8000,
    ensures
        ({
            let t = BandaiLz93d50Sram::after_cpu_write(s, addr, data);
            &&& addr % 16 == 0xD ==> t.prg_ram_enabled == (data / 32 % 2 == 1)
            &&& addr % 16 != 0xD ==> t.prg_ram_enabled == s.prg_ram_enabled
            &&& !s.prg_ram_enabled ==> BandaiLz93d50Sram::cpu_byte(s, ram) == 0
                    && BandaiLz93d50Sram::after_cpu_write(s, ram, byte) == s
            &&& t.prg_ram == s.prg_ram
        }),
{
    lemma_byte_fields(data);
}

/// At power-on bank 0 is at `$8000` and bank 15 at `$C000`, work RAM is open and blank, and the
/// header gives the mirroring.
pub proof fn lemma_sram_at_power_on(cart: Cartridge, cpu: u16, ppu: u16, ram: u16)
    requires
        cart.prg_rom@.len() >= 0x4000,
        cpu >= 0x8000,
        ppu < 0x2000,
        0x6000 <= ram < 0x8000,
    ensures
        ({
            let s = BandaiLz93d50SramState::power_on(cart);
            &&& cpu < 0xC000
                    ==> BandaiLz93d50Sram::cpu_byte(s, cpu) == window(cart.prg_rom@, 0x4000, 0, cpu as int)
            &&& cpu >= 0xC000
                    ==> BandaiLz93d50Sram::cpu_byte(s, cpu) == window(cart.prg_rom@, 0x4000, 15, cpu as int)
            &&& BandaiLz93d50Sram::cpu_byte(s, ram) == 0 && s.prg_ram_enabled && s.prg_ram.len() >= 0x2000
            &&& BandaiLz93d50Sram::ppu_byte(s, ppu) == 0
            &&& BandaiLz93d50Sram::mirrored(s) == cart.mirroring
            &&& !BandaiLz93d50Sram::irq(s) && !s.irq_enabled
            &&& BandaiLz93d50Sram::battery_bytes(s) == Some(s.prg_ram)
        }),
{
    lemma_window(cart.prg_rom@, 0x4000, 0, cpu as int);
    lemma_window(cart.prg_rom@, 0x4000, 15, cpu as int);
    assert(cart.prg_rom.len() == cart.prg_rom@.len());
    lemma_outer_bank(0, 0);
    lemma_outer_bank(15, 0);
}

/// Work RAM is always saved, and takes back data of its length.
pub proof fn lemma_sram_saves(s: BandaiLz93d50SramState, data: Seq<u8>)
    ensures
        ({
            let t = BandaiLz93d50Sram::after_load(s, data);
            &&& BandaiLz93d50Sram::battery_bytes(s) == Some(s.prg_ram)
            &&& data.len() == s.prg_ram.len() ==> t == (BandaiLz93d50SramState { prg_ram: data, ..s })
            &&& data.len() != s.prg_ram.len() ==> t == s
            &&& BandaiLz93d50Sram::save_due(s) == s.save_dirty
            &&& BandaiLz93d50Sram::after_save(s) == (BandaiLz93d50SramState { save_dirty: false, ..s })
        }),
{
}

/// A write is masked by the ROM byte under it and picks a 32 KiB PRG bank by its two low bits and
/// by bit 2 the half of the eight 4 KiB pattern pages: `$0000` has the page of that half that the
/// PPU latched, `$1000` its last.
pub proof fn lemma_oeka_latch(s: BandaiOekaKidsState, addr: u16, data: u8, cpu: u16, ppu: u16)
    requires
        BandaiOekaKids::ok(s),
        s.prg_rom.len() >= 0x8000,
        cpu >= 0x8000,
        ppu < 0x2000,
        addr >= 0x8000,
        s.chr_ram.len() == 0x8000,
    ensures
        ({
            let v = data & BandaiOekaKids::cpu_byte(s, addr);
            let t = BandaiOekaKids::after_cpu_write(s, addr, data);
            let half = v as int / 4 % 2 * 4;
            &&& BandaiOekaKids::cpu_byte(t, cpu) == window(s.prg_rom, 0x8000, v as int % 4, cpu as int)
            &&& ppu < 0x1000
                    ==> BandaiOekaKids::ppu_byte(t, ppu) == window(s.chr_ram, 0x1000,
                        half + s.inner_chr as int % 4, ppu as int)
            &&& ppu >= 0x1000
                    ==> BandaiOekaKids::ppu_byte(t, ppu) == window(s.chr_ram, 0x1000, half + 3, ppu as int)
            &&& BandaiOekaKids::mirrored(t) == BandaiOekaKids::mirrored(s)
        }),
{
    let v = data & BandaiOekaKids::cpu_byte(s, addr);
    let half = v as int / 4 % 2 * 4;
    lemma_window(s.prg_rom, 0x8000, v as int % 4, cpu as int);
    lemma_window(s.chr_ram, 0x1000, half + s.inner_chr as int % 4, ppu as int);
    lemma_window(s.chr_ram, 0x1000, half + 3, ppu as int);
    lemma_byte_fields(data & BandaiOekaKids::cpu_byte(s, addr));
    lemma_window(s.prg_rom, 0x8000, (s.reg & 0x03) as int, addr as int);
}

/// The PPU latches a page when it drives a tile address of a nametable: bits 8-9 of the address.
/// Attribute and pattern addresses leave the latch alone.
pub proof fn lemma_oeka_page_latch(s: BandaiOekaKidsState, addr: u16, cycle: u64, kind: PpuFetchKind)
    ensures
        ({
            let t = BandaiOekaKids::after_ppu_addr(s, addr, cycle, kind);
            &&& 0x2000 <= addr < 0x3000 && addr % 0x400 < 0x3C0
                    ==> t == (BandaiOekaKidsState { inner_chr: (addr / 0x100 % 4) as u8, ..s })
            &&& addr < 0x2000 || addr >= 0x3000 || addr % 0x400 >= 0x3C0 ==> t == s
        }),
{
}

/// At power-on bank 0 is shown, all pattern pages are blank, and the header gives the mirroring.
pub proof fn lemma_oeka_at_power_on(cart: Cartridge, cpu: u16, ppu: u16)
    requires
        cart.prg_rom@.len() >= 0x8000,
        cpu >= 0x8000,
        ppu < 0x2000,
    ensures
        ({
            let s = BandaiOekaKidsState::power_on(cart);
            &&& BandaiOekaKids::cpu_byte(s, cpu) == window(cart.prg_rom@, 0x8000, 0, cpu as int)
            &&& BandaiOekaKids::ppu_byte(s, ppu) == 0
            &&& s.chr_ram.len() == 0x8000
            &&& s.inner_chr == 0
            &&& BandaiOekaKids::mirrored(s) == cart.mirroring
        }),
{
    lemma_window(cart.prg_rom@, 0x8000, 0, cpu as int);
    assert(cart.prg_rom.len() == cart.prg_rom@.len());
    lemma_byte_fields(0);
}

} // verus!
