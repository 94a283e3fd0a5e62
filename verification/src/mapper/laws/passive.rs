//! What the boards leave alone.
use vstd::prelude::*;

use crate::mapper::ave_nina::{AveNina, AveNinaState};
use crate::mapper::bandai_74161::{Bandai74161, Bandai74161State};
use crate::mapper::bandai_datach::{BandaiDatach, BandaiDatachState};
use crate::mapper::bandai_fcg::{BandaiFcg, BandaiFcgState};
use crate::mapper::bandai_karaoke::{BandaiKaraoke, BandaiKaraokeState};
use crate::mapper::bandai_lz93d50_sram::{BandaiLz93d50Sram, BandaiLz93d50SramState};
use crate::mapper::bandai_oeka_kids::{BandaiOekaKids, BandaiOekaKidsState};
use crate::mapper::bnrom::{Bnrom, BnromState};
use crate::mapper::cnrom_protect::{CnromProtect, CnromProtectState};
use crate::mapper::codemasters_bf9096::{CodemastersBf9096, CodemastersBf9096State};
use crate::mapper::codemasters_bf909x::{CodemastersBf909x, CodemastersBf909xState};
use crate::mapper::color_dreams::{ColorDreams, ColorDreamsState};
use crate::mapper::cprom::{Cprom, CpromState};
use crate::mapper::irem_74x161::{Irem74x161, Irem74x161State};
use crate::mapper::irem_g101::{IremG101, IremG101State};
use crate::mapper::irem_h3001::{IremH3001, IremH3001State};
use crate::mapper::irem_lrog017::{IremLrog017, IremLrog017State};
use crate::mapper::irem_tam_s1::{IremTamS1, IremTamS1State};
use crate::mapper::jaleco_jf05::{JalecoJf05, JalecoJf05State};
use crate::mapper::jaleco_jf11_14::{JalecoJf11_14, JalecoJf11_14State};
use crate::mapper::jaleco_jf13::{JalecoJf13, JalecoJf13State};
use crate::mapper::jaleco_jf17::{JalecoJf17, JalecoJf17State};
use crate::mapper::jaleco_ss88006::{JalecoSs88006, JalecoSs88006State};
use crate::mapper::mapper037::{Mapper037, Mapper037State};
use crate::mapper::mapper047::{Mapper047, Mapper047State};
use crate::mapper::mmc1::{Mmc1, Mmc1State};
use crate::mapper::mmc2::{Mmc2, Mmc2State};
use crate::mapper::mmc3::{Mmc3, Mmc3State};
use crate::mapper::namco_118::{Namco118, Namco118State};
use crate::mapper::nes_event::{Mapper105, Mapper105State};
use crate::mapper::nrom::{Nrom, NromState};
use crate::mapper::sunsoft1::{Sunsoft1, Sunsoft1State};
use crate::mapper::sunsoft2::{Sunsoft2, Sunsoft2State};
use crate::mapper::sunsoft3::{Sunsoft3, Sunsoft3State};
use crate::mapper::sunsoft4::{Sunsoft4, Sunsoft4State};
use crate::mapper::{Mapper, NametableSource, NametableWriteTarget, PpuFetchKind};

verus! {

/// Reads leave the board as it is, a look shows what a read would, and what the board does not decode
/// it leaves to the console.
pub proof fn lemma_ave_nina_is_passive(s: AveNinaState, addr: u16, data: u8, slot: u8, cycle: u64,
    kind: PpuFetchKind)
    ensures
        AveNina::after_cpu_read(s, addr) == s,
        AveNina::peeked(s, addr) == AveNina::cpu_byte(s, addr),
        AveNina::expansion_byte(s, addr) is None,
        AveNina::after_expansion_read(s, addr) == s,
        AveNina::after_nametable_read(s, slot, addr) == s,
        AveNina::after_nametable_write(s, slot, addr, data) == s,
        addr < 0x6000 ==> AveNina::cpu_byte(s, addr) == 0,
        addr >= 0x2000 ==> AveNina::ppu_byte(s, addr) == 0,
        AveNina::after_ppu_read(s, addr) == s,
        addr >= 0x2000 ==> AveNina::after_ppu_write(s, addr, data) == s,
        !AveNina::irq(s),
        AveNina::after_cpu_cycle(s) == s,
        AveNina::nametable_source(s, slot, addr) == NametableSource::Default,
        AveNina::nametable_target(s, slot, addr, data) == NametableWriteTarget::Default,
        AveNina::after_ppu_addr(s, addr, cycle, kind) == s,
{
}

/// Reads leave the board as it is, a look shows what a read would, and what the board does not decode
/// it leaves to the console.
pub proof fn lemma_bandai74161_is_passive(s: Bandai74161State, addr: u16, data: u8, slot: u8,
    cycle: u64, kind: PpuFetchKind)
    ensures
        Bandai74161::after_cpu_read(s, addr) == s,
        Bandai74161::peeked(s, addr) == Bandai74161::cpu_byte(s, addr),
        Bandai74161::expansion_byte(s, addr) is None,
        Bandai74161::after_expansion_read(s, addr) == s,
        Bandai74161::after_nametable_read(s, slot, addr) == s,
        Bandai74161::after_nametable_write(s, slot, addr, data) == s,
        addr < 0x6000 ==> Bandai74161::cpu_byte(s, addr) == 0,
        addr >= 0x2000 ==> Bandai74161::ppu_byte(s, addr) == 0,
        Bandai74161::after_ppu_read(s, addr) == s,
        addr >= 0x2000 ==> Bandai74161::after_ppu_write(s, addr, data) == s,
        !Bandai74161::irq(s),
        Bandai74161::after_cpu_cycle(s) == s,
        Bandai74161::nametable_source(s, slot, addr) == NametableSource::Default,
        Bandai74161::nametable_target(s, slot, addr, data) == NametableWriteTarget::Default,
        Bandai74161::after_ppu_addr(s, addr, cycle, kind) == s,
{
}

/// Reads leave the board as it is, a look shows what a read would, and what the board does not decode
/// it leaves to the console.
pub proof fn lemma_bandai_datach_is_passive(s: BandaiDatachState, addr: u16, data: u8, slot: u8,
    cycle: u64, kind: PpuFetchKind)
    ensures
        BandaiDatach::after_cpu_read(s, addr) == s,
        BandaiDatach::peeked(s, addr) == BandaiDatach::cpu_byte(s, addr),
        BandaiDatach::expansion_byte(s, addr) is None,
        BandaiDatach::after_expansion_read(s, addr) == s,
        BandaiDatach::after_nametable_read(s, slot, addr) == s,
        BandaiDatach::after_nametable_write(s, slot, addr, data) == s,
        addr < 0x6000 ==> BandaiDatach::cpu_byte(s, addr) == 0,
        addr >= 0x2000 ==> BandaiDatach::ppu_byte(s, addr) == 0,
        BandaiDatach::after_ppu_read(s, addr) == s,
        addr >= 0x2000 ==> BandaiDatach::after_ppu_write(s, addr, data) == s,
        BandaiDatach::nametable_source(s, slot, addr) == NametableSource::Default,
        BandaiDatach::nametable_target(s, slot, addr, data) == NametableWriteTarget::Default,
        BandaiDatach::after_ppu_addr(s, addr, cycle, kind) == s,
{
}

/// Reads leave the board as it is, a look shows what a read would, and what the board does not decode
/// it leaves to the console.
pub proof fn lemma_bandai_fcg_is_passive(s: BandaiFcgState, addr: u16, data: u8, slot: u8, cycle: u64,
    kind: PpuFetchKind)
    ensures
        BandaiFcg::after_cpu_read(s, addr) == s,
        BandaiFcg::peeked(s, addr) == BandaiFcg::cpu_byte(s, addr),
        BandaiFcg::expansion_byte(s, addr) is None,
        BandaiFcg::after_expansion_read(s, addr) == s,
        BandaiFcg::after_nametable_read(s, slot, addr) == s,
        BandaiFcg::after_nametable_write(s, slot, addr, data) == s,
        addr < 0x6000 ==> BandaiFcg::cpu_byte(s, addr) == 0,
        addr >= 0x2000 ==> BandaiFcg::ppu_byte(s, addr) == 0,
        BandaiFcg::after_ppu_read(s, addr) == s,
        addr >= 0x2000 ==> BandaiFcg::after_ppu_write(s, addr, data) == s,
        BandaiFcg::nametable_source(s, slot, addr) == NametableSource::Default,
        BandaiFcg::nametable_target(s, slot, addr, data) == NametableWriteTarget::Default,
        BandaiFcg::after_ppu_addr(s, addr, cycle, kind) == s,
{
}

/// Reads leave the board as it is, a look shows what a read would, and what the board does not decode
/// it leaves to the console.
pub proof fn lemma_bandai_karaoke_is_passive(s: BandaiKaraokeState, addr: u16, data: u8, slot: u8,
    cycle: u64, kind: PpuFetchKind)
    ensures
        BandaiKaraoke::after_cpu_read(s, addr) == s,
        BandaiKaraoke::peeked(s, addr) == BandaiKaraoke::cpu_byte(s, addr),
        BandaiKaraoke::expansion_byte(s, addr) is None,
        BandaiKaraoke::after_expansion_read(s, addr) == s,
        BandaiKaraoke::after_nametable_read(s, slot, addr) == s,
        BandaiKaraoke::after_nametable_write(s, slot, addr, data) == s,
        addr < 0x6000 ==> BandaiKaraoke::cpu_byte(s, addr) == 0,
        addr >= 0x2000 ==> BandaiKaraoke::ppu_byte(s, addr) == 0,
        BandaiKaraoke::after_ppu_read(s, addr) == s,
        addr >= 0x2000 ==> BandaiKaraoke::after_ppu_write(s, addr, data) == s,
        !BandaiKaraoke::irq(s),
        BandaiKaraoke::after_cpu_cycle(s) == s,
        BandaiKaraoke::nametable_source(s, slot, addr) == NametableSource::Default,
        BandaiKaraoke::nametable_target(s, slot, addr, data) == NametableWriteTarget::Default,
        BandaiKaraoke::after_ppu_addr(s, addr, cycle, kind) == s,
{
}

/// Reads leave the board as it is, a look shows what a read would, and what the board does not decode
/// it leaves to the console.
pub proof fn lemma_bandai_lz93d50_sram_is_passive(s: BandaiLz93d50SramState, addr: u16, data: u8,
    slot: u8, cycle: u64, kind: PpuFetchKind)
    ensures
        BandaiLz93d50Sram::after_cpu_read(s, addr) == s,
        BandaiLz93d50Sram::peeked(s, addr) == BandaiLz93d50Sram::cpu_byte(s, addr),
        BandaiLz93d50Sram::expansion_byte(s, addr) is None,
        BandaiLz93d50Sram::after_expansion_read(s, addr) == s,
        BandaiLz93d50Sram::after_nametable_read(s, slot, addr) == s,
        BandaiLz93d50Sram::after_nametable_write(s, slot, addr, data) == s,
        addr < 0x6000 ==> BandaiLz93d50Sram::cpu_byte(s, addr) == 0,
        addr >= 0x2000 ==> BandaiLz93d50Sram::ppu_byte(s, addr) == 0,
        BandaiLz93d50Sram::after_ppu_read(s, addr) == s,
        addr >= 0x2000 ==> BandaiLz93d50Sram::after_ppu_write(s, addr, data) == s,
        BandaiLz93d50Sram::nametable_source(s, slot, addr) == NametableSource::Default,
        BandaiLz93d50Sram::nametable_target(s, slot, addr, data) == NametableWriteTarget::Default,
        BandaiLz93d50Sram::after_ppu_addr(s, addr, cycle, kind) == s,
{
}

/// Reads leave the board as it is, a look shows what a read would, and what the board does not decode
/// it leaves to the console.
pub proof fn lemma_bandai_oeka_kids_is_passive(s: BandaiOekaKidsState, addr: u16, data: u8, slot: u8,
    cycle: u64, kind: PpuFetchKind)
    ensures
        BandaiOekaKids::after_cpu_read(s, addr) == s,
        BandaiOekaKids::peeked(s, addr) == BandaiOekaKids::cpu_byte(s, addr),
        BandaiOekaKids::expansion_byte(s, addr) is None,
        BandaiOekaKids::after_expansion_read(s, addr) == s,
        BandaiOekaKids::after_nametable_read(s, slot, addr) == s,
        BandaiOekaKids::after_nametable_write(s, slot, addr, data) == s,
        addr < 0x6000 ==> BandaiOekaKids::cpu_byte(s, addr) == 0,
        addr >= 0x2000 ==> BandaiOekaKids::ppu_byte(s, addr) == 0,
        BandaiOekaKids::after_ppu_read(s, addr) == s,
        addr >= 0x2000 ==> BandaiOekaKids::after_ppu_write(s, addr, data) == s,
        !BandaiOekaKids::irq(s),
        BandaiOekaKids::after_cpu_cycle(s) == s,
        BandaiOekaKids::nametable_source(s, slot, addr) == NametableSource::Default,
        BandaiOekaKids::nametable_target(s, slot, addr, data) == NametableWriteTarget::Default,
{
}

/// Reads leave the board as it is, a look shows what a read would, and what the board does not decode
/// it leaves to the console.
pub proof fn lemma_bnrom_is_passive(s: BnromState, addr: u16, data: u8, slot: u8, cycle: u64,
    kind: PpuFetchKind)
    ensures
        Bnrom::after_cpu_read(s, addr) == s,
        Bnrom::peeked(s, addr) == Bnrom::cpu_byte(s, addr),
        Bnrom::expansion_byte(s, addr) is None,
        Bnrom::after_expansion_read(s, addr) == s,
        Bnrom::after_nametable_read(s, slot, addr) == s,
        Bnrom::after_nametable_write(s, slot, addr, data) == s,
        addr < 0x6000 ==> Bnrom::cpu_byte(s, addr) == 0,
        addr >= 0x2000 ==> Bnrom::ppu_byte(s, addr) == 0,
        Bnrom::after_ppu_read(s, addr) == s,
        addr >= 0x2000 ==> Bnrom::after_ppu_write(s, addr, data) == s,
        !Bnrom::irq(s),
        Bnrom::after_cpu_cycle(s) == s,
        Bnrom::nametable_source(s, slot, addr) == NametableSource::Default,
        Bnrom::nametable_target(s, slot, addr, data) == NametableWriteTarget::Default,
        Bnrom::after_ppu_addr(s, addr, cycle, kind) == s,
{
}

/// Reads leave the board as it is, a look shows what a read would, and what the board does not decode
/// it leaves to the console.
pub proof fn lemma_cnrom_protect_is_passive(s: CnromProtectState, addr: u16, data: u8, slot: u8,
    cycle: u64, kind: PpuFetchKind)
    ensures
        CnromProtect::after_cpu_read(s, addr) == s,
        CnromProtect::peeked(s, addr) == CnromProtect::cpu_byte(s, addr),
        CnromProtect::expansion_byte(s, addr) is None,
        CnromProtect::after_expansion_read(s, addr) == s,
        CnromProtect::after_nametable_read(s, slot, addr) == s,
        CnromProtect::after_nametable_write(s, slot, addr, data) == s,
        addr < 0x6000 ==> CnromProtect::cpu_byte(s, addr) == 0,
        addr >= 0x2000 ==> CnromProtect::ppu_byte(s, addr) == 0,
        CnromProtect::after_ppu_read(s, addr) == s,
        addr >= 0x2000 ==> CnromProtect::after_ppu_write(s, addr, data) == s,
        !CnromProtect::irq(s),
        CnromProtect::after_cpu_cycle(s) == s,
        CnromProtect::nametable_source(s, slot, addr) == NametableSource::Default,
        CnromProtect::nametable_target(s, slot, addr, data) == NametableWriteTarget::Default,
        CnromProtect::after_ppu_addr(s, addr, cycle, kind) == s,
{
}

/// Reads leave the board as it is, a look shows what a read would, and what the board does not decode
/// it leaves to the console.
pub proof fn lemma_codemasters_bf9096_is_passive(s: CodemastersBf9096State, addr: u16, data: u8,
    slot: u8, cycle: u64, kind: PpuFetchKind)
    ensures
        CodemastersBf9096::after_cpu_read(s, addr) == s,
        CodemastersBf9096::peeked(s, addr) == CodemastersBf9096::cpu_byte(s, addr),
        CodemastersBf9096::expansion_byte(s, addr) is None,
        CodemastersBf9096::after_expansion_read(s, addr) == s,
        CodemastersBf9096::after_nametable_read(s, slot, addr) == s,
        CodemastersBf9096::after_nametable_write(s, slot, addr, data) == s,
        addr < 0x6000 ==> CodemastersBf9096::cpu_byte(s, addr) == 0,
        addr >= 0x2000 ==> CodemastersBf9096::ppu_byte(s, addr) == 0,
        CodemastersBf9096::after_ppu_read(s, addr) == s,
        addr >= 0x2000 ==> CodemastersBf9096::after_ppu_write(s, addr, data) == s,
        !CodemastersBf9096::irq(s),
        CodemastersBf9096::after_cpu_cycle(s) == s,
        CodemastersBf9096::nametable_source(s, slot, addr) == NametableSource::Default,
        CodemastersBf9096::nametable_target(s, slot, addr, data) == NametableWriteTarget::Default,
        CodemastersBf9096::after_ppu_addr(s, addr, cycle, kind) == s,
{
}

/// Reads leave the board as it is, a look shows what a read would, and what the board does not decode
/// it leaves to the console.
pub proof fn lemma_codemasters_bf909x_is_passive(s: CodemastersBf909xState, addr: u16, data: u8,
    slot: u8, cycle: u64, kind: PpuFetchKind)
    ensures
        CodemastersBf909x::after_cpu_read(s, addr) == s,
        CodemastersBf909x::peeked(s, addr) == CodemastersBf909x::cpu_byte(s, addr),
        CodemastersBf909x::expansion_byte(s, addr) is None,
        CodemastersBf909x::after_expansion_read(s, addr) == s,
        CodemastersBf909x::after_nametable_read(s, slot, addr) == s,
        CodemastersBf909x::after_nametable_write(s, slot, addr, data) == s,
        addr < 0x6000 ==> CodemastersBf909x::cpu_byte(s, addr) == 0,
        addr >= 0x2000 ==> CodemastersBf909x::ppu_byte(s, addr) == 0,
        CodemastersBf909x::after_ppu_read(s, addr) == s,
        addr >= 0x2000 ==> CodemastersBf909x::after_ppu_write(s, addr, data) == s,
        !CodemastersBf909x::irq(s),
        CodemastersBf909x::after_cpu_cycle(s) == s,
        CodemastersBf909x::nametable_source(s, slot, addr) == NametableSource::Default,
        CodemastersBf909x::nametable_target(s, slot, addr, data) == NametableWriteTarget::Default,
        CodemastersBf909x::after_ppu_addr(s, addr, cycle, kind) == s,
{
}

/// Reads leave the board as it is, a look shows what a read would, and what the board does not decode
/// it leaves to the console.
pub proof fn lemma_color_dreams_is_passive(s: ColorDreamsState, addr: u16, data: u8, slot: u8,
    cycle: u64, kind: PpuFetchKind)
    ensures
        ColorDreams::after_cpu_read(s, addr) == s,
        ColorDreams::peeked(s, addr) == ColorDreams::cpu_byte(s, addr),
        ColorDreams::expansion_byte(s, addr) is None,
        ColorDreams::after_expansion_read(s, addr) == s,
        ColorDreams::after_nametable_read(s, slot, addr) == s,
        ColorDreams::after_nametable_write(s, slot, addr, data) == s,
        addr < 0x6000 ==> ColorDreams::cpu_byte(s, addr) == 0,
        addr >= 0x2000 ==> ColorDreams::ppu_byte(s, addr) == 0,
        ColorDreams::after_ppu_read(s, addr) == s,
        addr >= 0x2000 ==> ColorDreams::after_ppu_write(s, addr, data) == s,
        !ColorDreams::irq(s),
        ColorDreams::after_cpu_cycle(s) == s,
        ColorDreams::nametable_source(s, slot, addr) == NametableSource::Default,
        ColorDreams::nametable_target(s, slot, addr, data) == NametableWriteTarget::Default,
        ColorDreams::after_ppu_addr(s, addr, cycle, kind) == s,
{
}

/// Reads leave the board as it is, a look shows what a read would, and what the board does not decode
/// it leaves to the console.
pub proof fn lemma_cprom_is_passive(s: CpromState, addr: u16, data: u8, slot: u8, cycle: u64,
    kind: PpuFetchKind)
    ensures
        Cprom::after_cpu_read(s, addr) == s,
        Cprom::peeked(s, addr) == Cprom::cpu_byte(s, addr),
        Cprom::expansion_byte(s, addr) is None,
        Cprom::after_expansion_read(s, addr) == s,
        Cprom::after_nametable_read(s, slot, addr) == s,
        Cprom::after_nametable_write(s, slot, addr, data) == s,
        addr < 0x6000 ==> Cprom::cpu_byte(s, addr) == 0,
        addr >= 0x2000 ==> Cprom::ppu_byte(s, addr) == 0,
        Cprom::after_ppu_read(s, addr) == s,
        addr >= 0x2000 ==> Cprom::after_ppu_write(s, addr, data) == s,
        !Cprom::irq(s),
        Cprom::after_cpu_cycle(s) == s,
        Cprom::nametable_source(s, slot, addr) == NametableSource::Default,
        Cprom::nametable_target(s, slot, addr, data) == NametableWriteTarget::Default,
        Cprom::after_ppu_addr(s, addr, cycle, kind) == s,
{
}

/// Reads leave the board as it is, a look shows what a read would, and what the board does not decode
/// it leaves to the console.
pub proof fn lemma_irem74x161_is_passive(s: Irem74x161State, addr: u16, data: u8, slot: u8, cycle: u64,
    kind: PpuFetchKind)
    ensures
        Irem74x161::after_cpu_read(s, addr) == s,
        Irem74x161::peeked(s, addr) == Irem74x161::cpu_byte(s, addr),
        Irem74x161::expansion_byte(s, addr) is None,
        Irem74x161::after_expansion_read(s, addr) == s,
        Irem74x161::after_nametable_read(s, slot, addr) == s,
        Irem74x161::after_nametable_write(s, slot, addr, data) == s,
        addr < 0x6000 ==> Irem74x161::cpu_byte(s, addr) == 0,
        addr >= 0x2000 ==> Irem74x161::ppu_byte(s, addr) == 0,
        Irem74x161::after_ppu_read(s, addr) == s,
        addr >= 0x2000 ==> Irem74x161::after_ppu_write(s, addr, data) == s,
        !Irem74x161::irq(s),
        Irem74x161::after_cpu_cycle(s) == s,
        Irem74x161::nametable_source(s, slot, addr) == NametableSource::Default,
        Irem74x161::nametable_target(s, slot, addr, data) == NametableWriteTarget::Default,
        Irem74x161::after_ppu_addr(s, addr, cycle, kind) == s,
{
}

/// Reads leave the board as it is, a look shows what a read would, and what the board does not decode
/// it leaves to the console.
pub proof fn lemma_irem_g101_is_passive(s: IremG101State, addr: u16, data: u8, slot: u8, cycle: u64,
    kind: PpuFetchKind)
    ensures
        IremG101::after_cpu_read(s, addr) == s,
        IremG101::peeked(s, addr) == IremG101::cpu_byte(s, addr),
        IremG101::expansion_byte(s, addr) is None,
        IremG101::after_expansion_read(s, addr) == s,
        IremG101::after_nametable_read(s, slot, addr) == s,
        IremG101::after_nametable_write(s, slot, addr, data) == s,
        addr < 0x6000 ==> IremG101::cpu_byte(s, addr) == 0,
        addr >= 0x2000 ==> IremG101::ppu_byte(s, addr) == 0,
        IremG101::after_ppu_read(s, addr) == s,
        addr >= 0x2000 ==> IremG101::after_ppu_write(s, addr, data) == s,
        !IremG101::irq(s),
        IremG101::after_cpu_cycle(s) == s,
        IremG101::nametable_source(s, slot, addr) == NametableSource::Default,
        IremG101::nametable_target(s, slot, addr, data) == NametableWriteTarget::Default,
        IremG101::after_ppu_addr(s, addr, cycle, kind) == s,
{
}

/// Reads leave the board as it is, a look shows what a read would, and what the board does not decode
/// it leaves to the console.
pub proof fn lemma_irem_h3001_is_passive(s: IremH3001State, addr: u16, data: u8, slot: u8, cycle: u64,
    kind: PpuFetchKind)
    ensures
        IremH3001::after_cpu_read(s, addr) == s,
        IremH3001::peeked(s, addr) == IremH3001::cpu_byte(s, addr),
        IremH3001::expansion_byte(s, addr) is None,
        IremH3001::after_expansion_read(s, addr) == s,
        IremH3001::after_nametable_read(s, slot, addr) == s,
        IremH3001::after_nametable_write(s, slot, addr, data) == s,
        addr < 0x6000 ==> IremH3001::cpu_byte(s, addr) == 0,
        addr >= 0x2000 ==> IremH3001::ppu_byte(s, addr) == 0,
        IremH3001::after_ppu_read(s, addr) == s,
        addr >= 0x2000 ==> IremH3001::after_ppu_write(s, addr, data) == s,
        IremH3001::nametable_source(s, slot, addr) == NametableSource::Default,
        IremH3001::nametable_target(s, slot, addr, data) == NametableWriteTarget::Default,
        IremH3001::after_ppu_addr(s, addr, cycle, kind) == s,
{
}

/// Reads leave the board as it is, a look shows what a read would, and what the board does not decode
/// it leaves to the console.
pub proof fn lemma_irem_lrog017_is_passive(s: IremLrog017State, addr: u16, data: u8, slot: u8,
    cycle: u64, kind: PpuFetchKind)
    ensures
        IremLrog017::after_cpu_read(s, addr) == s,
        IremLrog017::peeked(s, addr) == IremLrog017::cpu_byte(s, addr),
        IremLrog017::expansion_byte(s, addr) is None,
        IremLrog017::after_expansion_read(s, addr) == s,
        IremLrog017::after_nametable_read(s, slot, addr) == s,
        IremLrog017::after_nametable_write(s, slot, addr, data) == s,
        addr < 0x6000 ==> IremLrog017::cpu_byte(s, addr) == 0,
        addr >= 0x2000 ==> IremLrog017::ppu_byte(s, addr) == 0,
        IremLrog017::after_ppu_read(s, addr) == s,
        addr >= 0x2000 ==> IremLrog017::after_ppu_write(s, addr, data) == s,
        !IremLrog017::irq(s),
        IremLrog017::after_cpu_cycle(s) == s,
        IremLrog017::nametable_source(s, slot, addr) == NametableSource::Default,
        IremLrog017::nametable_target(s, slot, addr, data) == NametableWriteTarget::Default,
        IremLrog017::after_ppu_addr(s, addr, cycle, kind) == s,
{
}

/// Reads leave the board as it is, a look shows what a read would, and what the board does not decode
/// it leaves to the console.
pub proof fn lemma_irem_tam_s1_is_passive(s: IremTamS1State, addr: u16, data: u8, slot: u8, cycle: u64,
    kind: PpuFetchKind)
    ensures
        IremTamS1::after_cpu_read(s, addr) == s,
        IremTamS1::peeked(s, addr) == IremTamS1::cpu_byte(s, addr),
        IremTamS1::expansion_byte(s, addr) is None,
        IremTamS1::after_expansion_read(s, addr) == s,
        IremTamS1::after_nametable_read(s, slot, addr) == s,
        IremTamS1::after_nametable_write(s, slot, addr, data) == s,
        addr < 0x6000 ==> IremTamS1::cpu_byte(s, addr) == 0,
        addr >= 0x2000 ==> IremTamS1::ppu_byte(s, addr) == 0,
        IremTamS1::after_ppu_read(s, addr) == s,
        addr >= 0x2000 ==> IremTamS1::after_ppu_write(s, addr, data) == s,
        !IremTamS1::irq(s),
        IremTamS1::after_cpu_cycle(s) == s,
        IremTamS1::nametable_source(s, slot, addr) == NametableSource::Default,
        IremTamS1::nametable_target(s, slot, addr, data) == NametableWriteTarget::Default,
        IremTamS1::after_ppu_addr(s, addr, cycle, kind) == s,
{
}

/// Reads leave the board as it is, a look shows what a read would, and what the board does not decode
/// it leaves to the console.
pub proof fn lemma_jaleco_jf05_is_passive(s: JalecoJf05State, addr: u16, data: u8, slot: u8,
    cycle: u64, kind: PpuFetchKind)
    ensures
        JalecoJf05::after_cpu_read(s, addr) == s,
        JalecoJf05::peeked(s, addr) == JalecoJf05::cpu_byte(s, addr),
        JalecoJf05::expansion_byte(s, addr) is None,
        JalecoJf05::after_expansion_read(s, addr) == s,
        JalecoJf05::after_nametable_read(s, slot, addr) == s,
        JalecoJf05::after_nametable_write(s, slot, addr, data) == s,
        addr < 0x6000 ==> JalecoJf05::cpu_byte(s, addr) == 0,
        addr >= 0x2000 ==> JalecoJf05::ppu_byte(s, addr) == 0,
        JalecoJf05::after_ppu_read(s, addr) == s,
        addr >= 0x2000 ==> JalecoJf05::after_ppu_write(s, addr, data) == s,
        !JalecoJf05::irq(s),
        JalecoJf05::after_cpu_cycle(s) == s,
        JalecoJf05::nametable_source(s, slot, addr) == NametableSource::Default,
        JalecoJf05::nametable_target(s, slot, addr, data) == NametableWriteTarget::Default,
        JalecoJf05::after_ppu_addr(s, addr, cycle, kind) == s,
{
}

/// Reads leave the board as it is, a look shows what a read would, and what the board does not decode
/// it leaves to the console.
pub proof fn lemma_jaleco_jf11_14_is_passive(s: JalecoJf11_14State, addr: u16, data: u8, slot: u8,
    cycle: u64, kind: PpuFetchKind)
    ensures
        JalecoJf11_14::after_cpu_read(s, addr) == s,
        JalecoJf11_14::peeked(s, addr) == JalecoJf11_14::cpu_byte(s, addr),
        JalecoJf11_14::expansion_byte(s, addr) is None,
        JalecoJf11_14::after_expansion_read(s, addr) == s,
        JalecoJf11_14::after_nametable_read(s, slot, addr) == s,
        JalecoJf11_14::after_nametable_write(s, slot, addr, data) == s,
        addr < 0x6000 ==> JalecoJf11_14::cpu_byte(s, addr) == 0,
        addr >= 0x2000 ==> JalecoJf11_14::ppu_byte(s, addr) == 0,
        JalecoJf11_14::after_ppu_read(s, addr) == s,
        addr >= 0x2000 ==> JalecoJf11_14::after_ppu_write(s, addr, data) == s,
        !JalecoJf11_14::irq(s),
        JalecoJf11_14::after_cpu_cycle(s) == s,
        JalecoJf11_14::nametable_source(s, slot, addr) == NametableSource::Default,
        JalecoJf11_14::nametable_target(s, slot, addr, data) == NametableWriteTarget::Default,
        JalecoJf11_14::after_ppu_addr(s, addr, cycle, kind) == s,
{
}

/// Reads leave the board as it is, a look shows what a read would, and what the board does not decode
/// it leaves to the console.
pub proof fn lemma_jaleco_jf13_is_passive(s: JalecoJf13State, addr: u16, data: u8, slot: u8,
    cycle: u64, kind: PpuFetchKind)
    ensures
        JalecoJf13::after_cpu_read(s, addr) == s,
        JalecoJf13::peeked(s, addr) == JalecoJf13::cpu_byte(s, addr),
        JalecoJf13::expansion_byte(s, addr) is None,
        JalecoJf13::after_expansion_read(s, addr) == s,
        JalecoJf13::after_nametable_read(s, slot, addr) == s,
        JalecoJf13::after_nametable_write(s, slot, addr, data) == s,
        addr < 0x6000 ==> JalecoJf13::cpu_byte(s, addr) == 0,
        addr >= 0x2000 ==> JalecoJf13::ppu_byte(s, addr) == 0,
        JalecoJf13::after_ppu_read(s, addr) == s,
        addr >= 0x2000 ==> JalecoJf13::after_ppu_write(s, addr, data) == s,
        !JalecoJf13::irq(s),
        JalecoJf13::after_cpu_cycle(s) == s,
        JalecoJf13::nametable_source(s, slot, addr) == NametableSource::Default,
        JalecoJf13::nametable_target(s, slot, addr, data) == NametableWriteTarget::Default,
        JalecoJf13::after_ppu_addr(s, addr, cycle, kind) == s,
{
}

/// Reads leave the board as it is, a look shows what a read would, and what the board does not decode
/// it leaves to the console.
pub proof fn lemma_jaleco_jf17_is_passive(s: JalecoJf17State, addr: u16, data: u8, slot: u8,
    cycle: u64, kind: PpuFetchKind)
    ensures
        JalecoJf17::after_cpu_read(s, addr) == s,
        JalecoJf17::peeked(s, addr) == JalecoJf17::cpu_byte(s, addr),
        JalecoJf17::expansion_byte(s, addr) is None,
        JalecoJf17::after_expansion_read(s, addr) == s,
        JalecoJf17::after_nametable_read(s, slot, addr) == s,
        JalecoJf17::after_nametable_write(s, slot, addr, data) == s,
        addr < 0x6000 ==> JalecoJf17::cpu_byte(s, addr) == 0,
        addr >= 0x2000 ==> JalecoJf17::ppu_byte(s, addr) == 0,
        JalecoJf17::after_ppu_read(s, addr) == s,
        addr >= 0x2000 ==> JalecoJf17::after_ppu_write(s, addr, data) == s,
        !JalecoJf17::irq(s),
        JalecoJf17::after_cpu_cycle(s) == s,
        JalecoJf17::nametable_source(s, slot, addr) == NametableSource::Default,
        JalecoJf17::nametable_target(s, slot, addr, data) == NametableWriteTarget::Default,
        JalecoJf17::after_ppu_addr(s, addr, cycle, kind) == s,
{
}

/// Reads leave the board as it is, a look shows what a read would, and what the board does not decode
/// it leaves to the console.
pub proof fn lemma_jaleco_ss88006_is_passive(s: JalecoSs88006State, addr: u16, data: u8, slot: u8,
    cycle: u64, kind: PpuFetchKind)
    ensures
        JalecoSs88006::after_cpu_read(s, addr) == s,
        JalecoSs88006::peeked(s, addr) == JalecoSs88006::cpu_byte(s, addr),
        JalecoSs88006::expansion_byte(s, addr) is None,
        JalecoSs88006::after_expansion_read(s, addr) == s,
        JalecoSs88006::after_nametable_read(s, slot, addr) == s,
        JalecoSs88006::after_nametable_write(s, slot, addr, data) == s,
        addr < 0x6000 ==> JalecoSs88006::cpu_byte(s, addr) == 0,
        addr >= 0x2000 ==> JalecoSs88006::ppu_byte(s, addr) == 0,
        JalecoSs88006::after_ppu_read(s, addr) == s,
        addr >= 0x2000 ==> JalecoSs88006::after_ppu_write(s, addr, data) == s,
        JalecoSs88006::nametable_source(s, slot, addr) == NametableSource::Default,
        JalecoSs88006::nametable_target(s, slot, addr, data) == NametableWriteTarget::Default,
        JalecoSs88006::after_ppu_addr(s, addr, cycle, kind) == s,
{
}

/// Reads leave the board as it is, a look shows what a read would, and what the board does not decode
/// it leaves to the console.
pub proof fn lemma_mapper037_is_passive(s: Mapper037State, addr: u16, data: u8, slot: u8, cycle: u64,
    kind: PpuFetchKind)
    ensures
        Mapper037::after_cpu_read(s, addr) == s,
        Mapper037::peeked(s, addr) == Mapper037::cpu_byte(s, addr),
        Mapper037::expansion_byte(s, addr) is None,
        Mapper037::after_expansion_read(s, addr) == s,
        Mapper037::after_nametable_read(s, slot, addr) == s,
        Mapper037::after_nametable_write(s, slot, addr, data) == s,
        addr < 0x6000 ==> Mapper037::cpu_byte(s, addr) == 0,
        addr >= 0x2000 ==> Mapper037::ppu_byte(s, addr) == 0,
        Mapper037::after_ppu_read(s, addr) == s,
        addr >= 0x2000 ==> Mapper037::after_ppu_write(s, addr, data) == s,
        Mapper037::after_cpu_cycle(s) == s,
        Mapper037::nametable_source(s, slot, addr) == NametableSource::Default,
        Mapper037::nametable_target(s, slot, addr, data) == NametableWriteTarget::Default,
{
}

/// Reads leave the board as it is, a look shows what a read would, and what the board does not decode
/// it leaves to the console.
pub proof fn lemma_mapper047_is_passive(s: Mapper047State, addr: u16, data: u8, slot: u8, cycle: u64,
    kind: PpuFetchKind)
    ensures
        Mapper047::after_cpu_read(s, addr) == s,
        Mapper047::peeked(s, addr) == Mapper047::cpu_byte(s, addr),
        Mapper047::expansion_byte(s, addr) is None,
        Mapper047::after_expansion_read(s, addr) == s,
        Mapper047::after_nametable_read(s, slot, addr) == s,
        Mapper047::after_nametable_write(s, slot, addr, data) == s,
        addr < 0x6000 ==> Mapper047::cpu_byte(s, addr) == 0,
        addr >= 0x2000 ==> Mapper047::ppu_byte(s, addr) == 0,
        Mapper047::after_ppu_read(s, addr) == s,
        addr >= 0x2000 ==> Mapper047::after_ppu_write(s, addr, data) == s,
        Mapper047::after_cpu_cycle(s) == s,
        Mapper047::nametable_source(s, slot, addr) == NametableSource::Default,
        Mapper047::nametable_target(s, slot, addr, data) == NametableWriteTarget::Default,
{
}

/// Reads leave the board as it is, a look shows what a read would, and what the board does not decode
/// it leaves to the console.
pub proof fn lemma_mmc1_is_passive(s: Mmc1State, addr: u16, data: u8, slot: u8, cycle: u64,
    kind: PpuFetchKind)
    ensures
        Mmc1::after_cpu_read(s, addr) == s,
        Mmc1::peeked(s, addr) == Mmc1::cpu_byte(s, addr),
        Mmc1::expansion_byte(s, addr) is None,
        Mmc1::after_expansion_read(s, addr) == s,
        Mmc1::after_nametable_read(s, slot, addr) == s,
        Mmc1::after_nametable_write(s, slot, addr, data) == s,
        addr < 0x6000 ==> Mmc1::cpu_byte(s, addr) == 0,
        addr >= 0x2000 ==> Mmc1::ppu_byte(s, addr) == 0,
        Mmc1::after_ppu_read(s, addr) == s,
        addr >= 0x2000 ==> Mmc1::after_ppu_write(s, addr, data) == s,
        !Mmc1::irq(s),
        Mmc1::nametable_source(s, slot, addr) == NametableSource::Default,
        Mmc1::nametable_target(s, slot, addr, data) == NametableWriteTarget::Default,
        Mmc1::after_ppu_addr(s, addr, cycle, kind) == s,
{
}

/// Reads leave the board as it is, a look shows what a read would, and what the board does not decode
/// it leaves to the console.
pub proof fn lemma_mmc2_is_passive(s: Mmc2State, addr: u16, data: u8, slot: u8, cycle: u64,
    kind: PpuFetchKind)
    ensures
        Mmc2::after_cpu_read(s, addr) == s,
        Mmc2::peeked(s, addr) == Mmc2::cpu_byte(s, addr),
        Mmc2::expansion_byte(s, addr) is None,
        Mmc2::after_expansion_read(s, addr) == s,
        Mmc2::after_nametable_read(s, slot, addr) == s,
        Mmc2::after_nametable_write(s, slot, addr, data) == s,
        addr < 0x6000 ==> Mmc2::cpu_byte(s, addr) == 0,
        addr >= 0x2000 ==> Mmc2::ppu_byte(s, addr) == 0,
        !Mmc2::irq(s),
        Mmc2::after_cpu_cycle(s) == s,
        Mmc2::nametable_source(s, slot, addr) == NametableSource::Default,
        Mmc2::nametable_target(s, slot, addr, data) == NametableWriteTarget::Default,
        Mmc2::after_ppu_addr(s, addr, cycle, kind) == s,
{
}

/// Reads leave the board as it is, a look shows what a read would, and what the board does not decode
/// it leaves to the console.
pub proof fn lemma_mmc3_is_passive(s: Mmc3State, addr: u16, data: u8, slot: u8, cycle: u64,
    kind: PpuFetchKind)
    ensures
        Mmc3::after_cpu_read(s, addr) == s,
        Mmc3::peeked(s, addr) == Mmc3::cpu_byte(s, addr),
        Mmc3::expansion_byte(s, addr) is None,
        Mmc3::after_expansion_read(s, addr) == s,
        Mmc3::after_nametable_read(s, slot, addr) == s,
        Mmc3::after_nametable_write(s, slot, addr, data) == s,
        addr < 0x6000 ==> Mmc3::cpu_byte(s, addr) == 0,
        addr >= 0x2000 ==> Mmc3::ppu_byte(s, addr) == 0,
        Mmc3::after_ppu_read(s, addr) == s,
        addr >= 0x2000 ==> Mmc3::after_ppu_write(s, addr, data) == s,
        Mmc3::after_cpu_cycle(s) == s,
        Mmc3::nametable_source(s, slot, addr) == NametableSource::Default,
        Mmc3::nametable_target(s, slot, addr, data) == NametableWriteTarget::Default,
{
}

/// Reads leave the board as it is, a look shows what a read would, and what the board does not decode
/// it leaves to the console.
pub proof fn lemma_namco118_is_passive(s: Namco118State, addr: u16, data: u8, slot: u8, cycle: u64,
    kind: PpuFetchKind)
    ensures
        Namco118::after_cpu_read(s, addr) == s,
        Namco118::peeked(s, addr) == Namco118::cpu_byte(s, addr),
        Namco118::expansion_byte(s, addr) is None,
        Namco118::after_expansion_read(s, addr) == s,
        Namco118::after_nametable_read(s, slot, addr) == s,
        Namco118::after_nametable_write(s, slot, addr, data) == s,
        addr < 0x6000 ==> Namco118::cpu_byte(s, addr) == 0,
        addr >= 0x2000 ==> Namco118::ppu_byte(s, addr) == 0,
        Namco118::after_ppu_read(s, addr) == s,
        addr >= 0x2000 ==> Namco118::after_ppu_write(s, addr, data) == s,
        !Namco118::irq(s),
        Namco118::after_cpu_cycle(s) == s,
        Namco118::after_ppu_addr(s, addr, cycle, kind) == s,
{
}

/// Reads leave the board as it is, a look shows what a read would, and what the board does not decode
/// it leaves to the console.
pub proof fn lemma_mapper105_is_passive(s: Mapper105State, addr: u16, data: u8, slot: u8, cycle: u64,
    kind: PpuFetchKind)
    ensures
        Mapper105::after_cpu_read(s, addr) == s,
        Mapper105::peeked(s, addr) == Mapper105::cpu_byte(s, addr),
        Mapper105::expansion_byte(s, addr) is None,
        Mapper105::after_expansion_read(s, addr) == s,
        Mapper105::after_nametable_read(s, slot, addr) == s,
        Mapper105::after_nametable_write(s, slot, addr, data) == s,
        addr < 0x6000 ==> Mapper105::cpu_byte(s, addr) == 0,
        addr >= 0x2000 ==> Mapper105::ppu_byte(s, addr) == 0,
        Mapper105::after_ppu_read(s, addr) == s,
        addr >= 0x2000 ==> Mapper105::after_ppu_write(s, addr, data) == s,
        Mapper105::nametable_source(s, slot, addr) == NametableSource::Default,
        Mapper105::nametable_target(s, slot, addr, data) == NametableWriteTarget::Default,
        Mapper105::after_ppu_addr(s, addr, cycle, kind) == s,
{
}

/// Reads leave the board as it is, a look shows what a read would, and what the board does not decode
/// it leaves to the console.
pub proof fn lemma_nrom_is_passive(s: NromState, addr: u16, data: u8, slot: u8, cycle: u64,
    kind: PpuFetchKind)
    ensures
        Nrom::after_cpu_read(s, addr) == s,
        Nrom::peeked(s, addr) == Nrom::cpu_byte(s, addr),
        Nrom::expansion_byte(s, addr) is None,
        Nrom::after_expansion_read(s, addr) == s,
        Nrom::after_nametable_read(s, slot, addr) == s,
        Nrom::after_nametable_write(s, slot, addr, data) == s,
        addr < 0x6000 ==> Nrom::cpu_byte(s, addr) == 0,
        addr >= 0x2000 ==> Nrom::ppu_byte(s, addr) == 0,
        Nrom::after_ppu_read(s, addr) == s,
        addr >= 0x2000 ==> Nrom::after_ppu_write(s, addr, data) == s,
        !Nrom::irq(s),
        Nrom::after_cpu_cycle(s) == s,
        Nrom::nametable_source(s, slot, addr) == NametableSource::Default,
        Nrom::nametable_target(s, slot, addr, data) == NametableWriteTarget::Default,
        Nrom::after_ppu_addr(s, addr, cycle, kind) == s,
{
}

/// Reads leave the board as it is, a look shows what a read would, and what the board does not decode
/// it leaves to the console.
pub proof fn lemma_sunsoft1_is_passive(s: Sunsoft1State, addr: u16, data: u8, slot: u8, cycle: u64,
    kind: PpuFetchKind)
    ensures
        Sunsoft1::after_cpu_read(s, addr) == s,
        Sunsoft1::peeked(s, addr) == Sunsoft1::cpu_byte(s, addr),
        Sunsoft1::expansion_byte(s, addr) is None,
        Sunsoft1::after_expansion_read(s, addr) == s,
        Sunsoft1::after_nametable_read(s, slot, addr) == s,
        Sunsoft1::after_nametable_write(s, slot, addr, data) == s,
        addr < 0x6000 ==> Sunsoft1::cpu_byte(s, addr) == 0,
        addr >= 0x2000 ==> Sunsoft1::ppu_byte(s, addr) == 0,
        Sunsoft1::after_ppu_read(s, addr) == s,
        addr >= 0x2000 ==> Sunsoft1::after_ppu_write(s, addr, data) == s,
        !Sunsoft1::irq(s),
        Sunsoft1::after_cpu_cycle(s) == s,
        Sunsoft1::nametable_source(s, slot, addr) == NametableSource::Default,
        Sunsoft1::nametable_target(s, slot, addr, data) == NametableWriteTarget::Default,
        Sunsoft1::after_ppu_addr(s, addr, cycle, kind) == s,
{
}

/// Reads leave the board as it is, a look shows what a read would, and what the board does not decode
/// it leaves to the console.
pub proof fn lemma_sunsoft2_is_passive(s: Sunsoft2State, addr: u16, data: u8, slot: u8, cycle: u64,
    kind: PpuFetchKind)
    ensures
        Sunsoft2::after_cpu_read(s, addr) == s,
        Sunsoft2::peeked(s, addr) == Sunsoft2::cpu_byte(s, addr),
        Sunsoft2::expansion_byte(s, addr) is None,
        Sunsoft2::after_expansion_read(s, addr) == s,
        Sunsoft2::after_nametable_read(s, slot, addr) == s,
        Sunsoft2::after_nametable_write(s, slot, addr, data) == s,
        addr < 0x6000 ==> Sunsoft2::cpu_byte(s, addr) == 0,
        addr >= 0x2000 ==> Sunsoft2::ppu_byte(s, addr) == 0,
        Sunsoft2::after_ppu_read(s, addr) == s,
        addr >= 0x2000 ==> Sunsoft2::after_ppu_write(s, addr, data) == s,
        !Sunsoft2::irq(s),
        Sunsoft2::after_cpu_cycle(s) == s,
        Sunsoft2::nametable_source(s, slot, addr) == NametableSource::Default,
        Sunsoft2::nametable_target(s, slot, addr, data) == NametableWriteTarget::Default,
        Sunsoft2::after_ppu_addr(s, addr, cycle, kind) == s,
{
}

/// Reads leave the board as it is, a look shows what a read would, and what the board does not decode
/// it leaves to the console.
pub proof fn lemma_sunsoft3_is_passive(s: Sunsoft3State, addr: u16, data: u8, slot: u8, cycle: u64,
    kind: PpuFetchKind)
    ensures
        Sunsoft3::after_cpu_read(s, addr) == s,
        Sunsoft3::peeked(s, addr) == Sunsoft3::cpu_byte(s, addr),
        Sunsoft3::expansion_byte(s, addr) is None,
        Sunsoft3::after_expansion_read(s, addr) == s,
        Sunsoft3::after_nametable_read(s, slot, addr) == s,
        Sunsoft3::after_nametable_write(s, slot, addr, data) == s,
        addr < 0x6000 ==> Sunsoft3::cpu_byte(s, addr) == 0,
        addr >= 0x2000 ==> Sunsoft3::ppu_byte(s, addr) == 0,
        Sunsoft3::after_ppu_read(s, addr) == s,
        addr >= 0x2000 ==> Sunsoft3::after_ppu_write(s, addr, data) == s,
        Sunsoft3::nametable_source(s, slot, addr) == NametableSource::Default,
        Sunsoft3::nametable_target(s, slot, addr, data) == NametableWriteTarget::Default,
        Sunsoft3::after_ppu_addr(s, addr, cycle, kind) == s,
{
}

/// Reads leave the board as it is, a look shows what a read would, and what the board does not decode
/// it leaves to the console.
pub proof fn lemma_sunsoft4_is_passive(s: Sunsoft4State, addr: u16, data: u8, slot: u8, cycle: u64,
    kind: PpuFetchKind)
    ensures
        Sunsoft4::after_cpu_read(s, addr) == s,
        Sunsoft4::peeked(s, addr) == Sunsoft4::cpu_byte(s, addr),
        Sunsoft4::expansion_byte(s, addr) is None,
        Sunsoft4::after_expansion_read(s, addr) == s,
        Sunsoft4::after_nametable_read(s, slot, addr) == s,
        Sunsoft4::after_nametable_write(s, slot, addr, data) == s,
        addr < 0x6000 ==> Sunsoft4::cpu_byte(s, addr) == 0,
        addr >= 0x2000 ==> Sunsoft4::ppu_byte(s, addr) == 0,
        Sunsoft4::after_ppu_read(s, addr) == s,
        addr >= 0x2000 ==> Sunsoft4::after_ppu_write(s, addr, data) == s,
        !Sunsoft4::irq(s),
        Sunsoft4::after_cpu_cycle(s) == s,
        Sunsoft4::nametable_target(s, slot, addr, data) == NametableWriteTarget::Default,
        Sunsoft4::after_ppu_addr(s, addr, cycle, kind) == s,
{
}

} // verus!
