//! What snapshots of the boards record, and what applying one sets.
use vstd::prelude::*;

use crate::mapper::Mapper;
use crate::mapper::ave_nina::{AveNina, AveNinaState};
use crate::mapper::bandai_74161::{Bandai74161, Bandai74161State};
use crate::mapper::bandai_karaoke::{BandaiKaraoke, BandaiKaraokeState};
use crate::mapper::bandai_lz93d50_sram::{BandaiLz93d50Sram, BandaiLz93d50SramState};
use crate::mapper::bandai_oeka_kids::{BandaiOekaKids, BandaiOekaKidsState};
use crate::mapper::bnrom::{Bnrom, BnromState};
use crate::mapper::cnrom_protect::{CnromProtect, CnromProtectState};
use crate::mapper::codemasters_bf9096::{CodemastersBf9096, CodemastersBf9096State};
use crate::mapper::codemasters_bf909x::{CodemastersBf909x, CodemastersBf909xState};
use crate::mapper::color_dreams::{ColorDreams, ColorDreamsState};
use crate::mapper::cprom::{Cprom, CpromState};
use crate::mapper::irem_74x161::{Irem74x161, Irem74x161State};
use crate::mapper::irem_h3001::{IremH3001, IremH3001State};
use crate::mapper::irem_lrog017::{IremLrog017, IremLrog017State};
use crate::mapper::irem_tam_s1::{IremTamS1, IremTamS1State};
use crate::mapper::jaleco_jf05::{JalecoJf05, JalecoJf05State};
use crate::mapper::jaleco_jf11_14::{JalecoJf11_14, JalecoJf11_14State};
use crate::mapper::jaleco_jf13::{JalecoJf13, JalecoJf13State};
use crate::mapper::jaleco_jf17::{JalecoJf17, JalecoJf17State};
use crate::mapper::jaleco_ss88006::{JalecoSs88006, JalecoSs88006State};
use crate::mapper::mmc1::{Mmc1, Mmc1State};
use crate::mapper::mmc3::{Mmc3, Mmc3State};
use crate::mapper::namco_118::{Namco118, Namco118State};
use crate::mapper::nes_event::{Mapper105, Mapper105State};
use crate::mapper::sunsoft1::{Sunsoft1, Sunsoft1State};
use crate::mapper::sunsoft2::{Sunsoft2, Sunsoft2State};
use crate::mapper::sunsoft3::{Sunsoft3, Sunsoft3State};
use crate::mapper::sunsoft4::{Sunsoft4, Sunsoft4State};
use crate::rom::Mirroring;
use crate::save_state::MirroringSnap;
use crate::save_state::mapper::{AveNinaSnap, Bandai74161Snap, BandaiKaraokeSnap, BandaiLz93d50SramSnap,
    BandaiOekaKidsSnap, BnromSnap, CnromProtectSnap, CodemastersBf9096Snap, CodemastersBf909xSnap,
    ColorDreamsSnap, CpromSnap, Irem74x161Snap, IremH3001Snap, IremLrog017Snap, IremTamS1Snap,
    JalecoJf05Snap, JalecoJf11_14Snap, JalecoJf13Snap, JalecoJf17Snap, JalecoSnap, MapperState,
    Mmc1Snap, Mmc3Snap, Namco118Snap, NesEventSnap, Sunsoft1Snap, Sunsoft2Snap, Sunsoft3Snap, Sunsoft4Snap};

verus! {

/// The mirroring that a record names.
pub open spec fn named(snap: MirroringSnap) -> Mirroring {
    match snap {
        MirroringSnap::Horizontal => Mirroring::Horizontal,
        MirroringSnap::Vertical => Mirroring::Vertical,
        MirroringSnap::SingleScreenLower => Mirroring::SingleScreenLower,
        MirroringSnap::SingleScreenUpper => Mirroring::SingleScreenUpper,
        MirroringSnap::FourScreen => Mirroring::FourScreen,
    }
}

/// A snapshot records the board as it is. Applying one sets what it records, memories only where they
/// have its size; ROM stays, and a snapshot of another board is refused.
pub proof fn lemma_ave_nina_snapshot(s: AveNinaState, snap: AveNinaSnap, state: MapperState)
    ensures
        AveNina::captures(s, Some(MapperState::AveNina(snap))) ==> ({
            &&& s.chr_ram ==> snap.chr_ram_data@ == s.chr
            &&& !s.chr_ram ==> snap.chr_ram_data@.len() == 0
            &&& named(snap.mirroring) == s.mirroring
            &&& snap.reg == s.reg
        }),
        AveNina::after_apply(s, MapperState::AveNina(snap)) is Some <==> true,
        AveNina::after_apply(s, MapperState::AveNina(snap)) is Some ==> ({
            let t = AveNina::after_apply(s, MapperState::AveNina(snap))->Some_0;
            &&& s.chr_ram && snap.chr_ram_data@.len() == s.chr.len() ==> t.chr == snap.chr_ram_data@
            &&& !s.chr_ram || snap.chr_ram_data@.len() != s.chr.len() ==> t.chr == s.chr
            &&& t.mirroring == named(snap.mirroring)
            &&& t.reg == snap.reg
            &&& t.prg_rom == s.prg_rom
        }),
        state !is AveNina ==> AveNina::after_apply(s, state) is None && !AveNina::captures(s, Some(state)),
        !AveNina::captures(s, None),
{
}

/// A snapshot records the board as it is. Applying one sets what it records, memories only where they
/// have its size; ROM stays, and a snapshot of another board is refused.
pub proof fn lemma_bandai74161_snapshot(s: Bandai74161State, snap: Bandai74161Snap, state: MapperState)
    ensures
        Bandai74161::captures(s, Some(MapperState::Bandai74161(snap))) ==> ({
            &&& s.chr_ram ==> snap.chr_ram_data@ == s.chr
            &&& !s.chr_ram ==> snap.chr_ram_data@.len() == 0
            &&& snap.reg == s.reg
            &&& snap.mirroring_control == s.mirroring_control
            &&& named(snap.mirroring) == s.mirroring
        }),
        Bandai74161::after_apply(s, MapperState::Bandai74161(snap)) is Some <==> true,
        Bandai74161::after_apply(s, MapperState::Bandai74161(snap)) is Some ==> ({
            let t = Bandai74161::after_apply(s, MapperState::Bandai74161(snap))->Some_0;
            &&& s.chr_ram && snap.chr_ram_data@.len() == s.chr.len() ==> t.chr == snap.chr_ram_data@
            &&& !s.chr_ram || snap.chr_ram_data@.len() != s.chr.len() ==> t.chr == s.chr
            &&& t.reg == snap.reg
            &&& t.mirroring_control == snap.mirroring_control
            &&& t.mirroring == named(snap.mirroring)
            &&& t.prg_rom == s.prg_rom
        }),
        state !is Bandai74161 ==> Bandai74161::after_apply(s, state) is None
            && !Bandai74161::captures(s, Some(state)),
        !Bandai74161::captures(s, None),
{
}

/// A snapshot records the board as it is. Applying one sets what it records, memories only where they
/// have its size; ROM stays, and a snapshot of another board is refused.
pub proof fn lemma_bandai_karaoke_snapshot(s: BandaiKaraokeState, snap: BandaiKaraokeSnap, state: MapperState)
    ensures
        BandaiKaraoke::captures(s, Some(MapperState::BandaiKaraoke(snap))) ==> ({
            &&& snap.chr_ram_data@ == s.chr_ram
            &&& snap.reg == s.reg
            &&& named(snap.mirroring) == s.mirroring
        }),
        BandaiKaraoke::after_apply(s, MapperState::BandaiKaraoke(snap)) is Some <==> true,
        BandaiKaraoke::after_apply(s, MapperState::BandaiKaraoke(snap)) is Some ==> ({
            let t = BandaiKaraoke::after_apply(s, MapperState::BandaiKaraoke(snap))->Some_0;
            &&& snap.chr_ram_data@.len() == s.chr_ram.len() ==> t.chr_ram == snap.chr_ram_data@
            &&& snap.chr_ram_data@.len() != s.chr_ram.len() ==> t.chr_ram == s.chr_ram
            &&& t.reg == snap.reg
            &&& t.mirroring == named(snap.mirroring)
            &&& t.prg_rom == s.prg_rom
        }),
        state !is BandaiKaraoke ==> BandaiKaraoke::after_apply(s, state) is None
            && !BandaiKaraoke::captures(s, Some(state)),
        !BandaiKaraoke::captures(s, None),
{
}

/// A snapshot records the board as it is. Applying one sets what it records, memories only where they
/// have its size; ROM stays, and a snapshot of another board is refused.
pub proof fn lemma_bandai_lz93d50_sram_snapshot(s: BandaiLz93d50SramState, snap: BandaiLz93d50SramSnap,
    state: MapperState)
    ensures
        BandaiLz93d50Sram::captures(s, Some(MapperState::BandaiLz93d50Sram(snap))) ==> ({
            &&& snap.prg_ram@ == s.prg_ram
            &&& snap.chr_ram_data@ == s.chr_ram
            &&& snap.chr_regs@ == s.chr_regs
            &&& snap.prg_page == s.prg_page
            &&& snap.prg_outer == s.prg_outer
            &&& named(snap.mirroring) == s.mirroring
            &&& snap.irq_counter == s.irq_counter
            &&& snap.irq_reload == s.irq_reload
            &&& snap.irq_enabled == s.irq_enabled
            &&& snap.irq_line == s.irq_line
            &&& snap.prg_ram_enabled == s.prg_ram_enabled
            &&& snap.save_dirty == s.save_dirty
        }),
        BandaiLz93d50Sram::after_apply(s, MapperState::BandaiLz93d50Sram(snap)) is Some <==> true,
        BandaiLz93d50Sram::after_apply(s, MapperState::BandaiLz93d50Sram(snap)) is Some ==> ({
            let t = BandaiLz93d50Sram::after_apply(s, MapperState::BandaiLz93d50Sram(snap))->Some_0;
            &&& snap.prg_ram@.len() == s.prg_ram.len() ==> t.prg_ram == snap.prg_ram@
            &&& snap.prg_ram@.len() != s.prg_ram.len() ==> t.prg_ram == s.prg_ram
            &&& snap.chr_ram_data@.len() == s.chr_ram.len() ==> t.chr_ram == snap.chr_ram_data@
            &&& snap.chr_ram_data@.len() != s.chr_ram.len() ==> t.chr_ram == s.chr_ram
            &&& t.chr_regs == snap.chr_regs@
            &&& t.prg_page == snap.prg_page
            &&& t.prg_outer == snap.prg_outer
            &&& t.mirroring == named(snap.mirroring)
            &&& t.irq_counter == snap.irq_counter
            &&& t.irq_reload == snap.irq_reload
            &&& t.irq_enabled == snap.irq_enabled
            &&& t.irq_line == snap.irq_line
            &&& t.prg_ram_enabled == snap.prg_ram_enabled
            &&& t.save_dirty == snap.save_dirty
            &&& t.prg_rom == s.prg_rom
        }),
        state !is BandaiLz93d50Sram ==> BandaiLz93d50Sram::after_apply(s, state) is None
            && !BandaiLz93d50Sram::captures(s, Some(state)),
        !BandaiLz93d50Sram::captures(s, None),
{
}

/// A snapshot records the board as it is. Applying one sets what it records, memories only where they
/// have its size; ROM stays, and a snapshot of another board is refused.
pub proof fn lemma_bandai_oeka_kids_snapshot(s: BandaiOekaKidsState, snap: BandaiOekaKidsSnap,
    state: MapperState)
    ensures
        BandaiOekaKids::captures(s, Some(MapperState::BandaiOekaKids(snap))) ==> ({
            &&& snap.chr_ram@ == s.chr_ram
            &&& named(snap.mirroring) == s.mirroring
            &&& snap.reg == s.reg
            &&& snap.inner_chr == s.inner_chr
        }),
        BandaiOekaKids::after_apply(s, MapperState::BandaiOekaKids(snap)) is Some <==> true,
        BandaiOekaKids::after_apply(s, MapperState::BandaiOekaKids(snap)) is Some ==> ({
            let t = BandaiOekaKids::after_apply(s, MapperState::BandaiOekaKids(snap))->Some_0;
            &&& snap.chr_ram@.len() == s.chr_ram.len() ==> t.chr_ram == snap.chr_ram@
            &&& snap.chr_ram@.len() != s.chr_ram.len() ==> t.chr_ram == s.chr_ram
            &&& t.mirroring == named(snap.mirroring)
            &&& t.reg == snap.reg
            &&& t.inner_chr == snap.inner_chr
            &&& t.prg_rom == s.prg_rom
        }),
        state !is BandaiOekaKids ==> BandaiOekaKids::after_apply(s, state) is None
            && !BandaiOekaKids::captures(s, Some(state)),
        !BandaiOekaKids::captures(s, None),
{
}

/// A snapshot records the board as it is. Applying one sets what it records, memories only where they
/// have its size; ROM stays, and a snapshot of another board is refused.
pub proof fn lemma_bnrom_snapshot(s: BnromState, snap: BnromSnap, state: MapperState)
    ensures
        Bnrom::captures(s, Some(MapperState::Bnrom(snap))) ==> ({
            &&& snap.prg_ram@ == s.prg_ram
            &&& s.chr_ram ==> snap.chr_ram_data@ == s.chr
            &&& !s.chr_ram ==> snap.chr_ram_data@.len() == 0
            &&& snap.prg_bank == s.prg_bank
            &&& snap.chr_banks@ == s.chr_banks
            &&& snap.nina001 == (s.variant == crate::mapper::bnrom::Variant::Nina001)
            &&& snap.save_dirty == s.save_dirty
        }),
        Bnrom::after_apply(s, MapperState::Bnrom(snap)) is Some <==> snap.nina001 == (s.variant
            == crate::mapper::bnrom::Variant::Nina001),
        Bnrom::after_apply(s, MapperState::Bnrom(snap)) is Some ==> ({
            let t = Bnrom::after_apply(s, MapperState::Bnrom(snap))->Some_0;
            &&& snap.prg_ram@.len() == s.prg_ram.len() ==> t.prg_ram == snap.prg_ram@
            &&& snap.prg_ram@.len() != s.prg_ram.len() ==> t.prg_ram == s.prg_ram
            &&& s.chr_ram && snap.chr_ram_data@.len() == s.chr.len() ==> t.chr == snap.chr_ram_data@
            &&& !s.chr_ram || snap.chr_ram_data@.len() != s.chr.len() ==> t.chr == s.chr
            &&& t.prg_bank == snap.prg_bank
            &&& t.chr_banks == snap.chr_banks@
            &&& t.save_dirty == snap.save_dirty
            &&& t.prg_rom == s.prg_rom
        }),
        state !is Bnrom ==> Bnrom::after_apply(s, state) is None && !Bnrom::captures(s, Some(state)),
        !Bnrom::captures(s, None),
{
}

/// A snapshot records the board as it is. Applying one sets what it records, memories only where they
/// have its size; ROM stays, and a snapshot of another board is refused.
pub proof fn lemma_cnrom_protect_snapshot(s: CnromProtectState, snap: CnromProtectSnap, state: MapperState)
    ensures
        CnromProtect::captures(s, Some(MapperState::CnromProtect(snap))) ==> ({
            &&& snap.latch == s.latch
            &&& snap.submapper == s.submapper
        }),
        CnromProtect::after_apply(s, MapperState::CnromProtect(snap)) is Some <==> snap.submapper
            == s.submapper,
        CnromProtect::after_apply(s, MapperState::CnromProtect(snap)) is Some ==> ({
            let t = CnromProtect::after_apply(s, MapperState::CnromProtect(snap))->Some_0;
            &&& t.latch == snap.latch
            &&& t.submapper == s.submapper
            &&& t.prg_rom == s.prg_rom
        }),
        state !is CnromProtect ==> CnromProtect::after_apply(s, state) is None
            && !CnromProtect::captures(s, Some(state)),
        !CnromProtect::captures(s, None),
{
}

/// A snapshot records the board as it is. Applying one sets what it records, memories only where they
/// have its size; ROM stays, and a snapshot of another board is refused.
pub proof fn lemma_codemasters_bf9096_snapshot(s: CodemastersBf9096State, snap: CodemastersBf9096Snap,
    state: MapperState)
    ensures
        CodemastersBf9096::captures(s, Some(MapperState::CodemastersBf9096(snap))) ==> ({
            &&& s.chr_ram ==> snap.chr_ram_data@ == s.chr
            &&& !s.chr_ram ==> snap.chr_ram_data@.len() == 0
            &&& snap.prg_block == s.prg_block
            &&& snap.prg_page == s.prg_page
            &&& snap.aladdin_mode == s.aladdin_mode
        }),
        CodemastersBf9096::after_apply(s,
            MapperState::CodemastersBf9096(snap)) is Some <==> snap.aladdin_mode == s.aladdin_mode,
        CodemastersBf9096::after_apply(s, MapperState::CodemastersBf9096(snap)) is Some ==> ({
            let t = CodemastersBf9096::after_apply(s, MapperState::CodemastersBf9096(snap))->Some_0;
            &&& s.chr_ram && snap.chr_ram_data@.len() == s.chr.len() ==> t.chr == snap.chr_ram_data@
            &&& !s.chr_ram || snap.chr_ram_data@.len() != s.chr.len() ==> t.chr == s.chr
            &&& t.prg_block == snap.prg_block
            &&& t.prg_page == snap.prg_page
            &&& t.aladdin_mode == s.aladdin_mode
            &&& t.prg_rom == s.prg_rom
        }),
        state !is CodemastersBf9096 ==> CodemastersBf9096::after_apply(s, state) is None
            && !CodemastersBf9096::captures(s, Some(state)),
        !CodemastersBf9096::captures(s, None),
{
}

/// A snapshot records the board as it is. Applying one sets what it records, memories only where they
/// have its size; ROM stays, and a snapshot of another board is refused.
pub proof fn lemma_codemasters_bf909x_snapshot(s: CodemastersBf909xState, snap: CodemastersBf909xSnap,
    state: MapperState)
    ensures
        CodemastersBf909x::captures(s, Some(MapperState::CodemastersBf909x(snap))) ==> ({
            &&& s.chr_ram ==> snap.chr_ram_data@ == s.chr
            &&& !s.chr_ram ==> snap.chr_ram_data@.len() == 0
            &&& snap.prg_bank == s.prg_bank
            &&& snap.bf9097_mode == s.bf9097_mode
            &&& named(snap.mirroring) == s.mirroring
        }),
        CodemastersBf909x::after_apply(s, MapperState::CodemastersBf909x(snap)) is Some <==> true,
        CodemastersBf909x::after_apply(s, MapperState::CodemastersBf909x(snap)) is Some ==> ({
            let t = CodemastersBf909x::after_apply(s, MapperState::CodemastersBf909x(snap))->Some_0;
            &&& s.chr_ram && snap.chr_ram_data@.len() == s.chr.len() ==> t.chr == snap.chr_ram_data@
            &&& !s.chr_ram || snap.chr_ram_data@.len() != s.chr.len() ==> t.chr == s.chr
            &&& t.prg_bank == snap.prg_bank
            &&& t.bf9097_mode == snap.bf9097_mode
            &&& t.mirroring == named(snap.mirroring)
            &&& t.prg_rom == s.prg_rom
        }),
        state !is CodemastersBf909x ==> CodemastersBf909x::after_apply(s, state) is None
            && !CodemastersBf909x::captures(s, Some(state)),
        !CodemastersBf909x::captures(s, None),
{
}

/// A snapshot records the board as it is. Applying one sets what it records, memories only where they
/// have its size; ROM stays, and a snapshot of another board is refused.
pub proof fn lemma_color_dreams_snapshot(s: ColorDreamsState, snap: ColorDreamsSnap, state: MapperState)
    ensures
        ColorDreams::captures(s, Some(MapperState::ColorDreams(snap))) ==> ({
            &&& s.chr_ram ==> snap.chr_ram_data@ == s.chr
            &&& !s.chr_ram ==> snap.chr_ram_data@.len() == 0
            &&& named(snap.mirroring) == s.mirroring
            &&& snap.reg == s.reg
        }),
        ColorDreams::after_apply(s, MapperState::ColorDreams(snap)) is Some <==> true,
        ColorDreams::after_apply(s, MapperState::ColorDreams(snap)) is Some ==> ({
            let t = ColorDreams::after_apply(s, MapperState::ColorDreams(snap))->Some_0;
            &&& s.chr_ram && snap.chr_ram_data@.len() == s.chr.len() ==> t.chr == snap.chr_ram_data@
            &&& !s.chr_ram || snap.chr_ram_data@.len() != s.chr.len() ==> t.chr == s.chr
            &&& t.mirroring == named(snap.mirroring)
            &&& t.reg == snap.reg
            &&& t.prg_rom == s.prg_rom
        }),
        state !is ColorDreams ==> ColorDreams::after_apply(s, state) is None
            && !ColorDreams::captures(s, Some(state)),
        !ColorDreams::captures(s, None),
{
}

/// A snapshot records the board as it is. Applying one sets what it records, memories only where they
/// have its size; ROM stays, and a snapshot of another board is refused.
pub proof fn lemma_cprom_snapshot(s: CpromState, snap: CpromSnap, state: MapperState)
    ensures
        Cprom::captures(s, Some(MapperState::Cprom(snap))) ==> ({
            &&& snap.chr_ram_data@ == s.chr_ram
            &&& snap.upper_bank == s.upper_bank
        }),
        Cprom::after_apply(s, MapperState::Cprom(snap)) is Some <==> true,
        Cprom::after_apply(s, MapperState::Cprom(snap)) is Some ==> ({
            let t = Cprom::after_apply(s, MapperState::Cprom(snap))->Some_0;
            &&& snap.chr_ram_data@.len() == s.chr_ram.len() ==> t.chr_ram == snap.chr_ram_data@
            &&& snap.chr_ram_data@.len() != s.chr_ram.len() ==> t.chr_ram == s.chr_ram
            &&& t.upper_bank == snap.upper_bank
            &&& t.prg_rom == s.prg_rom
        }),
        state !is Cprom ==> Cprom::after_apply(s, state) is None && !Cprom::captures(s, Some(state)),
        !Cprom::captures(s, None),
{
}

/// A snapshot records the board as it is. Applying one sets what it records, memories only where they
/// have its size; ROM stays, and a snapshot of another board is refused.
pub proof fn lemma_irem74x161_snapshot(s: Irem74x161State, snap: Irem74x161Snap, state: MapperState)
    ensures
        Irem74x161::captures(s, Some(MapperState::Irem74x161(snap))) ==> ({
            &&& s.chr_ram ==> snap.chr_ram_data@ == s.chr
            &&& !s.chr_ram ==> snap.chr_ram_data@.len() == 0
            &&& snap.reg == s.reg
            &&& named(snap.mirroring) == s.mirroring
            &&& snap.holy_diver_mode == (s.mirror_mode
                == crate::mapper::irem_74x161::MirrorMode::HorizontalVertical)
        }),
        Irem74x161::after_apply(s, MapperState::Irem74x161(snap)) is Some <==> snap.holy_diver_mode
            == (s.mirror_mode == crate::mapper::irem_74x161::MirrorMode::HorizontalVertical),
        Irem74x161::after_apply(s, MapperState::Irem74x161(snap)) is Some ==> ({
            let t = Irem74x161::after_apply(s, MapperState::Irem74x161(snap))->Some_0;
            &&& s.chr_ram && snap.chr_ram_data@.len() == s.chr.len() ==> t.chr == snap.chr_ram_data@
            &&& !s.chr_ram || snap.chr_ram_data@.len() != s.chr.len() ==> t.chr == s.chr
            &&& t.reg == snap.reg
            &&& t.mirroring == named(snap.mirroring)
            &&& t.prg_rom == s.prg_rom
        }),
        state !is Irem74x161 ==> Irem74x161::after_apply(s, state) is None
            && !Irem74x161::captures(s, Some(state)),
        !Irem74x161::captures(s, None),
{
}

/// A snapshot records the board as it is. Applying one sets what it records, memories only where they
/// have its size; ROM stays, and a snapshot of another board is refused.
pub proof fn lemma_irem_h3001_snapshot(s: IremH3001State, snap: IremH3001Snap, state: MapperState)
    ensures
        IremH3001::captures(s, Some(MapperState::IremH3001(snap))) ==> ({
            &&& snap.prg_ram@ == s.prg_ram
            &&& s.chr_ram ==> snap.chr_ram_data@ == s.chr
            &&& !s.chr_ram ==> snap.chr_ram_data@.len() == 0
            &&& snap.prg_regs@ == s.prg_regs
            &&& snap.chr_regs@ == s.chr_regs
            &&& named(snap.mirroring) == s.mirroring
            &&& snap.irq_enabled == s.irq_enabled
            &&& snap.irq_counter == s.irq_counter
            &&& snap.irq_latch == s.irq_latch
            &&& snap.irq_line == s.irq_line
            &&& snap.save_dirty == s.save_dirty
        }),
        IremH3001::after_apply(s, MapperState::IremH3001(snap)) is Some <==> true,
        IremH3001::after_apply(s, MapperState::IremH3001(snap)) is Some ==> ({
            let t = IremH3001::after_apply(s, MapperState::IremH3001(snap))->Some_0;
            &&& snap.prg_ram@.len() == s.prg_ram.len() ==> t.prg_ram == snap.prg_ram@
            &&& snap.prg_ram@.len() != s.prg_ram.len() ==> t.prg_ram == s.prg_ram
            &&& s.chr_ram && snap.chr_ram_data@.len() == s.chr.len() ==> t.chr == snap.chr_ram_data@
            &&& !s.chr_ram || snap.chr_ram_data@.len() != s.chr.len() ==> t.chr == s.chr
            &&& t.prg_regs == snap.prg_regs@
            &&& t.chr_regs == snap.chr_regs@
            &&& t.mirroring == named(snap.mirroring)
            &&& t.irq_enabled == snap.irq_enabled
            &&& t.irq_counter == snap.irq_counter
            &&& t.irq_latch == snap.irq_latch
            &&& t.irq_line == snap.irq_line
            &&& t.save_dirty == snap.save_dirty
            &&& t.prg_rom == s.prg_rom
        }),
        state !is IremH3001 ==> IremH3001::after_apply(s, state) is None
            && !IremH3001::captures(s, Some(state)),
        !IremH3001::captures(s, None),
{
}

/// A snapshot records the board as it is. Applying one sets what it records, memories only where they
/// have its size; ROM stays, and a snapshot of another board is refused.
pub proof fn lemma_irem_lrog017_snapshot(s: IremLrog017State, snap: IremLrog017Snap, state: MapperState)
    ensures
        IremLrog017::captures(s, Some(MapperState::IremLrog017(snap))) ==> ({
            &&& snap.chr_ram_data@ == s.chr_ram
            &&& snap.reg == s.reg
        }),
        IremLrog017::after_apply(s, MapperState::IremLrog017(snap)) is Some <==> true,
        IremLrog017::after_apply(s, MapperState::IremLrog017(snap)) is Some ==> ({
            let t = IremLrog017::after_apply(s, MapperState::IremLrog017(snap))->Some_0;
            &&& snap.chr_ram_data@.len() == s.chr_ram.len() ==> t.chr_ram == snap.chr_ram_data@
            &&& snap.chr_ram_data@.len() != s.chr_ram.len() ==> t.chr_ram == s.chr_ram
            &&& t.reg == snap.reg
            &&& t.prg_rom == s.prg_rom
        }),
        state !is IremLrog017 ==> IremLrog017::after_apply(s, state) is None
            && !IremLrog017::captures(s, Some(state)),
        !IremLrog017::captures(s, None),
{
}

/// A snapshot records the board as it is. Applying one sets what it records, memories only where they
/// have its size; ROM stays, and a snapshot of another board is refused.
pub proof fn lemma_irem_tam_s1_snapshot(s: IremTamS1State, snap: IremTamS1Snap, state: MapperState)
    ensures
        IremTamS1::captures(s, Some(MapperState::IremTamS1(snap))) ==> ({
            &&& s.chr_ram ==> snap.chr_ram_data@ == s.chr
            &&& !s.chr_ram ==> snap.chr_ram_data@.len() == 0
            &&& snap.reg == s.reg
            &&& named(snap.mirroring) == s.mirroring
            &&& snap.four_mode == (s.mirror_mode == crate::mapper::irem_tam_s1::MirrorMode::FourMode)
        }),
        IremTamS1::after_apply(s, MapperState::IremTamS1(snap)) is Some <==> snap.four_mode
            == (s.mirror_mode == crate::mapper::irem_tam_s1::MirrorMode::FourMode),
        IremTamS1::after_apply(s, MapperState::IremTamS1(snap)) is Some ==> ({
            let t = IremTamS1::after_apply(s, MapperState::IremTamS1(snap))->Some_0;
            &&& s.chr_ram && snap.chr_ram_data@.len() == s.chr.len() ==> t.chr == snap.chr_ram_data@
            &&& !s.chr_ram || snap.chr_ram_data@.len() != s.chr.len() ==> t.chr == s.chr
            &&& t.reg == snap.reg
            &&& t.mirroring == named(snap.mirroring)
            &&& t.prg_rom == s.prg_rom
        }),
        state !is IremTamS1 ==> IremTamS1::after_apply(s, state) is None
            && !IremTamS1::captures(s, Some(state)),
        !IremTamS1::captures(s, None),
{
}

/// A snapshot records the board as it is. Applying one sets what it records, memories only where they
/// have its size; ROM stays, and a snapshot of another board is refused.
pub proof fn lemma_jaleco_jf05_snapshot(s: JalecoJf05State, snap: JalecoJf05Snap, state: MapperState)
    ensures
        JalecoJf05::captures(s, Some(MapperState::JalecoJf05(snap))) ==> ({
            &&& snap.reg == s.reg
        }),
        JalecoJf05::after_apply(s, MapperState::JalecoJf05(snap)) is Some <==> true,
        JalecoJf05::after_apply(s, MapperState::JalecoJf05(snap)) is Some ==> ({
            let t = JalecoJf05::after_apply(s, MapperState::JalecoJf05(snap))->Some_0;
            &&& t.reg == snap.reg
            &&& t.prg_rom == s.prg_rom
        }),
        state !is JalecoJf05 ==> JalecoJf05::after_apply(s, state) is None
            && !JalecoJf05::captures(s, Some(state)),
        !JalecoJf05::captures(s, None),
{
}

/// A snapshot records the board as it is. Applying one sets what it records, memories only where they
/// have its size; ROM stays, and a snapshot of another board is refused.
pub proof fn lemma_jaleco_jf11_14_snapshot(s: JalecoJf11_14State, snap: JalecoJf11_14Snap, state: MapperState)
    ensures
        JalecoJf11_14::captures(s, Some(MapperState::JalecoJf11_14(snap))) ==> ({
            &&& s.chr_ram ==> snap.chr_ram_data@ == s.chr_rom
            &&& !s.chr_ram ==> snap.chr_ram_data@.len() == 0
            &&& snap.reg == s.reg
        }),
        JalecoJf11_14::after_apply(s, MapperState::JalecoJf11_14(snap)) is Some <==> true,
        JalecoJf11_14::after_apply(s, MapperState::JalecoJf11_14(snap)) is Some ==> ({
            let t = JalecoJf11_14::after_apply(s, MapperState::JalecoJf11_14(snap))->Some_0;
            &&& s.chr_ram && snap.chr_ram_data@.len() == s.chr_rom.len() ==> t.chr_rom == snap.chr_ram_data@
            &&& !s.chr_ram || snap.chr_ram_data@.len() != s.chr_rom.len() ==> t.chr_rom == s.chr_rom
            &&& t.reg == snap.reg
            &&& t.prg_rom == s.prg_rom
        }),
        state !is JalecoJf11_14 ==> JalecoJf11_14::after_apply(s, state) is None
            && !JalecoJf11_14::captures(s, Some(state)),
        !JalecoJf11_14::captures(s, None),
{
}

/// A snapshot records the board as it is. Applying one sets what it records, memories only where they
/// have its size; ROM stays, and a snapshot of another board is refused.
pub proof fn lemma_jaleco_jf13_snapshot(s: JalecoJf13State, snap: JalecoJf13Snap, state: MapperState)
    ensures
        JalecoJf13::captures(s, Some(MapperState::JalecoJf13(snap))) ==> ({
            &&& s.chr_ram ==> snap.chr_ram_data@ == s.chr_rom
            &&& !s.chr_ram ==> snap.chr_ram_data@.len() == 0
            &&& snap.reg == s.reg
        }),
        JalecoJf13::after_apply(s, MapperState::JalecoJf13(snap)) is Some <==> true,
        JalecoJf13::after_apply(s, MapperState::JalecoJf13(snap)) is Some ==> ({
            let t = JalecoJf13::after_apply(s, MapperState::JalecoJf13(snap))->Some_0;
            &&& s.chr_ram && snap.chr_ram_data@.len() == s.chr_rom.len() ==> t.chr_rom == snap.chr_ram_data@
            &&& !s.chr_ram || snap.chr_ram_data@.len() != s.chr_rom.len() ==> t.chr_rom == s.chr_rom
            &&& t.reg == snap.reg
            &&& t.prg_rom == s.prg_rom
        }),
        state !is JalecoJf13 ==> JalecoJf13::after_apply(s, state) is None
            && !JalecoJf13::captures(s, Some(state)),
        !JalecoJf13::captures(s, None),
{
}

/// A snapshot records the board as it is. Applying one sets what it records, memories only where they
/// have its size; ROM stays, and a snapshot of another board is refused.
pub proof fn lemma_jaleco_jf17_snapshot(s: JalecoJf17State, snap: JalecoJf17Snap, state: MapperState)
    ensures
        JalecoJf17::captures(s, Some(MapperState::JalecoJf17(snap))) ==> ({
            &&& s.chr_ram ==> snap.chr_ram_data@ == s.chr
            &&& !s.chr_ram ==> snap.chr_ram_data@.len() == 0
            &&& snap.prg_bank == s.prg_bank
            &&& snap.chr_bank == s.chr_bank
            &&& snap.prev_prg_gate == s.prev_prg_gate
            &&& snap.prev_chr_gate == s.prev_chr_gate
            &&& snap.switchable_high == (s.wiring == crate::mapper::jaleco_jf17::PrgWiring::SwitchableHigh)
        }),
        JalecoJf17::after_apply(s, MapperState::JalecoJf17(snap)) is Some <==> snap.switchable_high
            == (s.wiring == crate::mapper::jaleco_jf17::PrgWiring::SwitchableHigh),
        JalecoJf17::after_apply(s, MapperState::JalecoJf17(snap)) is Some ==> ({
            let t = JalecoJf17::after_apply(s, MapperState::JalecoJf17(snap))->Some_0;
            &&& s.chr_ram && snap.chr_ram_data@.len() == s.chr.len() ==> t.chr == snap.chr_ram_data@
            &&& !s.chr_ram || snap.chr_ram_data@.len() != s.chr.len() ==> t.chr == s.chr
            &&& t.prg_bank == snap.prg_bank
            &&& t.chr_bank == snap.chr_bank
            &&& t.prev_prg_gate == snap.prev_prg_gate
            &&& t.prev_chr_gate == snap.prev_chr_gate
            &&& t.prg_rom == s.prg_rom
        }),
        state !is JalecoJf17 ==> JalecoJf17::after_apply(s, state) is None
            && !JalecoJf17::captures(s, Some(state)),
        !JalecoJf17::captures(s, None),
{
}

/// A snapshot records the board as it is. Applying one sets what it records, memories only where they
/// have its size; ROM stays, and a snapshot of another board is refused.
pub proof fn lemma_jaleco_ss88006_snapshot(s: JalecoSs88006State, snap: JalecoSnap, state: MapperState)
    ensures
        JalecoSs88006::captures(s, Some(MapperState::Jaleco(snap))) ==> ({
            &&& snap.prg_ram@ == s.prg_ram
            &&& s.chr_ram ==> snap.chr_ram_data@ == s.chr
            &&& !s.chr_ram ==> snap.chr_ram_data@.len() == 0
            &&& named(snap.mirroring) == s.mirroring
            &&& snap.prg_banks@ == s.prg_banks
            &&& snap.chr_banks@ == s.chr_banks
            &&& snap.irq_reload@ == s.irq_reload
            &&& snap.irq_counter == s.irq_counter
            &&& snap.irq_counter_size == s.irq_counter_size
            &&& snap.irq_enabled == s.irq_enabled
            &&& snap.irq_line == s.irq_line
            &&& snap.save_dirty == s.save_dirty
        }),
        JalecoSs88006::after_apply(s, MapperState::Jaleco(snap)) is Some <==> true,
        JalecoSs88006::after_apply(s, MapperState::Jaleco(snap)) is Some ==> ({
            let t = JalecoSs88006::after_apply(s, MapperState::Jaleco(snap))->Some_0;
            &&& snap.prg_ram@.len() == s.prg_ram.len() ==> t.prg_ram == snap.prg_ram@
            &&& snap.prg_ram@.len() != s.prg_ram.len() ==> t.prg_ram == s.prg_ram
            &&& s.chr_ram && snap.chr_ram_data@.len() == s.chr.len() ==> t.chr == snap.chr_ram_data@
            &&& !s.chr_ram || snap.chr_ram_data@.len() != s.chr.len() ==> t.chr == s.chr
            &&& t.mirroring == named(snap.mirroring)
            &&& t.prg_banks == snap.prg_banks@
            &&& t.chr_banks == snap.chr_banks@
            &&& t.irq_reload == snap.irq_reload@
            &&& t.irq_counter == snap.irq_counter
            &&& t.irq_counter_size == snap.irq_counter_size
            &&& t.irq_enabled == snap.irq_enabled
            &&& t.irq_line == snap.irq_line
            &&& t.save_dirty == snap.save_dirty
            &&& t.prg_rom == s.prg_rom
        }),
        state !is Jaleco ==> JalecoSs88006::after_apply(s, state) is None
            && !JalecoSs88006::captures(s, Some(state)),
        !JalecoSs88006::captures(s, None),
{
}

/// A snapshot records the board as it is. Applying one sets what it records, memories only where they
/// have its size; ROM stays, and a snapshot of another board is refused.
pub proof fn lemma_mmc1_snapshot(s: Mmc1State, snap: Mmc1Snap, state: MapperState)
    ensures
        Mmc1::captures(s, Some(MapperState::Mmc1(snap))) ==> ({
            &&& snap.prg_ram@ == s.prg_ram
            &&& s.chr_ram ==> snap.chr_ram_data@ == s.chr
            &&& !s.chr_ram ==> snap.chr_ram_data@.len() == 0
            &&& snap.shift == s.shift
            &&& snap.shift_count == s.shift_count
            &&& snap.control == s.control
            &&& snap.chr_bank_0 == s.chr_bank_0
            &&& snap.chr_bank_1 == s.chr_bank_1
            &&& snap.prg_bank == s.prg_bank
            &&& named(snap.mirroring) == s.mirroring
            &&& snap.cycle_counter == s.cycle_counter
            &&& snap.last_write_cycle == s.last_write_cycle
            &&& snap.save_dirty == s.save_dirty
        }),
        Mmc1::after_apply(s, MapperState::Mmc1(snap)) is Some <==> true,
        Mmc1::after_apply(s, MapperState::Mmc1(snap)) is Some ==> ({
            let t = Mmc1::after_apply(s, MapperState::Mmc1(snap))->Some_0;
            &&& snap.prg_ram@.len() == s.prg_ram.len() ==> t.prg_ram == snap.prg_ram@
            &&& snap.prg_ram@.len() != s.prg_ram.len() ==> t.prg_ram == s.prg_ram
            &&& s.chr_ram && snap.chr_ram_data@.len() == s.chr.len() ==> t.chr == snap.chr_ram_data@
            &&& !s.chr_ram || snap.chr_ram_data@.len() != s.chr.len() ==> t.chr == s.chr
            &&& t.shift == snap.shift
            &&& t.shift_count == snap.shift_count
            &&& t.control == snap.control
            &&& t.chr_bank_0 == snap.chr_bank_0
            &&& t.chr_bank_1 == snap.chr_bank_1
            &&& t.prg_bank == snap.prg_bank
            &&& t.mirroring == named(snap.mirroring)
            &&& t.cycle_counter == snap.cycle_counter
            &&& t.last_write_cycle == snap.last_write_cycle
            &&& t.save_dirty == snap.save_dirty
            &&& t.prg_rom == s.prg_rom
        }),
        state !is Mmc1 ==> Mmc1::after_apply(s, state) is None && !Mmc1::captures(s, Some(state)),
        !Mmc1::captures(s, None),
{
}

/// A snapshot records the board as it is. Applying one sets what it records, memories only where they
/// have its size; ROM stays, and a snapshot of another board is refused.
pub proof fn lemma_mmc3_snapshot(s: Mmc3State, snap: Mmc3Snap, state: MapperState)
    ensures
        Mmc3::captures(s, Some(MapperState::Mmc3(snap))) ==> ({
            &&& snap.prg_ram@ == s.prg_ram
            &&& s.chr_ram ==> snap.chr_ram_data@ == s.chr
            &&& !s.chr_ram ==> snap.chr_ram_data@.len() == 0
            &&& snap.bank_select == s.bank_select
            &&& snap.bank_regs@ == s.bank_regs
            &&& named(snap.mirroring) == s.mirroring
            &&& snap.prg_ram_enabled == s.prg_ram_enabled
            &&& snap.prg_ram_write_protected == s.prg_ram_write_protected
            &&& snap.irq_latch == s.irq_latch
            &&& snap.irq_counter == s.irq_counter
            &&& snap.irq_reload == s.irq_reload
            &&& snap.irq_enabled == s.irq_enabled
            &&& snap.irq_line == s.irq_line
            &&& snap.a12_low_since == s.a12_low_since
            &&& snap.reg_a001 == s.reg_a001
            &&& snap.save_dirty == s.save_dirty
        }),
        Mmc3::after_apply(s, MapperState::Mmc3(snap)) is Some <==> true,
        Mmc3::after_apply(s, MapperState::Mmc3(snap)) is Some ==> ({
            let t = Mmc3::after_apply(s, MapperState::Mmc3(snap))->Some_0;
            &&& snap.prg_ram@.len() == s.prg_ram.len() ==> t.prg_ram == snap.prg_ram@
            &&& snap.prg_ram@.len() != s.prg_ram.len() ==> t.prg_ram == s.prg_ram
            &&& s.chr_ram && snap.chr_ram_data@.len() == s.chr.len() ==> t.chr == snap.chr_ram_data@
            &&& !s.chr_ram || snap.chr_ram_data@.len() != s.chr.len() ==> t.chr == s.chr
            &&& t.bank_select == snap.bank_select
            &&& t.bank_regs == snap.bank_regs@
            &&& t.mirroring == named(snap.mirroring)
            &&& t.prg_ram_enabled == snap.prg_ram_enabled
            &&& t.prg_ram_write_protected == snap.prg_ram_write_protected
            &&& t.irq_latch == snap.irq_latch
            &&& t.irq_counter == snap.irq_counter
            &&& t.irq_reload == snap.irq_reload
            &&& t.irq_enabled == snap.irq_enabled
            &&& t.irq_line == snap.irq_line
            &&& t.a12_low_since == snap.a12_low_since
            &&& t.reg_a001 == snap.reg_a001
            &&& t.save_dirty == snap.save_dirty
            &&& t.prg_rom == s.prg_rom
        }),
        state !is Mmc3 ==> Mmc3::after_apply(s, state) is None && !Mmc3::captures(s, Some(state)),
        !Mmc3::captures(s, None),
{
}

/// A snapshot records the board as it is. Applying one sets what it records, memories only where they
/// have its size; ROM stays, and a snapshot of another board is refused.
pub proof fn lemma_namco118_snapshot(s: Namco118State, snap: Namco118Snap, state: MapperState)
    ensures
        Namco118::captures(s, Some(MapperState::Namco118(snap))) ==> ({
            &&& snap.variant == s.tag()
            &&& snap.prg_ram@ == s.prg_ram
            &&& s.chr_ram ==> snap.chr_ram_data@ == s.chr
            &&& !s.chr_ram ==> snap.chr_ram_data@.len() == 0
            &&& snap.bank_regs@ == s.bank_regs
            &&& snap.bank_select == s.bank_select
            &&& named(snap.mirroring) == s.mirroring
            &&& snap.save_dirty == s.save_dirty
        }),
        Namco118::after_apply(s, MapperState::Namco118(snap)) is Some <==> snap.variant == s.tag(),
        Namco118::after_apply(s, MapperState::Namco118(snap)) is Some ==> ({
            let t = Namco118::after_apply(s, MapperState::Namco118(snap))->Some_0;
            &&& snap.prg_ram@.len() == s.prg_ram.len() ==> t.prg_ram == snap.prg_ram@
            &&& snap.prg_ram@.len() != s.prg_ram.len() ==> t.prg_ram == s.prg_ram
            &&& s.chr_ram && snap.chr_ram_data@.len() == s.chr.len() ==> t.chr == snap.chr_ram_data@
            &&& !s.chr_ram || snap.chr_ram_data@.len() != s.chr.len() ==> t.chr == s.chr
            &&& t.bank_regs == snap.bank_regs@
            &&& t.bank_select == snap.bank_select
            &&& t.mirroring == named(snap.mirroring)
            &&& t.save_dirty == snap.save_dirty
            &&& t.prg_rom == s.prg_rom
        }),
        state !is Namco118 ==> Namco118::after_apply(s, state) is None && !Namco118::captures(s, Some(state)),
        !Namco118::captures(s, None),
{
}

/// A snapshot records the board as it is. Applying one sets what it records, memories only where they
/// have its size; ROM stays, and a snapshot of another board is refused.
pub proof fn lemma_mapper105_snapshot(s: Mapper105State, snap: NesEventSnap, state: MapperState)
    ensures
        Mapper105::captures(s, Some(MapperState::NesEvent(snap))) ==> ({
            &&& snap.chr_ram@ == s.chr_ram
            &&& snap.prg_ram@ == s.prg_ram
            &&& named(snap.mirroring) == s.mirroring
            &&& snap.shift == s.shift
            &&& snap.shift_count == s.shift_count
            &&& snap.control == s.control
            &&& snap.chr0 == s.chr0
            &&& snap.chr1 == s.chr1
            &&& snap.prg == s.prg
            &&& snap.init_state == s.init_state
            &&& snap.irq_counter == s.irq_counter
            &&& snap.irq_enabled == s.irq_enabled
            &&& snap.irq_line == s.irq_line
            &&& snap.dip == s.dip
            &&& snap.cycle_counter == s.cycle_counter
            &&& snap.last_write_cycle == s.last_write_cycle
        }),
        Mapper105::after_apply(s, MapperState::NesEvent(snap)) is Some <==> true,
        Mapper105::after_apply(s, MapperState::NesEvent(snap)) is Some ==> ({
            let t = Mapper105::after_apply(s, MapperState::NesEvent(snap))->Some_0;
            &&& snap.chr_ram@.len() == s.chr_ram.len() ==> t.chr_ram == snap.chr_ram@
            &&& snap.chr_ram@.len() != s.chr_ram.len() ==> t.chr_ram == s.chr_ram
            &&& snap.prg_ram@.len() == s.prg_ram.len() ==> t.prg_ram == snap.prg_ram@
            &&& snap.prg_ram@.len() != s.prg_ram.len() ==> t.prg_ram == s.prg_ram
            &&& t.mirroring == named(snap.mirroring)
            &&& t.shift == snap.shift
            &&& t.shift_count == snap.shift_count
            &&& t.control == snap.control
            &&& t.chr0 == snap.chr0
            &&& t.chr1 == snap.chr1
            &&& t.prg == snap.prg
            &&& t.init_state == snap.init_state
            &&& t.irq_counter == snap.irq_counter
            &&& t.irq_enabled == snap.irq_enabled
            &&& t.irq_line == snap.irq_line
            &&& t.dip == snap.dip
            &&& t.cycle_counter == snap.cycle_counter
            &&& t.last_write_cycle == snap.last_write_cycle
            &&& t.prg_rom == s.prg_rom
        }),
        state !is NesEvent ==> Mapper105::after_apply(s, state) is None
            && !Mapper105::captures(s, Some(state)),
        !Mapper105::captures(s, None),
{
}

/// A snapshot records the board as it is. Applying one sets what it records, memories only where they
/// have its size; ROM stays, and a snapshot of another board is refused.
pub proof fn lemma_sunsoft1_snapshot(s: Sunsoft1State, snap: Sunsoft1Snap, state: MapperState)
    ensures
        Sunsoft1::captures(s, Some(MapperState::Sunsoft1(snap))) ==> ({
            &&& s.chr_ram ==> snap.chr_ram_data@ == s.chr
            &&& !s.chr_ram ==> snap.chr_ram_data@.len() == 0
            &&& snap.reg == s.reg
        }),
        Sunsoft1::after_apply(s, MapperState::Sunsoft1(snap)) is Some <==> true,
        Sunsoft1::after_apply(s, MapperState::Sunsoft1(snap)) is Some ==> ({
            let t = Sunsoft1::after_apply(s, MapperState::Sunsoft1(snap))->Some_0;
            &&& s.chr_ram && snap.chr_ram_data@.len() == s.chr.len() ==> t.chr == snap.chr_ram_data@
            &&& !s.chr_ram || snap.chr_ram_data@.len() != s.chr.len() ==> t.chr == s.chr
            &&& t.reg == snap.reg
            &&& t.prg_rom == s.prg_rom
        }),
        state !is Sunsoft1 ==> Sunsoft1::after_apply(s, state) is None && !Sunsoft1::captures(s, Some(state)),
        !Sunsoft1::captures(s, None),
{
}

/// A snapshot records the board as it is. Applying one sets what it records, memories only where they
/// have its size; ROM stays, and a snapshot of another board is refused.
pub proof fn lemma_sunsoft2_snapshot(s: Sunsoft2State, snap: Sunsoft2Snap, state: MapperState)
    ensures
        Sunsoft2::captures(s, Some(MapperState::Sunsoft2(snap))) ==> ({
            &&& s.chr_ram ==> snap.chr_ram_data@ == s.chr
            &&& !s.chr_ram ==> snap.chr_ram_data@.len() == 0
            &&& snap.reg == s.reg
            &&& named(snap.mirroring) == s.mirroring
        }),
        Sunsoft2::after_apply(s, MapperState::Sunsoft2(snap)) is Some <==> true,
        Sunsoft2::after_apply(s, MapperState::Sunsoft2(snap)) is Some ==> ({
            let t = Sunsoft2::after_apply(s, MapperState::Sunsoft2(snap))->Some_0;
            &&& s.chr_ram && snap.chr_ram_data@.len() == s.chr.len() ==> t.chr == snap.chr_ram_data@
            &&& !s.chr_ram || snap.chr_ram_data@.len() != s.chr.len() ==> t.chr == s.chr
            &&& t.reg == snap.reg
            &&& t.mirroring == named(snap.mirroring)
            &&& t.prg_rom == s.prg_rom
        }),
        state !is Sunsoft2 ==> Sunsoft2::after_apply(s, state) is None && !Sunsoft2::captures(s, Some(state)),
        !Sunsoft2::captures(s, None),
{
}

/// A snapshot records the board as it is. Applying one sets what it records, memories only where they
/// have its size; ROM stays, and a snapshot of another board is refused.
pub proof fn lemma_sunsoft3_snapshot(s: Sunsoft3State, snap: Sunsoft3Snap, state: MapperState)
    ensures
        Sunsoft3::captures(s, Some(MapperState::Sunsoft3(snap))) ==> ({
            &&& snap.prg_ram@ == s.prg_ram
            &&& s.chr_ram ==> snap.chr_ram_data@ == s.chr
            &&& !s.chr_ram ==> snap.chr_ram_data@.len() == 0
            &&& snap.prg_bank == s.prg_bank
            &&& snap.chr_banks@ == s.chr_banks
            &&& named(snap.mirroring) == s.mirroring
            &&& snap.irq_toggle == s.irq_toggle
            &&& snap.irq_counter == s.irq_counter
            &&& snap.irq_enabled == s.irq_enabled
            &&& snap.irq_line == s.irq_line
            &&& snap.save_dirty == s.save_dirty
        }),
        Sunsoft3::after_apply(s, MapperState::Sunsoft3(snap)) is Some <==> true,
        Sunsoft3::after_apply(s, MapperState::Sunsoft3(snap)) is Some ==> ({
            let t = Sunsoft3::after_apply(s, MapperState::Sunsoft3(snap))->Some_0;
            &&& snap.prg_ram@.len() == s.prg_ram.len() ==> t.prg_ram == snap.prg_ram@
            &&& snap.prg_ram@.len() != s.prg_ram.len() ==> t.prg_ram == s.prg_ram
            &&& s.chr_ram && snap.chr_ram_data@.len() == s.chr.len() ==> t.chr == snap.chr_ram_data@
            &&& !s.chr_ram || snap.chr_ram_data@.len() != s.chr.len() ==> t.chr == s.chr
            &&& t.prg_bank == snap.prg_bank
            &&& t.chr_banks == snap.chr_banks@
            &&& t.mirroring == named(snap.mirroring)
            &&& t.irq_toggle == snap.irq_toggle
            &&& t.irq_counter == snap.irq_counter
            &&& t.irq_enabled == snap.irq_enabled
            &&& t.irq_line == snap.irq_line
            &&& t.save_dirty == snap.save_dirty
            &&& t.prg_rom == s.prg_rom
        }),
        state !is Sunsoft3 ==> Sunsoft3::after_apply(s, state) is None && !Sunsoft3::captures(s, Some(state)),
        !Sunsoft3::captures(s, None),
{
}

/// A snapshot records the board as it is. Applying one sets what it records, memories only where they
/// have its size; ROM stays, and a snapshot of another board is refused.
pub proof fn lemma_sunsoft4_snapshot(s: Sunsoft4State, snap: Sunsoft4Snap, state: MapperState)
    ensures
        Sunsoft4::captures(s, Some(MapperState::Sunsoft4(snap))) ==> ({
            &&& snap.prg_ram@ == s.prg_ram
            &&& s.chr_ram ==> snap.chr_ram_data@ == s.chr
            &&& !s.chr_ram ==> snap.chr_ram_data@.len() == 0
            &&& snap.prg_bank == s.prg_bank
            &&& snap.prg_ram_enabled == s.prg_ram_enabled
            &&& snap.chr_banks@ == s.chr_banks
            &&& snap.nt_regs@ == s.nt_regs
            &&& snap.use_chr_for_nametables == s.use_chr_for_nametables
            &&& named(snap.mirroring) == s.mirroring
            &&& snap.save_dirty == s.save_dirty
        }),
        Sunsoft4::after_apply(s, MapperState::Sunsoft4(snap)) is Some <==> true,
        Sunsoft4::after_apply(s, MapperState::Sunsoft4(snap)) is Some ==> ({
            let t = Sunsoft4::after_apply(s, MapperState::Sunsoft4(snap))->Some_0;
            &&& snap.prg_ram@.len() == s.prg_ram.len() ==> t.prg_ram == snap.prg_ram@
            &&& snap.prg_ram@.len() != s.prg_ram.len() ==> t.prg_ram == s.prg_ram
            &&& s.chr_ram && snap.chr_ram_data@.len() == s.chr.len() ==> t.chr == snap.chr_ram_data@
            &&& !s.chr_ram || snap.chr_ram_data@.len() != s.chr.len() ==> t.chr == s.chr
            &&& t.prg_bank == snap.prg_bank
            &&& t.prg_ram_enabled == snap.prg_ram_enabled
            &&& t.chr_banks == snap.chr_banks@
            &&& t.nt_regs == snap.nt_regs@
            &&& t.use_chr_for_nametables == snap.use_chr_for_nametables
            &&& t.mirroring == named(snap.mirroring)
            &&& t.save_dirty == snap.save_dirty
            &&& t.prg_rom == s.prg_rom
        }),
        state !is Sunsoft4 ==> Sunsoft4::after_apply(s, state) is None && !Sunsoft4::captures(s, Some(state)),
        !Sunsoft4::captures(s, None),
{
}

} // verus!
