//! Pattern memory: what the PPU writes, and where it is not banked what it reads.
use vstd::prelude::*;

use crate::mapper::Mapper;
use crate::mapper::ave_nina::{AveNina, AveNinaState};
use crate::mapper::bandai_74161::{Bandai74161, Bandai74161State};
use crate::mapper::bandai_datach::{BandaiDatach, BandaiDatachState};
use crate::mapper::bandai_fcg::{BandaiFcg, BandaiFcgState};
use crate::mapper::bandai_karaoke::{BandaiKaraoke, BandaiKaraokeState};
use crate::mapper::bandai_lz93d50_sram::{BandaiLz93d50Sram, BandaiLz93d50SramState};
use crate::mapper::bnrom::{Bnrom, BnromState};
use crate::mapper::codemasters_bf9096::{CodemastersBf9096, CodemastersBf9096State};
use crate::mapper::codemasters_bf909x::{CodemastersBf909x, CodemastersBf909xState};
use crate::mapper::color_dreams::{ColorDreams, ColorDreamsState};
use crate::mapper::irem_74x161::{Irem74x161, Irem74x161State};
use crate::mapper::irem_g101::{IremG101, IremG101State};
use crate::mapper::irem_h3001::{IremH3001, IremH3001State};
use crate::mapper::irem_tam_s1::{IremTamS1, IremTamS1State};
use crate::mapper::jaleco_jf11_14::{JalecoJf11_14, JalecoJf11_14State};
use crate::mapper::jaleco_jf13::{JalecoJf13, JalecoJf13State};
use crate::mapper::jaleco_jf17::{JalecoJf17, JalecoJf17State};
use crate::mapper::jaleco_ss88006::{JalecoSs88006, JalecoSs88006State};
use crate::mapper::mmc1::{Mmc1, Mmc1State};
use crate::mapper::mmc3::{Mmc3, Mmc3State};
use crate::mapper::namco_118::{Namco118, Namco118State};
use crate::mapper::nes_event::{Mapper105, Mapper105State};
use crate::mapper::nrom::{Nrom, NromState};
use crate::mapper::sunsoft1::{Sunsoft1, Sunsoft1State};
use crate::mapper::sunsoft2::{Sunsoft2, Sunsoft2State};
use crate::mapper::sunsoft3::{Sunsoft3, Sunsoft3State};
use crate::mapper::sunsoft4::{Sunsoft4, Sunsoft4State};

verus! {

/// A PPU write to pattern RAM is read back at its address and changes one byte at most; pattern ROM
/// takes none.
pub proof fn lemma_ave_nina_patterns(s: AveNinaState, addr: u16, data: u8, i: int)
    requires
        AveNina::ok(s),
        addr < 0x2000,
        0 <= i < s.chr.len(),
        0 <= s.chr_index(addr) < s.chr.len(),
    ensures
        ({
            let t = AveNina::after_ppu_write(s, addr, data);
            &&& !s.chr_ram ==> t == s
            &&& s.chr_ram ==> AveNina::ppu_byte(t, addr) == data
            &&& t == (AveNinaState { chr: t.chr, ..s })
            &&& t.chr.len() == s.chr.len()
            &&& t.chr[i] == s.chr[i] || (t.chr[i] == data && i == s.chr_index(addr))
            &&& AveNina::ppu_byte(s, addr) == s.chr[s.chr_index(addr)]
        }),
{
}

/// A PPU write to pattern RAM is read back at its address and changes one byte at most; pattern ROM
/// takes none.
pub proof fn lemma_bandai74161_patterns(s: Bandai74161State, addr: u16, data: u8, i: int)
    requires
        Bandai74161::ok(s),
        addr < 0x2000,
        0 <= i < s.chr.len(),
        0 <= s.chr_index(addr) < s.chr.len(),
    ensures
        ({
            let t = Bandai74161::after_ppu_write(s, addr, data);
            &&& !s.chr_ram ==> t == s
            &&& s.chr_ram ==> Bandai74161::ppu_byte(t, addr) == data
            &&& t == (Bandai74161State { chr: t.chr, ..s })
            &&& t.chr.len() == s.chr.len()
            &&& t.chr[i] == s.chr[i] || (t.chr[i] == data && i == s.chr_index(addr))
            &&& Bandai74161::ppu_byte(s, addr) == s.chr[s.chr_index(addr)]
        }),
{
}

/// Pattern memory is not banked: a read gives the byte at its address, and a write to RAM changes that
/// byte and nothing else on the board.
pub proof fn lemma_bandai_datach_patterns(s: BandaiDatachState, addr: u16, data: u8)
    requires
        addr < 0x2000,
        addr < s.chr_ram.len(),
    ensures
        BandaiDatach::ppu_byte(s, addr) == s.chr_ram[addr as int],
        true ==> BandaiDatach::after_ppu_write(s, addr, data) == (BandaiDatachState {
            chr_ram: s.chr_ram.update(addr as int, data), ..s }),
{
}

/// A PPU write to pattern RAM is read back at its address and changes one byte at most; pattern ROM
/// takes none.
pub proof fn lemma_bandai_fcg_patterns(s: BandaiFcgState, addr: u16, data: u8, i: int)
    requires
        BandaiFcg::ok(s),
        addr < 0x2000,
        0 <= i < s.chr.len(),
        0 <= s.chr_index(addr) < s.chr.len(),
    ensures
        ({
            let t = BandaiFcg::after_ppu_write(s, addr, data);
            &&& !s.chr_ram ==> t == s
            &&& s.chr_ram ==> BandaiFcg::ppu_byte(t, addr) == data
            &&& t == (BandaiFcgState { chr: t.chr, ..s })
            &&& t.chr.len() == s.chr.len()
            &&& t.chr[i] == s.chr[i] || (t.chr[i] == data && i == s.chr_index(addr))
            &&& BandaiFcg::ppu_byte(s, addr) == s.chr[s.chr_index(addr)]
        }),
{
}

/// Pattern memory is not banked: a read gives the byte at its address, and a write to RAM changes that
/// byte and nothing else on the board.
pub proof fn lemma_bandai_karaoke_patterns(s: BandaiKaraokeState, addr: u16, data: u8)
    requires
        addr < 0x2000,
        addr < s.chr_ram.len(),
    ensures
        BandaiKaraoke::ppu_byte(s, addr) == s.chr_ram[addr as int],
        true ==> BandaiKaraoke::after_ppu_write(s, addr, data) == (BandaiKaraokeState {
            chr_ram: s.chr_ram.update(addr as int, data), ..s }),
{
}

/// Pattern memory is not banked: a read gives the byte at its address, and a write to RAM changes that
/// byte and nothing else on the board.
pub proof fn lemma_bandai_lz93d50_sram_patterns(s: BandaiLz93d50SramState, addr: u16, data: u8)
    requires
        addr < 0x2000,
        addr < s.chr_ram.len(),
    ensures
        BandaiLz93d50Sram::ppu_byte(s, addr) == s.chr_ram[addr as int],
        true ==> BandaiLz93d50Sram::after_ppu_write(s, addr, data) == (BandaiLz93d50SramState {
            chr_ram: s.chr_ram.update(addr as int, data), ..s }),
{
}

/// A PPU write to pattern RAM is read back at its address and changes one byte at most; pattern ROM
/// takes none.
pub proof fn lemma_bnrom_patterns(s: BnromState, addr: u16, data: u8, i: int)
    requires
        Bnrom::ok(s),
        addr < 0x2000,
        0 <= i < s.chr.len(),
        0 <= s.chr_index(addr) < s.chr.len(),
    ensures
        ({
            let t = Bnrom::after_ppu_write(s, addr, data);
            &&& !s.chr_ram ==> t == s
            &&& s.chr_ram ==> Bnrom::ppu_byte(t, addr) == data
            &&& t == (BnromState { chr: t.chr, ..s })
            &&& t.chr.len() == s.chr.len()
            &&& t.chr[i] == s.chr[i] || (t.chr[i] == data && i == s.chr_index(addr))
            &&& Bnrom::ppu_byte(s, addr) == s.chr[s.chr_index(addr)]
        }),
{
}

/// Pattern memory is not banked: a read gives the byte at its address, and a write to RAM changes that
/// byte and nothing else on the board.
pub proof fn lemma_codemasters_bf9096_patterns(s: CodemastersBf9096State, addr: u16, data: u8)
    requires
        addr < 0x2000,
        addr < s.chr.len(),
    ensures
        CodemastersBf9096::ppu_byte(s, addr) == s.chr[addr as int],
        s.chr_ram ==> CodemastersBf9096::after_ppu_write(s, addr, data) == (CodemastersBf9096State {
            chr: s.chr.update(addr as int, data), ..s }),
        !s.chr_ram ==> CodemastersBf9096::after_ppu_write(s, addr, data) == s,
{
}

/// Pattern memory is not banked: a read gives the byte at its address, and a write to RAM changes that
/// byte and nothing else on the board.
pub proof fn lemma_codemasters_bf909x_patterns(s: CodemastersBf909xState, addr: u16, data: u8)
    requires
        addr < 0x2000,
        addr < s.chr.len(),
    ensures
        CodemastersBf909x::ppu_byte(s, addr) == s.chr[addr as int],
        s.chr_ram ==> CodemastersBf909x::after_ppu_write(s, addr, data) == (CodemastersBf909xState {
            chr: s.chr.update(addr as int, data), ..s }),
        !s.chr_ram ==> CodemastersBf909x::after_ppu_write(s, addr, data) == s,
{
}

/// A PPU write to pattern RAM is read back at its address and changes one byte at most; pattern ROM
/// takes none.
pub proof fn lemma_color_dreams_patterns(s: ColorDreamsState, addr: u16, data: u8, i: int)
    requires
        ColorDreams::ok(s),
        addr < 0x2000,
        0 <= i < s.chr.len(),
        0 <= s.chr_index(addr) < s.chr.len(),
    ensures
        ({
            let t = ColorDreams::after_ppu_write(s, addr, data);
            &&& !s.chr_ram ==> t == s
            &&& s.chr_ram ==> ColorDreams::ppu_byte(t, addr) == data
            &&& t == (ColorDreamsState { chr: t.chr, ..s })
            &&& t.chr.len() == s.chr.len()
            &&& t.chr[i] == s.chr[i] || (t.chr[i] == data && i == s.chr_index(addr))
            &&& ColorDreams::ppu_byte(s, addr) == s.chr[s.chr_index(addr)]
        }),
{
}

/// A PPU write to pattern RAM is read back at its address and changes one byte at most; pattern ROM
/// takes none.
pub proof fn lemma_irem74x161_patterns(s: Irem74x161State, addr: u16, data: u8, i: int)
    requires
        Irem74x161::ok(s),
        addr < 0x2000,
        0 <= i < s.chr.len(),
        0 <= s.chr_index(addr) < s.chr.len(),
    ensures
        ({
            let t = Irem74x161::after_ppu_write(s, addr, data);
            &&& !s.chr_ram ==> t == s
            &&& s.chr_ram ==> Irem74x161::ppu_byte(t, addr) == data
            &&& t == (Irem74x161State { chr: t.chr, ..s })
            &&& t.chr.len() == s.chr.len()
            &&& t.chr[i] == s.chr[i] || (t.chr[i] == data && i == s.chr_index(addr))
            &&& Irem74x161::ppu_byte(s, addr) == s.chr[s.chr_index(addr)]
        }),
{
}

/// A PPU write to pattern RAM is read back at its address and changes one byte at most; pattern ROM
/// takes none.
pub proof fn lemma_irem_g101_patterns(s: IremG101State, addr: u16, data: u8, i: int)
    requires
        IremG101::ok(s),
        addr < 0x2000,
        0 <= i < s.chr.len(),
        0 <= s.chr_index(addr) < s.chr.len(),
    ensures
        ({
            let t = IremG101::after_ppu_write(s, addr, data);
            &&& !s.chr_ram ==> t == s
            &&& s.chr_ram ==> IremG101::ppu_byte(t, addr) == data
            &&& t == (IremG101State { chr: t.chr, ..s })
            &&& t.chr.len() == s.chr.len()
            &&& t.chr[i] == s.chr[i] || (t.chr[i] == data && i == s.chr_index(addr))
            &&& IremG101::ppu_byte(s, addr) == s.chr[s.chr_index(addr)]
        }),
{
}

/// A PPU write to pattern RAM is read back at its address and changes one byte at most; pattern ROM
/// takes none.
pub proof fn lemma_irem_h3001_patterns(s: IremH3001State, addr: u16, data: u8, i: int)
    requires
        IremH3001::ok(s),
        addr < 0x2000,
        0 <= i < s.chr.len(),
        0 <= s.chr_index(addr) < s.chr.len(),
    ensures
        ({
            let t = IremH3001::after_ppu_write(s, addr, data);
            &&& !s.chr_ram ==> t == s
            &&& s.chr_ram ==> IremH3001::ppu_byte(t, addr) == data
            &&& t == (IremH3001State { chr: t.chr, ..s })
            &&& t.chr.len() == s.chr.len()
            &&& t.chr[i] == s.chr[i] || (t.chr[i] == data && i == s.chr_index(addr))
            &&& IremH3001::ppu_byte(s, addr) == s.chr[s.chr_index(addr)]
        }),
{
}

/// Pattern memory is not banked: a read gives the byte at its address, and a write to RAM changes that
/// byte and nothing else on the board.
pub proof fn lemma_irem_tam_s1_patterns(s: IremTamS1State, addr: u16, data: u8)
    requires
        addr < 0x2000,
        addr < s.chr.len(),
    ensures
        IremTamS1::ppu_byte(s, addr) == s.chr[addr as int],
        s.chr_ram ==> IremTamS1::after_ppu_write(s, addr, data) == (IremTamS1State {
            chr: s.chr.update(addr as int, data), ..s }),
        !s.chr_ram ==> IremTamS1::after_ppu_write(s, addr, data) == s,
{
}

/// A PPU write to pattern RAM is read back at its address and changes one byte at most; pattern ROM
/// takes none.
pub proof fn lemma_jaleco_jf11_14_patterns(s: JalecoJf11_14State, addr: u16, data: u8, i: int)
    requires
        JalecoJf11_14::ok(s),
        addr < 0x2000,
        0 <= i < s.chr_rom.len(),
        0 <= s.chr_index(addr) < s.chr_rom.len(),
    ensures
        ({
            let t = JalecoJf11_14::after_ppu_write(s, addr, data);
            &&& !s.chr_ram ==> t == s
            &&& s.chr_ram ==> JalecoJf11_14::ppu_byte(t, addr) == data
            &&& t == (JalecoJf11_14State { chr_rom: t.chr_rom, ..s })
            &&& t.chr_rom.len() == s.chr_rom.len()
            &&& t.chr_rom[i] == s.chr_rom[i] || (t.chr_rom[i] == data && i == s.chr_index(addr))
            &&& JalecoJf11_14::ppu_byte(s, addr) == s.chr_rom[s.chr_index(addr)]
        }),
{
}

/// A PPU write to pattern RAM is read back at its address and changes one byte at most; pattern ROM
/// takes none.
pub proof fn lemma_jaleco_jf13_patterns(s: JalecoJf13State, addr: u16, data: u8, i: int)
    requires
        JalecoJf13::ok(s),
        addr < 0x2000,
        0 <= i < s.chr_rom.len(),
        0 <= s.chr_index(addr) < s.chr_rom.len(),
    ensures
        ({
            let t = JalecoJf13::after_ppu_write(s, addr, data);
            &&& !s.chr_ram ==> t == s
            &&& s.chr_ram ==> JalecoJf13::ppu_byte(t, addr) == data
            &&& t == (JalecoJf13State { chr_rom: t.chr_rom, ..s })
            &&& t.chr_rom.len() == s.chr_rom.len()
            &&& t.chr_rom[i] == s.chr_rom[i] || (t.chr_rom[i] == data && i == s.chr_index(addr))
            &&& JalecoJf13::ppu_byte(s, addr) == s.chr_rom[s.chr_index(addr)]
        }),
{
}

/// A PPU write to pattern RAM is read back at its address and changes one byte at most; pattern ROM
/// takes none.
pub proof fn lemma_jaleco_jf17_patterns(s: JalecoJf17State, addr: u16, data: u8, i: int)
    requires
        JalecoJf17::ok(s),
        addr < 0x2000,
        0 <= i < s.chr.len(),
        0 <= s.chr_index(addr) < s.chr.len(),
    ensures
        ({
            let t = JalecoJf17::after_ppu_write(s, addr, data);
            &&& !s.chr_ram ==> t == s
            &&& s.chr_ram ==> JalecoJf17::ppu_byte(t, addr) == data
            &&& t == (JalecoJf17State { chr: t.chr, ..s })
            &&& t.chr.len() == s.chr.len()
            &&& t.chr[i] == s.chr[i] || (t.chr[i] == data && i == s.chr_index(addr))
            &&& JalecoJf17::ppu_byte(s, addr) == s.chr[s.chr_index(addr)]
        }),
{
}

/// A PPU write to pattern RAM is read back at its address and changes one byte at most; pattern ROM
/// takes none.
pub proof fn lemma_jaleco_ss88006_patterns(s: JalecoSs88006State, addr: u16, data: u8, i: int)
    requires
        JalecoSs88006::ok(s),
        addr < 0x2000,
        0 <= i < s.chr.len(),
        0 <= s.chr_index(addr) < s.chr.len(),
    ensures
        ({
            let t = JalecoSs88006::after_ppu_write(s, addr, data);
            &&& !s.chr_ram ==> t == s
            &&& s.chr_ram ==> JalecoSs88006::ppu_byte(t, addr) == data
            &&& t == (JalecoSs88006State { chr: t.chr, ..s })
            &&& t.chr.len() == s.chr.len()
            &&& t.chr[i] == s.chr[i] || (t.chr[i] == data && i == s.chr_index(addr))
            &&& JalecoSs88006::ppu_byte(s, addr) == s.chr[s.chr_index(addr)]
        }),
{
}

/// A PPU write to pattern RAM is read back at its address and changes one byte at most; pattern ROM
/// takes none.
pub proof fn lemma_mmc1_patterns(s: Mmc1State, addr: u16, data: u8, i: int)
    requires
        Mmc1::ok(s),
        addr < 0x2000,
        0 <= i < s.chr.len(),
        0 <= s.chr_index(addr) < s.chr.len(),
    ensures
        ({
            let t = Mmc1::after_ppu_write(s, addr, data);
            &&& !s.chr_ram ==> t == s
            &&& s.chr_ram ==> Mmc1::ppu_byte(t, addr) == data
            &&& t == (Mmc1State { chr: t.chr, ..s })
            &&& t.chr.len() == s.chr.len()
            &&& t.chr[i] == s.chr[i] || (t.chr[i] == data && i == s.chr_index(addr))
            &&& Mmc1::ppu_byte(s, addr) == s.chr[s.chr_index(addr)]
        }),
{
}

/// A PPU write to pattern RAM is read back at its address and changes one byte at most; pattern ROM
/// takes none.
pub proof fn lemma_mmc3_patterns(s: Mmc3State, addr: u16, data: u8, i: int)
    requires
        Mmc3::ok(s),
        addr < 0x2000,
        0 <= i < s.chr.len(),
        0 <= s.chr_index(addr) < s.chr.len(),
    ensures
        ({
            let t = Mmc3::after_ppu_write(s, addr, data);
            &&& !s.chr_ram ==> t == s
            &&& s.chr_ram ==> Mmc3::ppu_byte(t, addr) == data
            &&& t == (Mmc3State { chr: t.chr, ..s })
            &&& t.chr.len() == s.chr.len()
            &&& t.chr[i] == s.chr[i] || (t.chr[i] == data && i == s.chr_index(addr))
            &&& Mmc3::ppu_byte(s, addr) == s.chr[s.chr_index(addr)]
        }),
{
}

/// A PPU write to pattern RAM is read back at its address and changes one byte at most; pattern ROM
/// takes none.
pub proof fn lemma_namco118_patterns(s: Namco118State, addr: u16, data: u8, i: int)
    requires
        Namco118::ok(s),
        addr < 0x2000,
        0 <= i < s.chr.len(),
        0 <= s.chr_index(addr) < s.chr.len(),
    ensures
        ({
            let t = Namco118::after_ppu_write(s, addr, data);
            &&& !s.chr_ram ==> t == s
            &&& s.chr_ram ==> Namco118::ppu_byte(t, addr) == data
            &&& t == (Namco118State { chr: t.chr, ..s })
            &&& t.chr.len() == s.chr.len()
            &&& t.chr[i] == s.chr[i] || (t.chr[i] == data && i == s.chr_index(addr))
            &&& Namco118::ppu_byte(s, addr) == s.chr[s.chr_index(addr)]
        }),
{
}

/// Pattern memory is not banked: a read gives the byte at its address, and a write to RAM changes that
/// byte and nothing else on the board.
pub proof fn lemma_mapper105_patterns(s: Mapper105State, addr: u16, data: u8)
    requires
        addr < 0x2000,
        addr < s.chr_ram.len(),
    ensures
        Mapper105::ppu_byte(s, addr) == s.chr_ram[addr as int],
        true ==> Mapper105::after_ppu_write(s, addr, data) == (Mapper105State {
            chr_ram: s.chr_ram.update(addr as int, data), ..s }),
{
}

/// Pattern memory is not banked: a read gives the byte at its address, and a write to RAM changes that
/// byte and nothing else on the board.
pub proof fn lemma_nrom_patterns(s: NromState, addr: u16, data: u8)
    requires
        addr < 0x2000,
        addr < s.chr.len(),
    ensures
        Nrom::ppu_byte(s, addr) == s.chr[addr as int],
        s.chr_ram ==> Nrom::after_ppu_write(s, addr, data) == (NromState {
            chr: s.chr.update(addr as int, data), ..s }),
        !s.chr_ram ==> Nrom::after_ppu_write(s, addr, data) == s,
{
}

/// A PPU write to pattern RAM is read back at its address and changes one byte at most; pattern ROM
/// takes none.
pub proof fn lemma_sunsoft1_patterns(s: Sunsoft1State, addr: u16, data: u8, i: int)
    requires
        Sunsoft1::ok(s),
        addr < 0x2000,
        0 <= i < s.chr.len(),
        0 <= s.chr_index(addr) < s.chr.len(),
    ensures
        ({
            let t = Sunsoft1::after_ppu_write(s, addr, data);
            &&& !s.chr_ram ==> t == s
            &&& s.chr_ram ==> Sunsoft1::ppu_byte(t, addr) == data
            &&& t == (Sunsoft1State { chr: t.chr, ..s })
            &&& t.chr.len() == s.chr.len()
            &&& t.chr[i] == s.chr[i] || (t.chr[i] == data && i == s.chr_index(addr))
            &&& Sunsoft1::ppu_byte(s, addr) == s.chr[s.chr_index(addr)]
        }),
{
}

/// A PPU write to pattern RAM is read back at its address and changes one byte at most; pattern ROM
/// takes none.
pub proof fn lemma_sunsoft2_patterns(s: Sunsoft2State, addr: u16, data: u8, i: int)
    requires
        Sunsoft2::ok(s),
        addr < 0x2000,
        0 <= i < s.chr.len(),
        0 <= s.chr_index(addr) < s.chr.len(),
    ensures
        ({
            let t = Sunsoft2::after_ppu_write(s, addr, data);
            &&& !s.chr_ram ==> t == s
            &&& s.chr_ram ==> Sunsoft2::ppu_byte(t, addr) == data
            &&& t == (Sunsoft2State { chr: t.chr, ..s })
            &&& t.chr.len() == s.chr.len()
            &&& t.chr[i] == s.chr[i] || (t.chr[i] == data && i == s.chr_index(addr))
            &&& Sunsoft2::ppu_byte(s, addr) == s.chr[s.chr_index(addr)]
        }),
{
}

/// A PPU write to pattern RAM is read back at its address and changes one byte at most; pattern ROM
/// takes none.
pub proof fn lemma_sunsoft3_patterns(s: Sunsoft3State, addr: u16, data: u8, i: int)
    requires
        Sunsoft3::ok(s),
        addr < 0x2000,
        0 <= i < s.chr.len(),
        0 <= s.chr_index(addr) < s.chr.len(),
    ensures
        ({
            let t = Sunsoft3::after_ppu_write(s, addr, data);
            &&& !s.chr_ram ==> t == s
            &&& s.chr_ram ==> Sunsoft3::ppu_byte(t, addr) == data
            &&& t == (Sunsoft3State { chr: t.chr, ..s })
            &&& t.chr.len() == s.chr.len()
            &&& t.chr[i] == s.chr[i] || (t.chr[i] == data && i == s.chr_index(addr))
            &&& Sunsoft3::ppu_byte(s, addr) == s.chr[s.chr_index(addr)]
        }),
{
}

/// A PPU write to pattern RAM is read back at its address and changes one byte at most; pattern ROM
/// takes none.
pub proof fn lemma_sunsoft4_patterns(s: Sunsoft4State, addr: u16, data: u8, i: int)
    requires
        Sunsoft4::ok(s),
        addr < 0x2000,
        0 <= i < s.chr.len(),
        0 <= s.chr_index(addr) < s.chr.len(),
    ensures
        ({
            let t = Sunsoft4::after_ppu_write(s, addr, data);
            &&& !s.chr_ram ==> t == s
            &&& s.chr_ram ==> Sunsoft4::ppu_byte(t, addr) == data
            &&& t == (Sunsoft4State { chr: t.chr, ..s })
            &&& t.chr.len() == s.chr.len()
            &&& t.chr[i] == s.chr[i] || (t.chr[i] == data && i == s.chr_index(addr))
            &&& Sunsoft4::ppu_byte(s, addr) == s.chr[s.chr_index(addr)]
        }),
{
}

} // verus!
