//! Battery-backed work RAM of the boards that may have it.
use vstd::prelude::*;

use crate::mapper::Mapper;
use crate::mapper::bandai_lz93d50_sram::{BandaiLz93d50Sram, BandaiLz93d50SramState};
use crate::mapper::bnrom::{Bnrom, BnromState};
use crate::mapper::codemasters_bf909x::{CodemastersBf909x, CodemastersBf909xState};
use crate::mapper::irem_g101::{IremG101, IremG101State};
use crate::mapper::irem_h3001::{IremH3001, IremH3001State};
use crate::mapper::jaleco_ss88006::{JalecoSs88006, JalecoSs88006State};
use crate::mapper::mmc1::{Mmc1, Mmc1State};
use crate::mapper::mmc3::{Mmc3, Mmc3State};
use crate::mapper::namco_118::{Namco118, Namco118State};
use crate::mapper::nes_event::{Mapper105, Mapper105State};
use crate::mapper::nrom::{Nrom, NromState};
use crate::mapper::sunsoft3::{Sunsoft3, Sunsoft3State};
use crate::mapper::sunsoft4::{Sunsoft4, Sunsoft4State};

verus! {

/// A cart with a battery hands out its work RAM and takes back data of that length; one without hands
/// out nothing and takes nothing. Saving ends the need to save and changes nothing else.
pub proof fn lemma_bnrom_saves(s: BnromState, data: Seq<u8>)
    ensures
        s.battery ==> Bnrom::battery_bytes(s) == Some(s.prg_ram),
        !s.battery ==> Bnrom::battery_bytes(s) is None,
        s.battery && data.len() == s.prg_ram.len()
            ==> Bnrom::after_load(s, data) == (BnromState { prg_ram: data, ..s }),
        !s.battery || data.len() != s.prg_ram.len() ==> Bnrom::after_load(s, data) == s,
        Bnrom::save_due(s) == s.save_dirty,
        Bnrom::after_save(s) == (BnromState { save_dirty: false, ..s }),
{
}

/// A cart with a battery hands out its work RAM and takes back data of that length; one without hands
/// out nothing and takes nothing. Saving ends the need to save and changes nothing else.
pub proof fn lemma_irem_g101_saves(s: IremG101State, data: Seq<u8>)
    ensures
        s.battery ==> IremG101::battery_bytes(s) == Some(s.prg_ram),
        !s.battery ==> IremG101::battery_bytes(s) is None,
        s.battery && data.len() == s.prg_ram.len()
            ==> IremG101::after_load(s, data) == (IremG101State { prg_ram: data, ..s }),
        !s.battery || data.len() != s.prg_ram.len() ==> IremG101::after_load(s, data) == s,
        IremG101::save_due(s) == s.save_dirty,
        IremG101::after_save(s) == (IremG101State { save_dirty: false, ..s }),
{
}

/// A cart with a battery hands out its work RAM and takes back data of that length; one without hands
/// out nothing and takes nothing. Saving ends the need to save and changes nothing else.
pub proof fn lemma_irem_h3001_saves(s: IremH3001State, data: Seq<u8>)
    ensures
        s.battery ==> IremH3001::battery_bytes(s) == Some(s.prg_ram),
        !s.battery ==> IremH3001::battery_bytes(s) is None,
        s.battery && data.len() == s.prg_ram.len()
            ==> IremH3001::after_load(s, data) == (IremH3001State { prg_ram: data, ..s }),
        !s.battery || data.len() != s.prg_ram.len() ==> IremH3001::after_load(s, data) == s,
        IremH3001::save_due(s) == s.save_dirty,
        IremH3001::after_save(s) == (IremH3001State { save_dirty: false, ..s }),
{
}

/// A cart with a battery hands out its work RAM and takes back data of that length; one without hands
/// out nothing and takes nothing. Saving ends the need to save and changes nothing else.
pub proof fn lemma_jaleco_ss88006_saves(s: JalecoSs88006State, data: Seq<u8>)
    ensures
        s.battery ==> JalecoSs88006::battery_bytes(s) == Some(s.prg_ram),
        !s.battery ==> JalecoSs88006::battery_bytes(s) is None,
        s.battery && data.len() == s.prg_ram.len()
            ==> JalecoSs88006::after_load(s, data) == (JalecoSs88006State { prg_ram: data, ..s }),
        !s.battery || data.len() != s.prg_ram.len() ==> JalecoSs88006::after_load(s, data) == s,
        JalecoSs88006::save_due(s) == s.save_dirty,
        JalecoSs88006::after_save(s) == (JalecoSs88006State { save_dirty: false, ..s }),
{
}

/// A cart with a battery hands out its work RAM and takes back data of that length; one without hands
/// out nothing and takes nothing. Saving ends the need to save and changes nothing else.
pub proof fn lemma_mmc1_saves(s: Mmc1State, data: Seq<u8>)
    ensures
        s.battery ==> Mmc1::battery_bytes(s) == Some(s.prg_ram),
        !s.battery ==> Mmc1::battery_bytes(s) is None,
        s.battery && data.len() == s.prg_ram.len()
            ==> Mmc1::after_load(s, data) == (Mmc1State { prg_ram: data, ..s }),
        !s.battery || data.len() != s.prg_ram.len() ==> Mmc1::after_load(s, data) == s,
        Mmc1::save_due(s) == s.save_dirty,
        Mmc1::after_save(s) == (Mmc1State { save_dirty: false, ..s }),
{
}

/// A cart with a battery hands out its work RAM and takes back data of that length; one without hands
/// out nothing and takes nothing. Saving ends the need to save and changes nothing else.
pub proof fn lemma_mmc3_saves(s: Mmc3State, data: Seq<u8>)
    ensures
        s.battery ==> Mmc3::battery_bytes(s) == Some(s.prg_ram),
        !s.battery ==> Mmc3::battery_bytes(s) is None,
        s.battery && data.len() == s.prg_ram.len()
            ==> Mmc3::after_load(s, data) == (Mmc3State { prg_ram: data, ..s }),
        !s.battery || data.len() != s.prg_ram.len() ==> Mmc3::after_load(s, data) == s,
        Mmc3::save_due(s) == s.save_dirty,
        Mmc3::after_save(s) == (Mmc3State { save_dirty: false, ..s }),
{
}

/// A cart with a battery hands out its work RAM and takes back data of that length; one without hands
/// out nothing and takes nothing. Saving ends the need to save and changes nothing else.
pub proof fn lemma_namco118_saves(s: Namco118State, data: Seq<u8>)
    ensures
        s.battery ==> Namco118::battery_bytes(s) == Some(s.prg_ram),
        !s.battery ==> Namco118::battery_bytes(s) is None,
        s.battery && data.len() == s.prg_ram.len()
            ==> Namco118::after_load(s, data) == (Namco118State { prg_ram: data, ..s }),
        !s.battery || data.len() != s.prg_ram.len() ==> Namco118::after_load(s, data) == s,
        Namco118::save_due(s) == s.save_dirty,
        Namco118::after_save(s) == (Namco118State { save_dirty: false, ..s }),
{
}

/// A cart with a battery hands out its work RAM and takes back data of that length; one without hands
/// out nothing and takes nothing. Saving ends the need to save and changes nothing else.
pub proof fn lemma_nrom_saves(s: NromState, data: Seq<u8>)
    ensures
        s.battery ==> Nrom::battery_bytes(s) == Some(s.prg_ram),
        !s.battery ==> Nrom::battery_bytes(s) is None,
        s.battery && data.len() == s.prg_ram.len()
            ==> Nrom::after_load(s, data) == (NromState { prg_ram: data, ..s }),
        !s.battery || data.len() != s.prg_ram.len() ==> Nrom::after_load(s, data) == s,
        Nrom::save_due(s) == s.save_dirty,
        Nrom::after_save(s) == (NromState { save_dirty: false, ..s }),
{
}

/// A cart with a battery hands out its work RAM and takes back data of that length; one without hands
/// out nothing and takes nothing. Saving ends the need to save and changes nothing else.
pub proof fn lemma_sunsoft3_saves(s: Sunsoft3State, data: Seq<u8>)
    ensures
        s.battery ==> Sunsoft3::battery_bytes(s) == Some(s.prg_ram),
        !s.battery ==> Sunsoft3::battery_bytes(s) is None,
        s.battery && data.len() == s.prg_ram.len()
            ==> Sunsoft3::after_load(s, data) == (Sunsoft3State { prg_ram: data, ..s }),
        !s.battery || data.len() != s.prg_ram.len() ==> Sunsoft3::after_load(s, data) == s,
        Sunsoft3::save_due(s) == s.save_dirty,
        Sunsoft3::after_save(s) == (Sunsoft3State { save_dirty: false, ..s }),
{
}

/// A cart with a battery hands out its work RAM and takes back data of that length; one without hands
/// out nothing and takes nothing. Saving ends the need to save and changes nothing else.
pub proof fn lemma_sunsoft4_saves(s: Sunsoft4State, data: Seq<u8>)
    ensures
        s.battery ==> Sunsoft4::battery_bytes(s) == Some(s.prg_ram),
        !s.battery ==> Sunsoft4::battery_bytes(s) is None,
        s.battery && data.len() == s.prg_ram.len()
            ==> Sunsoft4::after_load(s, data) == (Sunsoft4State { prg_ram: data, ..s }),
        !s.battery || data.len() != s.prg_ram.len() ==> Sunsoft4::after_load(s, data) == s,
        Sunsoft4::save_due(s) == s.save_dirty,
        Sunsoft4::after_save(s) == (Sunsoft4State { save_dirty: false, ..s }),
{
}

/// Work RAM holds at each address what was last stored there, and a store touches no other byte and
/// nothing else on the board.
pub proof fn lemma_bandai_lz93d50_sram_ram(s: BandaiLz93d50SramState, addr: u16, data: u8, other: u16)
    requires
        0x6000 <= addr < 0x8000,
        0x6000 <= other < 0x8000,
        s.prg_ram.len() >= 0x2000,
        s.prg_ram_enabled,
    ensures
        ({
            let t = BandaiLz93d50Sram::after_cpu_write(s, addr, data);
            &&& BandaiLz93d50Sram::cpu_byte(s, addr) == s.prg_ram[addr - 0x6000]
            &&& BandaiLz93d50Sram::cpu_byte(t, addr) == data
            &&& other != addr ==> BandaiLz93d50Sram::cpu_byte(t, other)
                == BandaiLz93d50Sram::cpu_byte(s, other)
            &&& t == (BandaiLz93d50SramState { prg_ram: s.prg_ram.update(addr - 0x6000, data),
                save_dirty: t.save_dirty, ..s })
            &&& t.save_dirty == (s.save_dirty || (true && s.prg_ram[addr - 0x6000] != data))
        }),
{
}

/// Work RAM holds at each address what was last stored there, and a store touches no other byte and
/// nothing else on the board.
pub proof fn lemma_bnrom_ram(s: BnromState, addr: u16, data: u8, other: u16)
    requires
        0x6000 <= addr < 0x8000,
        0x6000 <= other < 0x8000,
        s.prg_ram.len() >= 0x2000,
        addr < 0x7FFD || s.variant == crate::mapper::bnrom::Variant::Bnrom,
    ensures
        ({
            let t = Bnrom::after_cpu_write(s, addr, data);
            &&& Bnrom::cpu_byte(s, addr) == s.prg_ram[addr - 0x6000]
            &&& Bnrom::cpu_byte(t, addr) == data
            &&& other != addr ==> Bnrom::cpu_byte(t, other) == Bnrom::cpu_byte(s, other)
            &&& t == (BnromState { prg_ram: s.prg_ram.update(addr - 0x6000, data),
                save_dirty: t.save_dirty, ..s })
            &&& t.save_dirty == (s.save_dirty || (s.battery && s.prg_ram[addr - 0x6000] != data))
        }),
{
}

/// Work RAM holds at each address what was last stored there, and a store touches no other byte and
/// nothing else on the board.
pub proof fn lemma_codemasters_bf909x_ram(s: CodemastersBf909xState, addr: u16, data: u8, other: u16)
    requires
        0x6000 <= addr < 0x8000,
        0x6000 <= other < 0x8000,
        s.prg_ram.len() >= 0x2000,
    ensures
        ({
            let t = CodemastersBf909x::after_cpu_write(s, addr, data);
            &&& CodemastersBf909x::cpu_byte(s, addr) == s.prg_ram[addr - 0x6000]
            &&& CodemastersBf909x::cpu_byte(t, addr) == data
            &&& other != addr ==> CodemastersBf909x::cpu_byte(t, other)
                == CodemastersBf909x::cpu_byte(s, other)
            &&& t == (CodemastersBf909xState { prg_ram: s.prg_ram.update(addr - 0x6000, data), ..s })
        }),
{
}

/// Work RAM holds at each address what was last stored there, and a store touches no other byte and
/// nothing else on the board.
pub proof fn lemma_irem_g101_ram(s: IremG101State, addr: u16, data: u8, other: u16)
    requires
        0x6000 <= addr < 0x8000,
        0x6000 <= other < 0x8000,
        s.prg_ram.len() >= 0x2000,
    ensures
        ({
            let t = IremG101::after_cpu_write(s, addr, data);
            &&& IremG101::cpu_byte(s, addr) == s.prg_ram[addr - 0x6000]
            &&& IremG101::cpu_byte(t, addr) == data
            &&& other != addr ==> IremG101::cpu_byte(t, other) == IremG101::cpu_byte(s, other)
            &&& t == (IremG101State { prg_ram: s.prg_ram.update(addr - 0x6000, data),
                save_dirty: t.save_dirty, ..s })
            &&& t.save_dirty == (s.save_dirty || (s.battery && s.prg_ram[addr - 0x6000] != data))
        }),
{
}

/// Work RAM holds at each address what was last stored there, and a store touches no other byte and
/// nothing else on the board.
pub proof fn lemma_irem_h3001_ram(s: IremH3001State, addr: u16, data: u8, other: u16)
    requires
        0x6000 <= addr < 0x8000,
        0x6000 <= other < 0x8000,
        s.prg_ram.len() >= 0x2000,
    ensures
        ({
            let t = IremH3001::after_cpu_write(s, addr, data);
            &&& IremH3001::cpu_byte(s, addr) == s.prg_ram[addr - 0x6000]
            &&& IremH3001::cpu_byte(t, addr) == data
            &&& other != addr ==> IremH3001::cpu_byte(t, other) == IremH3001::cpu_byte(s, other)
            &&& t == (IremH3001State { prg_ram: s.prg_ram.update(addr - 0x6000, data),
                save_dirty: t.save_dirty, ..s })
            &&& t.save_dirty == (s.save_dirty || (s.battery && s.prg_ram[addr - 0x6000] != data))
        }),
{
}

/// Work RAM holds at each address what was last stored there, and a store touches no other byte and
/// nothing else on the board.
pub proof fn lemma_jaleco_ss88006_ram(s: JalecoSs88006State, addr: u16, data: u8, other: u16)
    requires
        0x6000 <= addr < 0x8000,
        0x6000 <= other < 0x8000,
        s.prg_ram.len() >= 0x2000,
    ensures
        ({
            let t = JalecoSs88006::after_cpu_write(s, addr, data);
            &&& JalecoSs88006::cpu_byte(s, addr) == s.prg_ram[addr - 0x6000]
            &&& JalecoSs88006::cpu_byte(t, addr) == data
            &&& other != addr ==> JalecoSs88006::cpu_byte(t, other) == JalecoSs88006::cpu_byte(s, other)
            &&& t == (JalecoSs88006State { prg_ram: s.prg_ram.update(addr - 0x6000, data),
                save_dirty: t.save_dirty, ..s })
            &&& t.save_dirty == (s.save_dirty || (s.battery && s.prg_ram[addr - 0x6000] != data))
        }),
{
}

/// Work RAM holds at each address what was last stored there, and a store touches no other byte and
/// nothing else on the board.
pub proof fn lemma_mmc1_ram(s: Mmc1State, addr: u16, data: u8, other: u16)
    requires
        0x6000 <= addr < 0x8000,
        0x6000 <= other < 0x8000,
        s.prg_ram.len() >= 0x2000,
    ensures
        ({
            let t = Mmc1::after_cpu_write(s, addr, data);
            &&& Mmc1::cpu_byte(s, addr) == s.prg_ram[addr - 0x6000]
            &&& Mmc1::cpu_byte(t, addr) == data
            &&& other != addr ==> Mmc1::cpu_byte(t, other) == Mmc1::cpu_byte(s, other)
            &&& t == (Mmc1State { prg_ram: s.prg_ram.update(addr - 0x6000, data),
                save_dirty: t.save_dirty, ..s })
            &&& t.save_dirty == (s.save_dirty || (s.battery && s.prg_ram[addr - 0x6000] != data))
        }),
{
}

/// Work RAM holds at each address what was last stored there, and a store touches no other byte and
/// nothing else on the board.
pub proof fn lemma_mmc3_ram(s: Mmc3State, addr: u16, data: u8, other: u16)
    requires
        0x6000 <= addr < 0x8000,
        0x6000 <= other < 0x8000,
        s.prg_ram.len() >= 0x2000,
        s.prg_ram_enabled,
        !s.prg_ram_write_protected,
    ensures
        ({
            let t = Mmc3::after_cpu_write(s, addr, data);
            &&& Mmc3::cpu_byte(s, addr) == s.prg_ram[addr - 0x6000]
            &&& Mmc3::cpu_byte(t, addr) == data
            &&& other != addr ==> Mmc3::cpu_byte(t, other) == Mmc3::cpu_byte(s, other)
            &&& t == (Mmc3State { prg_ram: s.prg_ram.update(addr - 0x6000, data),
                save_dirty: t.save_dirty, ..s })
            &&& t.save_dirty == (s.save_dirty || (s.battery && s.prg_ram[addr - 0x6000] != data))
        }),
{
}

/// Work RAM holds at each address what was last stored there, and a store touches no other byte and
/// nothing else on the board.
pub proof fn lemma_namco118_ram(s: Namco118State, addr: u16, data: u8, other: u16)
    requires
        0x6000 <= addr < 0x8000,
        0x6000 <= other < 0x8000,
        s.prg_ram.len() >= 0x2000,
    ensures
        ({
            let t = Namco118::after_cpu_write(s, addr, data);
            &&& Namco118::cpu_byte(s, addr) == s.prg_ram[addr - 0x6000]
            &&& Namco118::cpu_byte(t, addr) == data
            &&& other != addr ==> Namco118::cpu_byte(t, other) == Namco118::cpu_byte(s, other)
            &&& t == (Namco118State { prg_ram: s.prg_ram.update(addr - 0x6000, data),
                save_dirty: t.save_dirty, ..s })
            &&& t.save_dirty == (s.save_dirty || (s.battery && s.prg_ram[addr - 0x6000] != data))
        }),
{
}

/// Work RAM holds at each address what was last stored there, and a store touches no other byte and
/// nothing else on the board.
pub proof fn lemma_mapper105_ram(s: Mapper105State, addr: u16, data: u8, other: u16)
    requires
        0x6000 <= addr < 0x8000,
        0x6000 <= other < 0x8000,
        s.prg_ram.len() >= 0x2000,
    ensures
        ({
            let t = Mapper105::after_cpu_write(s, addr, data);
            &&& Mapper105::cpu_byte(s, addr) == s.prg_ram[addr - 0x6000]
            &&& Mapper105::cpu_byte(t, addr) == data
            &&& other != addr ==> Mapper105::cpu_byte(t, other) == Mapper105::cpu_byte(s, other)
            &&& t == (Mapper105State { prg_ram: s.prg_ram.update(addr - 0x6000, data), ..s })
        }),
{
}

/// Work RAM holds at each address what was last stored there, and a store touches no other byte and
/// nothing else on the board.
pub proof fn lemma_nrom_ram(s: NromState, addr: u16, data: u8, other: u16)
    requires
        0x6000 <= addr < 0x8000,
        0x6000 <= other < 0x8000,
        s.prg_ram.len() >= 0x2000,
    ensures
        ({
            let t = Nrom::after_cpu_write(s, addr, data);
            &&& Nrom::cpu_byte(s, addr) == s.prg_ram[addr - 0x6000]
            &&& Nrom::cpu_byte(t, addr) == data
            &&& other != addr ==> Nrom::cpu_byte(t, other) == Nrom::cpu_byte(s, other)
            &&& t == (NromState { prg_ram: s.prg_ram.update(addr - 0x6000, data),
                save_dirty: t.save_dirty, ..s })
            &&& t.save_dirty == (s.save_dirty || (s.battery && s.prg_ram[addr - 0x6000] != data))
        }),
{
}

/// Work RAM holds at each address what was last stored there, and a store touches no other byte and
/// nothing else on the board.
pub proof fn lemma_sunsoft3_ram(s: Sunsoft3State, addr: u16, data: u8, other: u16)
    requires
        0x6000 <= addr < 0x8000,
        0x6000 <= other < 0x8000,
        s.prg_ram.len() >= 0x2000,
    ensures
        ({
            let t = Sunsoft3::after_cpu_write(s, addr, data);
            &&& Sunsoft3::cpu_byte(s, addr) == s.prg_ram[addr - 0x6000]
            &&& Sunsoft3::cpu_byte(t, addr) == data
            &&& other != addr ==> Sunsoft3::cpu_byte(t, other) == Sunsoft3::cpu_byte(s, other)
            &&& t == (Sunsoft3State { prg_ram: s.prg_ram.update(addr - 0x6000, data),
                save_dirty: t.save_dirty, ..s })
            &&& t.save_dirty == (s.save_dirty || (s.battery && s.prg_ram[addr - 0x6000] != data))
        }),
{
}

/// Work RAM holds at each address what was last stored there, and a store touches no other byte and
/// nothing else on the board.
pub proof fn lemma_sunsoft4_ram(s: Sunsoft4State, addr: u16, data: u8, other: u16)
    requires
        0x6000 <= addr < 0x8000,
        0x6000 <= other < 0x8000,
        s.prg_ram.len() >= 0x2000,
        s.prg_ram_enabled,
    ensures
        ({
            let t = Sunsoft4::after_cpu_write(s, addr, data);
            &&& Sunsoft4::cpu_byte(s, addr) == s.prg_ram[addr - 0x6000]
            &&& Sunsoft4::cpu_byte(t, addr) == data
            &&& other != addr ==> Sunsoft4::cpu_byte(t, other) == Sunsoft4::cpu_byte(s, other)
            &&& t == (Sunsoft4State { prg_ram: s.prg_ram.update(addr - 0x6000, data),
                save_dirty: t.save_dirty, ..s })
            &&& t.save_dirty == (s.save_dirty || (s.battery && s.prg_ram[addr - 0x6000] != data))
        }),
{
}

} // verus!
