//! Which board a mapper number stands for, and how a chosen board answers.
use vstd::prelude::*;

use crate::mapper::bandai_74161::Bandai74161State;
use crate::mapper::bandai_fcg::{name_bytes, BandaiFcgState};
use crate::mapper::bnrom::BnromState;
use crate::mapper::board::{built_of, BuildError, BuiltState, OtherBoard};
use crate::mapper::cnrom_protect::CnromProtectState;
use crate::mapper::codemasters_bf9096::CodemastersBf9096State;
use crate::mapper::codemasters_bf909x::CodemastersBf909xState;
use crate::mapper::irem_74x161::Irem74x161State;
use crate::mapper::irem_g101::IremG101State;
use crate::mapper::irem_h3001::IremH3001State;
use crate::mapper::irem_tam_s1::IremTamS1State;
use crate::mapper::jaleco_jf05::JalecoJf05State;
use crate::mapper::jaleco_jf11_14::JalecoJf11_14State;
use crate::mapper::jaleco_jf13::JalecoJf13State;
use crate::mapper::jaleco_jf17::{JalecoJf17State, PrgWiring};
use crate::mapper::jaleco_ss88006::JalecoSs88006State;
use crate::mapper::mapper037::Mapper037State;
use crate::mapper::mmc1::Mmc1State;
use crate::mapper::mmc2::Mmc2State;
use crate::mapper::mmc3::Mmc3State;
use crate::mapper::namco_118::{Namco118State, Variant};
use crate::mapper::nrom::NromState;
use crate::mapper::one_of::{OneOf, OneOfState};
use crate::mapper::sunsoft1::Sunsoft1State;
use crate::mapper::sunsoft2::Sunsoft2State;
use crate::mapper::sunsoft3::Sunsoft3State;
use crate::mapper::sunsoft4::Sunsoft4State;
use crate::mapper::{Mapper, PpuFetchKind};
use crate::rom::Cartridge;
use crate::save_state::mapper::MapperState;
use crate::text::decimal;

verus! {

/// The mapper numbers of the first group, and the boards they stand for, fresh from power-on.
pub proof fn lemma_numbers_of_nintendo(cart: Cartridge, db_board: Option<&str>)
    ensures
        cart.mapper_id == 0 ==> built_of(cart, db_board) == Ok::<BuiltState,
            BuildError>(BuiltState::Here(OneOfState::First(OneOfState::First(NromState::power_on(cart))))),
        cart.mapper_id == 1 ==> built_of(cart, db_board) == Ok::<BuiltState,
            BuildError>(BuiltState::Here(OneOfState::First(OneOfState::Second(Mmc1State::power_on(cart))))),
        cart.mapper_id == 4 ==> built_of(cart, db_board) == Ok::<BuiltState,
            BuildError>(BuiltState::Here(OneOfState::First(OneOfState::Fourth(Mmc3State::power_on(cart))))),
        cart.mapper_id == 9 ==> built_of(cart, db_board) == Ok::<BuiltState,
            BuildError>(BuiltState::Here(OneOfState::First(OneOfState::Third(Mmc2State::power_on(cart))))),
        cart.mapper_id == 37 ==> built_of(cart, db_board) == Ok::<BuiltState,
            BuildError>(BuiltState::Here(OneOfState::First(OneOfState::Fifth(Mapper037State::power_on(cart))))),
{
}

/// The mapper numbers of the second group, and the boards they stand for, fresh from power-on.
pub proof fn lemma_numbers_of_bandai_and_namco(cart: Cartridge, db_board: Option<&str>)
    ensures
        cart.mapper_id == 16 ==> built_of(cart, db_board) == Ok::<BuiltState,
            BuildError>(BuiltState::Here(OneOfState::Second(OneOfState::First(BandaiFcgState::power_on(cart, name_bytes(db_board)))))),
        cart.mapper_id == 34 ==> built_of(cart, db_board) == Ok::<BuiltState,
            BuildError>(BuiltState::Here(OneOfState::Second(OneOfState::Third(BnromState::power_on(cart))))),
        cart.mapper_id == 70 ==> built_of(cart, db_board) == Ok::<BuiltState,
            BuildError>(BuiltState::Here(OneOfState::Second(OneOfState::Second(Bandai74161State::power_on(cart, false))))),
        cart.mapper_id == 88 ==> built_of(cart, db_board) == Ok::<BuiltState,
            BuildError>(BuiltState::Here(OneOfState::Second(OneOfState::Fifth(Namco118State::power_on(cart, Variant::Mapper88))))),
        cart.mapper_id == 95 ==> built_of(cart, db_board) == Ok::<BuiltState,
            BuildError>(BuiltState::Here(OneOfState::Second(OneOfState::Fifth(Namco118State::power_on(cart, Variant::Mapper95))))),
        cart.mapper_id == 152 ==> built_of(cart, db_board) == Ok::<BuiltState,
            BuildError>(BuiltState::Here(OneOfState::Second(OneOfState::Second(Bandai74161State::power_on(cart, true))))),
        cart.mapper_id == 154 ==> built_of(cart, db_board) == Ok::<BuiltState,
            BuildError>(BuiltState::Here(OneOfState::Second(OneOfState::Fifth(Namco118State::power_on(cart, Variant::Mapper154))))),
        cart.mapper_id == 159 ==> built_of(cart, db_board) == Ok::<BuiltState,
            BuildError>(BuiltState::Here(OneOfState::Second(OneOfState::First(BandaiFcgState::power_on(cart, name_bytes(db_board)))))),
        cart.mapper_id == 185 ==> built_of(cart, db_board) == Ok::<BuiltState,
            BuildError>(BuiltState::Here(OneOfState::Second(OneOfState::Fourth(CnromProtectState::power_on(cart))))),
        cart.mapper_id == 206 ==> built_of(cart, db_board) == Ok::<BuiltState,
            BuildError>(BuiltState::Here(OneOfState::Second(OneOfState::Fifth(Namco118State::power_on(cart, Variant::Mapper206))))),
{
}

/// The mapper numbers of the third group, and the boards they stand for, fresh from power-on.
pub proof fn lemma_numbers_of_irem_and_codemasters(cart: Cartridge, db_board: Option<&str>)
    ensures
        cart.mapper_id == 32 ==> built_of(cart, db_board) == Ok::<BuiltState,
            BuildError>(BuiltState::Here(OneOfState::Third(OneOfState::First(IremG101State::power_on(cart))))),
        cart.mapper_id == 65 ==> built_of(cart, db_board) == Ok::<BuiltState,
            BuildError>(BuiltState::Here(OneOfState::Third(OneOfState::Second(IremH3001State::power_on(cart))))),
        cart.mapper_id == 71 ==> built_of(cart, db_board) == Ok::<BuiltState,
            BuildError>(BuiltState::Here(OneOfState::Third(OneOfState::Fifth(CodemastersBf909xState::power_on(cart))))),
        cart.mapper_id == 78 ==> built_of(cart, db_board) == Ok::<BuiltState,
            BuildError>(BuiltState::Here(OneOfState::Third(OneOfState::Third(Irem74x161State::power_on(cart))))),
        cart.mapper_id == 97 ==> built_of(cart, db_board) == Ok::<BuiltState,
            BuildError>(BuiltState::Here(OneOfState::Third(OneOfState::Fourth(IremTamS1State::power_on(cart))))),
{
}

/// The mapper numbers of the fourth group, and the boards they stand for, fresh from power-on.
pub proof fn lemma_numbers_of_jaleco(cart: Cartridge, db_board: Option<&str>)
    ensures
        cart.mapper_id == 18 ==> built_of(cart, db_board) == Ok::<BuiltState,
            BuildError>(BuiltState::Here(OneOfState::Fourth(OneOfState::First(JalecoSs88006State::power_on(cart))))),
        cart.mapper_id == 72 ==> built_of(cart, db_board) == Ok::<BuiltState,
            BuildError>(BuiltState::Here(OneOfState::Fourth(OneOfState::Fifth(JalecoJf17State::power_on(cart, PrgWiring::SwitchableLow))))),
        cart.mapper_id == 86 ==> built_of(cart, db_board) == Ok::<BuiltState,
            BuildError>(BuiltState::Here(OneOfState::Fourth(OneOfState::Fourth(JalecoJf13State::power_on(cart))))),
        cart.mapper_id == 87 ==> built_of(cart, db_board) == Ok::<BuiltState,
            BuildError>(BuiltState::Here(OneOfState::Fourth(OneOfState::Second(JalecoJf05State::power_on(cart))))),
        cart.mapper_id == 92 ==> built_of(cart, db_board) == Ok::<BuiltState,
            BuildError>(BuiltState::Here(OneOfState::Fourth(OneOfState::Fifth(JalecoJf17State::power_on(cart, PrgWiring::SwitchableHigh))))),
        cart.mapper_id == 140 ==> built_of(cart, db_board) == Ok::<BuiltState,
            BuildError>(BuiltState::Here(OneOfState::Fourth(OneOfState::Third(JalecoJf11_14State::power_on(cart))))),
{
}

/// The mapper numbers of the fifth group, and the boards they stand for, fresh from power-on.
pub proof fn lemma_numbers_of_sunsoft_and_quattro(cart: Cartridge, db_board: Option<&str>)
    ensures
        cart.mapper_id == 67 ==> built_of(cart, db_board) == Ok::<BuiltState,
            BuildError>(BuiltState::Here(OneOfState::Fifth(OneOfState::Third(Sunsoft3State::power_on(cart))))),
        cart.mapper_id == 68 ==> built_of(cart, db_board) == Ok::<BuiltState,
            BuildError>(BuiltState::Here(OneOfState::Fifth(OneOfState::Fourth(Sunsoft4State::power_on(cart))))),
        cart.mapper_id == 89 ==> built_of(cart, db_board) == Ok::<BuiltState,
            BuildError>(BuiltState::Here(OneOfState::Fifth(OneOfState::Second(Sunsoft2State::power_on(cart))))),
        cart.mapper_id == 184 ==> built_of(cart, db_board) == Ok::<BuiltState,
            BuildError>(BuiltState::Here(OneOfState::Fifth(OneOfState::First(Sunsoft1State::power_on(cart))))),
        cart.mapper_id == 232 ==> built_of(cart, db_board) == Ok::<BuiltState,
            BuildError>(BuiltState::Here(OneOfState::Fifth(OneOfState::Fifth(CodemastersBf9096State::power_on(cart))))),
{
}

/// The mapper numbers of boards made elsewhere; the cart comes back as it was.
pub proof fn lemma_numbers_made_elsewhere(cart: Cartridge, db_board: Option<&str>)
    ensures
        cart.mapper_id == 2 ==> built_of(cart, db_board) == Ok::<BuiltState,
            BuildError>(BuiltState::Elsewhere(OtherBoard::Uxrom, cart)),
        cart.mapper_id == 3 ==> built_of(cart, db_board) == Ok::<BuiltState,
            BuildError>(BuiltState::Elsewhere(OtherBoard::Cnrom, cart)),
        cart.mapper_id == 5 ==> built_of(cart, db_board) == Ok::<BuiltState,
            BuildError>(BuiltState::Elsewhere(OtherBoard::Mmc5, cart)),
        cart.mapper_id == 7 ==> built_of(cart, db_board) == Ok::<BuiltState,
            BuildError>(BuiltState::Elsewhere(OtherBoard::Axrom, cart)),
        cart.mapper_id == 10 ==> built_of(cart, db_board) == Ok::<BuiltState,
            BuildError>(BuiltState::Elsewhere(OtherBoard::Mmc4, cart)),
        cart.mapper_id == 19 ==> built_of(cart, db_board) == Ok::<BuiltState,
            BuildError>(BuiltState::Elsewhere(OtherBoard::Namco163, cart)),
        cart.mapper_id == 20 ==> built_of(cart, db_board) == Ok::<BuiltState,
            BuildError>(BuiltState::Elsewhere(OtherBoard::Fds, cart)),
        cart.mapper_id == 21 ==> built_of(cart, db_board) == Ok::<BuiltState,
            BuildError>(BuiltState::Elsewhere(OtherBoard::Vrc2_4, cart)),
        cart.mapper_id == 22 ==> built_of(cart, db_board) == Ok::<BuiltState,
            BuildError>(BuiltState::Elsewhere(OtherBoard::Vrc2_4, cart)),
        cart.mapper_id == 23 ==> built_of(cart, db_board) == Ok::<BuiltState,
            BuildError>(BuiltState::Elsewhere(OtherBoard::Vrc2_4, cart)),
        cart.mapper_id == 24 ==> built_of(cart, db_board) == Ok::<BuiltState,
            BuildError>(BuiltState::Elsewhere(OtherBoard::Vrc6A, cart)),
        cart.mapper_id == 25 ==> built_of(cart, db_board) == Ok::<BuiltState,
            BuildError>(BuiltState::Elsewhere(OtherBoard::Vrc2_4, cart)),
        cart.mapper_id == 26 ==> built_of(cart, db_board) == Ok::<BuiltState,
            BuildError>(BuiltState::Elsewhere(OtherBoard::Vrc6B, cart)),
        cart.mapper_id == 33 ==> built_of(cart, db_board) == Ok::<BuiltState,
            BuildError>(BuiltState::Elsewhere(OtherBoard::TaitoTc0190, cart)),
        cart.mapper_id == 48 ==> built_of(cart, db_board) == Ok::<BuiltState,
            BuildError>(BuiltState::Elsewhere(OtherBoard::Tc0690, cart)),
        cart.mapper_id == 64 ==> built_of(cart, db_board) == Ok::<BuiltState,
            BuildError>(BuiltState::Elsewhere(OtherBoard::Rambo1, cart)),
        cart.mapper_id == 66 ==> built_of(cart, db_board) == Ok::<BuiltState,
            BuildError>(BuiltState::Elsewhere(OtherBoard::Gxrom, cart)),
        cart.mapper_id == 69 ==> built_of(cart, db_board) == Ok::<BuiltState,
            BuildError>(BuiltState::Elsewhere(OtherBoard::Fme7, cart)),
        cart.mapper_id == 73 ==> built_of(cart, db_board) == Ok::<BuiltState,
            BuildError>(BuiltState::Elsewhere(OtherBoard::Vrc3, cart)),
        cart.mapper_id == 75 ==> built_of(cart, db_board) == Ok::<BuiltState,
            BuildError>(BuiltState::Elsewhere(OtherBoard::Vrc1, cart)),
        cart.mapper_id == 80 ==> built_of(cart, db_board) == Ok::<BuiltState,
            BuildError>(BuiltState::Elsewhere(OtherBoard::TaitoX1005, cart)),
        cart.mapper_id == 82 ==> built_of(cart, db_board) == Ok::<BuiltState,
            BuildError>(BuiltState::Elsewhere(OtherBoard::TaitoX1017, cart)),
        cart.mapper_id == 85 ==> built_of(cart, db_board) == Ok::<BuiltState,
            BuildError>(BuiltState::Elsewhere(OtherBoard::Vrc7, cart)),
        cart.mapper_id == 94 ==> built_of(cart, db_board) == Ok::<BuiltState,
            BuildError>(BuiltState::Elsewhere(OtherBoard::Un1rom, cart)),
        cart.mapper_id == 118 ==> built_of(cart, db_board) == Ok::<BuiltState,
            BuildError>(BuiltState::Elsewhere(OtherBoard::Txsrom, cart)),
        cart.mapper_id == 119 ==> built_of(cart, db_board) == Ok::<BuiltState,
            BuildError>(BuiltState::Elsewhere(OtherBoard::Tqrom, cart)),
        cart.mapper_id == 180 ==> built_of(cart, db_board) == Ok::<BuiltState,
            BuildError>(BuiltState::Elsewhere(OtherBoard::Un1rom180, cart)),
        cart.mapper_id == 189 ==> built_of(cart, db_board) == Ok::<BuiltState,
            BuildError>(BuiltState::Elsewhere(OtherBoard::TaitoTc110, cart)),
        cart.mapper_id == 207 ==> built_of(cart, db_board) == Ok::<BuiltState,
            BuildError>(BuiltState::Elsewhere(OtherBoard::TaitoX1005Mapper207, cart)),
        cart.mapper_id == 210 ==> built_of(cart, db_board) == Ok::<BuiltState,
            BuildError>(BuiltState::Elsewhere(OtherBoard::Namco163, cart)),
{
}

/// A refused number is named in the message.
pub proof fn lemma_refusal_message(id: u16)
    ensures
        BuildError::UnsupportedMapper(id).text() == "unsupported mapper "@ + decimal(id as nat),
{
}

/// Every number between those is refused, and the refusal gives it.
pub proof fn lemma_numbers_without_a_board(cart: Cartridge, db_board: Option<&str>)
    requires
        ({
            let id = cart.mapper_id;
            ||| id == 6 || id == 8 || 11 <= id <= 15 || id == 17
            ||| 27 <= id <= 31 || 35 <= id <= 36 || 38 <= id <= 47 || 49 <= id <= 63
            ||| id == 74 || 76 <= id <= 77 || id == 79 || id == 81 || 83 <= id <= 84
            ||| 90 <= id <= 91 || id == 93 || id == 96 || 98 <= id <= 117
            ||| 120 <= id <= 139 || 141 <= id <= 151 || id == 153 || 155 <= id <= 158
            ||| 160 <= id <= 179 || 181 <= id <= 183 || 186 <= id <= 188
            ||| 190 <= id <= 205 || 208 <= id <= 209 || 211 <= id <= 231 || 233 <= id
        }),
    ensures
        built_of(cart, db_board) == Err::<BuiltState, BuildError>(
            BuildError::UnsupportedMapper(cart.mapper_id),
        ),
{
}

/// A board in the first place answers as it would alone, and stays in its place.
pub proof fn lemma_first_place<A: Mapper, B: Mapper, C: Mapper, D: Mapper, E: Mapper>(
    x: A::V,
    addr: u16,
    data: u8,
    slot: u8,
    cycle: u64,
    kind: PpuFetchKind,
    bytes: Seq<u8>,
    state: MapperState,
)
    ensures
        ({
            let s = OneOfState::First::<A::V, B::V, C::V, D::V, E::V>(x);
            &&& OneOf::<A, B, C, D, E>::ok(s) == A::ok(x)
            &&& OneOf::<A, B, C, D, E>::cpu_byte(s, addr) == A::cpu_byte(x, addr)
            &&& OneOf::<A, B, C, D, E>::peeked(s, addr) == A::peeked(x, addr)
            &&& OneOf::<A, B, C, D, E>::after_cpu_read(s, addr) == OneOfState::First::<A::V, B::V,
                C::V, D::V, E::V>(A::after_cpu_read(x, addr))
            &&& OneOf::<A, B, C, D, E>::after_cpu_write(s, addr, data) == OneOfState::First::<A::V,
                B::V, C::V, D::V, E::V>(A::after_cpu_write(x, addr, data))
            &&& OneOf::<A, B, C, D, E>::expansion_byte(s, addr) == A::expansion_byte(x, addr)
            &&& OneOf::<A, B, C, D, E>::after_expansion_read(s, addr) == OneOfState::First::<A::V,
                B::V, C::V, D::V, E::V>(A::after_expansion_read(x, addr))
            &&& OneOf::<A, B, C, D, E>::ppu_byte(s, addr) == A::ppu_byte(x, addr)
            &&& OneOf::<A, B, C, D, E>::after_ppu_read(s, addr) == OneOfState::First::<A::V, B::V,
                C::V, D::V, E::V>(A::after_ppu_read(x, addr))
            &&& OneOf::<A, B, C, D, E>::after_ppu_write(s, addr, data) == OneOfState::First::<A::V,
                B::V, C::V, D::V, E::V>(A::after_ppu_write(x, addr, data))
            &&& OneOf::<A, B, C, D, E>::mirrored(s) == A::mirrored(x)
            &&& OneOf::<A, B, C, D, E>::after_cpu_cycle(s) == OneOfState::First::<A::V, B::V, C::V,
                D::V, E::V>(A::after_cpu_cycle(x))
            &&& OneOf::<A, B, C, D, E>::irq(s) == A::irq(x)
            &&& OneOf::<A, B, C, D, E>::nametable_source(s, slot, addr) == A::nametable_source(x, slot, addr)
            &&& OneOf::<A, B, C, D, E>::after_nametable_read(s, slot, addr)
                == OneOfState::First::<A::V, B::V, C::V, D::V, E::V>(A::after_nametable_read(x, slot, addr))
            &&& OneOf::<A, B, C, D, E>::nametable_target(s, slot, addr, data) == A::nametable_target(x,
                slot, addr, data)
            &&& OneOf::<A, B, C, D, E>::after_nametable_write(s, slot, addr, data)
                == OneOfState::First::<A::V, B::V, C::V, D::V, E::V>(A::after_nametable_write(x, slot,
                addr, data))
            &&& OneOf::<A, B, C, D, E>::after_ppu_addr(s, addr, cycle, kind)
                == OneOfState::First::<A::V, B::V, C::V, D::V, E::V>(A::after_ppu_addr(x, addr, cycle, kind))
            &&& OneOf::<A, B, C, D, E>::battery_bytes(s) == A::battery_bytes(x)
            &&& OneOf::<A, B, C, D, E>::after_load(s, bytes) == OneOfState::First::<A::V, B::V, C::V,
                D::V, E::V>(A::after_load(x, bytes))
            &&& OneOf::<A, B, C, D, E>::save_due(s) == A::save_due(x)
            &&& OneOf::<A, B, C, D, E>::after_save(s) == OneOfState::First::<A::V, B::V, C::V, D::V,
                E::V>(A::after_save(x))
            &&& OneOf::<A, B, C, D, E>::captures(s, Some(state)) == A::captures(x, Some(state))
            &&& OneOf::<A, B, C, D, E>::snapshot_ok(s, state) == A::snapshot_ok(x, state)
            &&& A::after_apply(x, state) is None ==> OneOf::<A, B, C, D, E>::after_apply(s, state) is None
            &&& A::after_apply(x, state) is Some
                ==> OneOf::<A, B, C, D, E>::after_apply(s, state) == Some(OneOfState::First::<A::V,
                B::V, C::V, D::V, E::V>(A::after_apply(x, state)->Some_0))
        }),
{
}

/// A board in the second place answers as it would alone, and stays in its place.
pub proof fn lemma_second_place<A: Mapper, B: Mapper, C: Mapper, D: Mapper, E: Mapper>(
    x: B::V,
    addr: u16,
    data: u8,
    slot: u8,
    cycle: u64,
    kind: PpuFetchKind,
    bytes: Seq<u8>,
    state: MapperState,
)
    ensures
        ({
            let s = OneOfState::Second::<A::V, B::V, C::V, D::V, E::V>(x);
            &&& OneOf::<A, B, C, D, E>::ok(s) == B::ok(x)
            &&& OneOf::<A, B, C, D, E>::cpu_byte(s, addr) == B::cpu_byte(x, addr)
            &&& OneOf::<A, B, C, D, E>::peeked(s, addr) == B::peeked(x, addr)
            &&& OneOf::<A, B, C, D, E>::after_cpu_read(s, addr) == OneOfState::Second::<A::V, B::V,
                C::V, D::V, E::V>(B::after_cpu_read(x, addr))
            &&& OneOf::<A, B, C, D, E>::after_cpu_write(s, addr, data) == OneOfState::Second::<A::V,
                B::V, C::V, D::V, E::V>(B::after_cpu_write(x, addr, data))
            &&& OneOf::<A, B, C, D, E>::expansion_byte(s, addr) == B::expansion_byte(x, addr)
            &&& OneOf::<A, B, C, D, E>::after_expansion_read(s, addr) == OneOfState::Second::<A::V,
                B::V, C::V, D::V, E::V>(B::after_expansion_read(x, addr))
            &&& OneOf::<A, B, C, D, E>::ppu_byte(s, addr) == B::ppu_byte(x, addr)
            &&& OneOf::<A, B, C, D, E>::after_ppu_read(s, addr) == OneOfState::Second::<A::V, B::V,
                C::V, D::V, E::V>(B::after_ppu_read(x, addr))
            &&& OneOf::<A, B, C, D, E>::after_ppu_write(s, addr, data) == OneOfState::Second::<A::V,
                B::V, C::V, D::V, E::V>(B::after_ppu_write(x, addr, data))
            &&& OneOf::<A, B, C, D, E>::mirrored(s) == B::mirrored(x)
            &&& OneOf::<A, B, C, D, E>::after_cpu_cycle(s) == OneOfState::Second::<A::V, B::V, C::V,
                D::V, E::V>(B::after_cpu_cycle(x))
            &&& OneOf::<A, B, C, D, E>::irq(s) == B::irq(x)
            &&& OneOf::<A, B, C, D, E>::nametable_source(s, slot, addr) == B::nametable_source(x, slot, addr)
            &&& OneOf::<A, B, C, D, E>::after_nametable_read(s, slot, addr)
                == OneOfState::Second::<A::V, B::V, C::V, D::V, E::V>(B::after_nametable_read(x, slot, addr))
            &&& OneOf::<A, B, C, D, E>::nametable_target(s, slot, addr, data) == B::nametable_target(x,
                slot, addr, data)
            &&& OneOf::<A, B, C, D, E>::after_nametable_write(s, slot, addr, data)
                == OneOfState::Second::<A::V, B::V, C::V, D::V, E::V>(B::after_nametable_write(x, slot,
                addr, data))
            &&& OneOf::<A, B, C, D, E>::after_ppu_addr(s, addr, cycle, kind)
                == OneOfState::Second::<A::V, B::V, C::V, D::V, E::V>(B::after_ppu_addr(x, addr, cycle, kind))
            &&& OneOf::<A, B, C, D, E>::battery_bytes(s) == B::battery_bytes(x)
            &&& OneOf::<A, B, C, D, E>::after_load(s, bytes) == OneOfState::Second::<A::V, B::V, C::V,
                D::V, E::V>(B::after_load(x, bytes))
            &&& OneOf::<A, B, C, D, E>::save_due(s) == B::save_due(x)
            &&& OneOf::<A, B, C, D, E>::after_save(s) == OneOfState::Second::<A::V, B::V, C::V, D::V,
                E::V>(B::after_save(x))
            &&& OneOf::<A, B, C, D, E>::captures(s, Some(state)) == B::captures(x, Some(state))
            &&& OneOf::<A, B, C, D, E>::snapshot_ok(s, state) == B::snapshot_ok(x, state)
            &&& B::after_apply(x, state) is None ==> OneOf::<A, B, C, D, E>::after_apply(s, state) is None
            &&& B::after_apply(x, state) is Some
                ==> OneOf::<A, B, C, D, E>::after_apply(s, state) == Some(OneOfState::Second::<A::V,
                B::V, C::V, D::V, E::V>(B::after_apply(x, state)->Some_0))
        }),
{
}

/// A board in the third place answers as it would alone, and stays in its place.
pub proof fn lemma_third_place<A: Mapper, B: Mapper, C: Mapper, D: Mapper, E: Mapper>(
    x: C::V,
    addr: u16,
    data: u8,
    slot: u8,
    cycle: u64,
    kind: PpuFetchKind,
    bytes: Seq<u8>,
    state: MapperState,
)
    ensures
        ({
            let s = OneOfState::Third::<A::V, B::V, C::V, D::V, E::V>(x);
            &&& OneOf::<A, B, C, D, E>::ok(s) == C::ok(x)
            &&& OneOf::<A, B, C, D, E>::cpu_byte(s, addr) == C::cpu_byte(x, addr)
            &&& OneOf::<A, B, C, D, E>::peeked(s, addr) == C::peeked(x, addr)
            &&& OneOf::<A, B, C, D, E>::after_cpu_read(s, addr) == OneOfState::Third::<A::V, B::V,
                C::V, D::V, E::V>(C::after_cpu_read(x, addr))
            &&& OneOf::<A, B, C, D, E>::after_cpu_write(s, addr, data) == OneOfState::Third::<A::V,
                B::V, C::V, D::V, E::V>(C::after_cpu_write(x, addr, data))
            &&& OneOf::<A, B, C, D, E>::expansion_byte(s, addr) == C::expansion_byte(x, addr)
            &&& OneOf::<A, B, C, D, E>::after_expansion_read(s, addr) == OneOfState::Third::<A::V,
                B::V, C::V, D::V, E::V>(C::after_expansion_read(x, addr))
            &&& OneOf::<A, B, C, D, E>::ppu_byte(s, addr) == C::ppu_byte(x, addr)
            &&& OneOf::<A, B, C, D, E>::after_ppu_read(s, addr) == OneOfState::Third::<A::V, B::V,
                C::V, D::V, E::V>(C::after_ppu_read(x, addr))
            &&& OneOf::<A, B, C, D, E>::after_ppu_write(s, addr, data) == OneOfState::Third::<A::V,
                B::V, C::V, D::V, E::V>(C::after_ppu_write(x, addr, data))
            &&& OneOf::<A, B, C, D, E>::mirrored(s) == C::mirrored(x)
            &&& OneOf::<A, B, C, D, E>::after_cpu_cycle(s) == OneOfState::Third::<A::V, B::V, C::V,
                D::V, E::V>(C::after_cpu_cycle(x))
            &&& OneOf::<A, B, C, D, E>::irq(s) == C::irq(x)
            &&& OneOf::<A, B, C, D, E>::nametable_source(s, slot, addr) == C::nametable_source(x, slot, addr)
            &&& OneOf::<A, B, C, D, E>::after_nametable_read(s, slot, addr)
                == OneOfState::Third::<A::V, B::V, C::V, D::V, E::V>(C::after_nametable_read(x, slot, addr))
            &&& OneOf::<A, B, C, D, E>::nametable_target(s, slot, addr, data) == C::nametable_target(x,
                slot, addr, data)
            &&& OneOf::<A, B, C, D, E>::after_nametable_write(s, slot, addr, data)
                == OneOfState::Third::<A::V, B::V, C::V, D::V, E::V>(C::after_nametable_write(x, slot,
                addr, data))
            &&& OneOf::<A, B, C, D, E>::after_ppu_addr(s, addr, cycle, kind)
                == OneOfState::Third::<A::V, B::V, C::V, D::V, E::V>(C::after_ppu_addr(x, addr, cycle, kind))
            &&& OneOf::<A, B, C, D, E>::battery_bytes(s) == C::battery_bytes(x)
            &&& OneOf::<A, B, C, D, E>::after_load(s, bytes) == OneOfState::Third::<A::V, B::V, C::V,
                D::V, E::V>(C::after_load(x, bytes))
            &&& OneOf::<A, B, C, D, E>::save_due(s) == C::save_due(x)
            &&& OneOf::<A, B, C, D, E>::after_save(s) == OneOfState::Third::<A::V, B::V, C::V, D::V,
                E::V>(C::after_save(x))
            &&& OneOf::<A, B, C, D, E>::captures(s, Some(state)) == C::captures(x, Some(state))
            &&& OneOf::<A, B, C, D, E>::snapshot_ok(s, state) == C::snapshot_ok(x, state)
            &&& C::after_apply(x, state) is None ==> OneOf::<A, B, C, D, E>::after_apply(s, state) is None
            &&& C::after_apply(x, state) is Some
                ==> OneOf::<A, B, C, D, E>::after_apply(s, state) == Some(OneOfState::Third::<A::V,
                B::V, C::V, D::V, E::V>(C::after_apply(x, state)->Some_0))
        }),
{
}

/// A board in the fourth place answers as it would alone, and stays in its place.
pub proof fn lemma_fourth_place<A: Mapper, B: Mapper, C: Mapper, D: Mapper, E: Mapper>(
    x: D::V,
    addr: u16,
    data: u8,
    slot: u8,
    cycle: u64,
    kind: PpuFetchKind,
    bytes: Seq<u8>,
    state: MapperState,
)
    ensures
        ({
            let s = OneOfState::Fourth::<A::V, B::V, C::V, D::V, E::V>(x);
            &&& OneOf::<A, B, C, D, E>::ok(s) == D::ok(x)
            &&& OneOf::<A, B, C, D, E>::cpu_byte(s, addr) == D::cpu_byte(x, addr)
            &&& OneOf::<A, B, C, D, E>::peeked(s, addr) == D::peeked(x, addr)
            &&& OneOf::<A, B, C, D, E>::after_cpu_read(s, addr) == OneOfState::Fourth::<A::V, B::V,
                C::V, D::V, E::V>(D::after_cpu_read(x, addr))
            &&& OneOf::<A, B, C, D, E>::after_cpu_write(s, addr, data) == OneOfState::Fourth::<A::V,
                B::V, C::V, D::V, E::V>(D::after_cpu_write(x, addr, data))
            &&& OneOf::<A, B, C, D, E>::expansion_byte(s, addr) == D::expansion_byte(x, addr)
            &&& OneOf::<A, B, C, D, E>::after_expansion_read(s, addr) == OneOfState::Fourth::<A::V,
                B::V, C::V, D::V, E::V>(D::after_expansion_read(x, addr))
            &&& OneOf::<A, B, C, D, E>::ppu_byte(s, addr) == D::ppu_byte(x, addr)
            &&& OneOf::<A, B, C, D, E>::after_ppu_read(s, addr) == OneOfState::Fourth::<A::V, B::V,
                C::V, D::V, E::V>(D::after_ppu_read(x, addr))
            &&& OneOf::<A, B, C, D, E>::after_ppu_write(s, addr, data) == OneOfState::Fourth::<A::V,
                B::V, C::V, D::V, E::V>(D::after_ppu_write(x, addr, data))
            &&& OneOf::<A, B, C, D, E>::mirrored(s) == D::mirrored(x)
            &&& OneOf::<A, B, C, D, E>::after_cpu_cycle(s) == OneOfState::Fourth::<A::V, B::V, C::V,
                D::V, E::V>(D::after_cpu_cycle(x))
            &&& OneOf::<A, B, C, D, E>::irq(s) == D::irq(x)
            &&& OneOf::<A, B, C, D, E>::nametable_source(s, slot, addr) == D::nametable_source(x, slot, addr)
            &&& OneOf::<A, B, C, D, E>::after_nametable_read(s, slot, addr)
                == OneOfState::Fourth::<A::V, B::V, C::V, D::V, E::V>(D::after_nametable_read(x, slot, addr))
            &&& OneOf::<A, B, C, D, E>::nametable_target(s, slot, addr, data) == D::nametable_target(x,
                slot, addr, data)
            &&& OneOf::<A, B, C, D, E>::after_nametable_write(s, slot, addr, data)
                == OneOfState::Fourth::<A::V, B::V, C::V, D::V, E::V>(D::after_nametable_write(x, slot,
                addr, data))
            &&& OneOf::<A, B, C, D, E>::after_ppu_addr(s, addr, cycle, kind)
                == OneOfState::Fourth::<A::V, B::V, C::V, D::V, E::V>(D::after_ppu_addr(x, addr, cycle, kind))
            &&& OneOf::<A, B, C, D, E>::battery_bytes(s) == D::battery_bytes(x)
            &&& OneOf::<A, B, C, D, E>::after_load(s, bytes) == OneOfState::Fourth::<A::V, B::V, C::V,
                D::V, E::V>(D::after_load(x, bytes))
            &&& OneOf::<A, B, C, D, E>::save_due(s) == D::save_due(x)
            &&& OneOf::<A, B, C, D, E>::after_save(s) == OneOfState::Fourth::<A::V, B::V, C::V, D::V,
                E::V>(D::after_save(x))
            &&& OneOf::<A, B, C, D, E>::captures(s, Some(state)) == D::captures(x, Some(state))
            &&& OneOf::<A, B, C, D, E>::snapshot_ok(s, state) == D::snapshot_ok(x, state)
            &&& D::after_apply(x, state) is None ==> OneOf::<A, B, C, D, E>::after_apply(s, state) is None
            &&& D::after_apply(x, state) is Some
                ==> OneOf::<A, B, C, D, E>::after_apply(s, state) == Some(OneOfState::Fourth::<A::V,
                B::V, C::V, D::V, E::V>(D::after_apply(x, state)->Some_0))
        }),
{
}

/// A board in the fifth place answers as it would alone, and stays in its place.
pub proof fn lemma_fifth_place<A: Mapper, B: Mapper, C: Mapper, D: Mapper, E: Mapper>(
    x: E::V,
    addr: u16,
    data: u8,
    slot: u8,
    cycle: u64,
    kind: PpuFetchKind,
    bytes: Seq<u8>,
    state: MapperState,
)
    ensures
        ({
            let s = OneOfState::Fifth::<A::V, B::V, C::V, D::V, E::V>(x);
            &&& OneOf::<A, B, C, D, E>::ok(s) == E::ok(x)
            &&& OneOf::<A, B, C, D, E>::cpu_byte(s, addr) == E::cpu_byte(x, addr)
            &&& OneOf::<A, B, C, D, E>::peeked(s, addr) == E::peeked(x, addr)
            &&& OneOf::<A, B, C, D, E>::after_cpu_read(s, addr) == OneOfState::Fifth::<A::V, B::V,
                C::V, D::V, E::V>(E::after_cpu_read(x, addr))
            &&& OneOf::<A, B, C, D, E>::after_cpu_write(s, addr, data) == OneOfState::Fifth::<A::V,
                B::V, C::V, D::V, E::V>(E::after_cpu_write(x, addr, data))
            &&& OneOf::<A, B, C, D, E>::expansion_byte(s, addr) == E::expansion_byte(x, addr)
            &&& OneOf::<A, B, C, D, E>::after_expansion_read(s, addr) == OneOfState::Fifth::<A::V,
                B::V, C::V, D::V, E::V>(E::after_expansion_read(x, addr))
            &&& OneOf::<A, B, C, D, E>::ppu_byte(s, addr) == E::ppu_byte(x, addr)
            &&& OneOf::<A, B, C, D, E>::after_ppu_read(s, addr) == OneOfState::Fifth::<A::V, B::V,
                C::V, D::V, E::V>(E::after_ppu_read(x, addr))
            &&& OneOf::<A, B, C, D, E>::after_ppu_write(s, addr, data) == OneOfState::Fifth::<A::V,
                B::V, C::V, D::V, E::V>(E::after_ppu_write(x, addr, data))
            &&& OneOf::<A, B, C, D, E>::mirrored(s) == E::mirrored(x)
            &&& OneOf::<A, B, C, D, E>::after_cpu_cycle(s) == OneOfState::Fifth::<A::V, B::V, C::V,
                D::V, E::V>(E::after_cpu_cycle(x))
            &&& OneOf::<A, B, C, D, E>::irq(s) == E::irq(x)
            &&& OneOf::<A, B, C, D, E>::nametable_source(s, slot, addr) == E::nametable_source(x, slot, addr)
            &&& OneOf::<A, B, C, D, E>::after_nametable_read(s, slot, addr)
                == OneOfState::Fifth::<A::V, B::V, C::V, D::V, E::V>(E::after_nametable_read(x, slot, addr))
            &&& OneOf::<A, B, C, D, E>::nametable_target(s, slot, addr, data) == E::nametable_target(x,
                slot, addr, data)
            &&& OneOf::<A, B, C, D, E>::after_nametable_write(s, slot, addr, data)
                == OneOfState::Fifth::<A::V, B::V, C::V, D::V, E::V>(E::after_nametable_write(x, slot,
                addr, data))
            &&& OneOf::<A, B, C, D, E>::after_ppu_addr(s, addr, cycle, kind)
                == OneOfState::Fifth::<A::V, B::V, C::V, D::V, E::V>(E::after_ppu_addr(x, addr, cycle, kind))
            &&& OneOf::<A, B, C, D, E>::battery_bytes(s) == E::battery_bytes(x)
            &&& OneOf::<A, B, C, D, E>::after_load(s, bytes) == OneOfState::Fifth::<A::V, B::V, C::V,
                D::V, E::V>(E::after_load(x, bytes))
            &&& OneOf::<A, B, C, D, E>::save_due(s) == E::save_due(x)
            &&& OneOf::<A, B, C, D, E>::after_save(s) == OneOfState::Fifth::<A::V, B::V, C::V, D::V,
                E::V>(E::after_save(x))
            &&& OneOf::<A, B, C, D, E>::captures(s, Some(state)) == E::captures(x, Some(state))
            &&& OneOf::<A, B, C, D, E>::snapshot_ok(s, state) == E::snapshot_ok(x, state)
            &&& E::after_apply(x, state) is None ==> OneOf::<A, B, C, D, E>::after_apply(s, state) is None
            &&& E::after_apply(x, state) is Some
                ==> OneOf::<A, B, C, D, E>::after_apply(s, state) == Some(OneOfState::Fifth::<A::V,
                B::V, C::V, D::V, E::V>(E::after_apply(x, state)->Some_0))
        }),
{
}

} // verus!
