//! Choosing the board that a cart's header names.
use vstd::prelude::*;
use vstd::string::StringExecFns;

use crate::mapper::bandai_74161::{Bandai74161, Bandai74161State};
use crate::mapper::bandai_fcg::{BandaiFcg, BandaiFcgState, name_bytes};
use crate::mapper::bnrom::{Bnrom, BnromState};
use crate::mapper::cnrom_protect::{CnromProtect, CnromProtectState};
use crate::mapper::codemasters_bf9096::{CodemastersBf9096, CodemastersBf9096State};
use crate::mapper::codemasters_bf909x::{CodemastersBf909x, CodemastersBf909xState};
use crate::mapper::irem_74x161::{Irem74x161, Irem74x161State};
use crate::mapper::irem_g101::{IremG101, IremG101State};
use crate::mapper::irem_h3001::{IremH3001, IremH3001State};
use crate::mapper::irem_tam_s1::{IremTamS1, IremTamS1State};
use crate::mapper::jaleco_jf05::{JalecoJf05, JalecoJf05State};
use crate::mapper::jaleco_jf11_14::{JalecoJf11_14, JalecoJf11_14State};
use crate::mapper::jaleco_jf13::{JalecoJf13, JalecoJf13State};
use crate::mapper::jaleco_jf17::{JalecoJf17, JalecoJf17State, PrgWiring};
use crate::mapper::jaleco_ss88006::{JalecoSs88006, JalecoSs88006State};
use crate::mapper::mapper037::{Mapper037, Mapper037State};
use crate::mapper::mmc1::{Mmc1, Mmc1State};
use crate::mapper::mmc2::{Mmc2, Mmc2State};
use crate::mapper::mmc3::{Mmc3, Mmc3State};
use crate::mapper::namco_118::{Namco118, Namco118State, Variant};
use crate::mapper::nrom::{Nrom, NromState};
use crate::mapper::sunsoft1::{Sunsoft1, Sunsoft1State};
use crate::mapper::sunsoft2::{Sunsoft2, Sunsoft2State};
use crate::mapper::sunsoft3::{Sunsoft3, Sunsoft3State};
use crate::mapper::sunsoft4::{Sunsoft4, Sunsoft4State};
use crate::mapper::one_of::{OneOf, OneOfState};
use crate::mapper::Mapper;
use crate::mem::ram_fits;
use crate::rom::Cartridge;
use crate::text::{decimal, push_decimal};

verus! {

pub type NintendoBoard = OneOf<
    Nrom,
    Mmc1,
    Mmc2,
    Mmc3,
    Mapper037,
>;

pub type BandaiAndNamcoBoard = OneOf<
    BandaiFcg,
    Bandai74161,
    Bnrom,
    CnromProtect,
    Namco118,
>;

pub type IremAndCodemastersBoard = OneOf<
    IremG101,
    IremH3001,
    Irem74x161,
    IremTamS1,
    CodemastersBf909x,
>;

pub type JalecoBoard = OneOf<
    JalecoSs88006,
    JalecoJf05,
    JalecoJf11_14,
    JalecoJf13,
    JalecoJf17,
>;

pub type SunsoftAndQuattroBoard = OneOf<
    Sunsoft1,
    Sunsoft2,
    Sunsoft3,
    Sunsoft4,
    CodemastersBf9096,
>;

/// Any of the boards.
pub type Board = OneOf<
    NintendoBoard,
    BandaiAndNamcoBoard,
    IremAndCodemastersBoard,
    JalecoBoard,
    SunsoftAndQuattroBoard,
>;

pub type NintendoState = OneOfState<
    NromState,
    Mmc1State,
    Mmc2State,
    Mmc3State,
    Mapper037State,
>;

pub type BandaiAndNamcoState = OneOfState<
    BandaiFcgState,
    Bandai74161State,
    BnromState,
    CnromProtectState,
    Namco118State,
>;

pub type IremAndCodemastersState = OneOfState<
    IremG101State,
    IremH3001State,
    Irem74x161State,
    IremTamS1State,
    CodemastersBf909xState,
>;

pub type JalecoState = OneOfState<
    JalecoSs88006State,
    JalecoJf05State,
    JalecoJf11_14State,
    JalecoJf13State,
    JalecoJf17State,
>;

pub type SunsoftAndQuattroState = OneOfState<
    Sunsoft1State,
    Sunsoft2State,
    Sunsoft3State,
    Sunsoft4State,
    CodemastersBf9096State,
>;

/// The state of any of the boards.
pub type BoardState = OneOfState<
    NintendoState,
    BandaiAndNamcoState,
    IremAndCodemastersState,
    JalecoState,
    SunsoftAndQuattroState,
>;

/// Why no board could be made.
#[derive(Debug, Clone, Copy, PartialEq, Eq, Structural)]
pub enum BuildError {
    UnsupportedMapper(u16),
}

impl BuildError {
    /// The message as characters.
    pub open spec fn text(self) -> Seq<char> {
        match self {
            BuildError::UnsupportedMapper(id) => "unsupported mapper "@ + decimal(id as nat),
        }
    }

    /// A message for the user.
    pub fn message(&self) -> (text: String)
        ensures
            text@ == self.text(),
    {
        let mut text: String = String::new();
        match self {
            BuildError::UnsupportedMapper(id) => {
                text.append("unsupported mapper ");
                push_decimal(&mut text, *id as usize);
            }
        }
        assert(text@ =~= self.text());
        text
    }
}

/// The board of the first group that `id` names, at power-on.
pub open spec fn nintendo_of(cart: Cartridge) -> Option<NintendoState> {
    match cart.mapper_id {
        0 => Some(OneOfState::First(NromState::power_on(cart))),
        1 => Some(OneOfState::Second(Mmc1State::power_on(cart))),
        4 => Some(OneOfState::Fourth(Mmc3State::power_on(cart))),
        9 => Some(OneOfState::Third(Mmc2State::power_on(cart))),
        37 => Some(OneOfState::Fifth(Mapper037State::power_on(cart))),
        _ => None,
    }
}

fn build_nintendo(cart: Cartridge) -> (board: Option<NintendoBoard>)
    requires
        ram_fits(cart),
    ensures
        match (board, nintendo_of(cart)) {
            (Some(m), Some(s)) => m@ == s && (cart.prg_rom@.len() > 0 ==> NintendoBoard::ok(s)),
            (None, None) => true,
            _ => false,
        },
{
    match cart.mapper_id {
        0 => Some(OneOf::First(Nrom::new(cart))),
        1 => Some(OneOf::Second(Mmc1::new(cart))),
        4 => Some(OneOf::Fourth(Mmc3::new(cart))),
        9 => Some(OneOf::Third(Mmc2::new(cart))),
        37 => Some(OneOf::Fifth(Mapper037::new(cart))),
        _ => None,
    }
}

/// The board of the second group that `id` names, at power-on.
pub open spec fn bandai_and_namco_of(cart: Cartridge, db_board: Option<&str>) -> Option<BandaiAndNamcoState> {
    match cart.mapper_id {
        16 => Some(OneOfState::First(BandaiFcgState::power_on(cart, name_bytes(db_board)))),
        34 => Some(OneOfState::Third(BnromState::power_on(cart))),
        70 => Some(OneOfState::Second(Bandai74161State::power_on(cart, false))),
        88 => Some(OneOfState::Fifth(Namco118State::power_on(cart, Variant::Mapper88))),
        95 => Some(OneOfState::Fifth(Namco118State::power_on(cart, Variant::Mapper95))),
        152 => Some(OneOfState::Second(Bandai74161State::power_on(cart, true))),
        154 => Some(OneOfState::Fifth(Namco118State::power_on(cart, Variant::Mapper154))),
        159 => Some(OneOfState::First(BandaiFcgState::power_on(cart, name_bytes(db_board)))),
        185 => Some(OneOfState::Fourth(CnromProtectState::power_on(cart))),
        206 => Some(OneOfState::Fifth(Namco118State::power_on(cart, Variant::Mapper206))),
        _ => None,
    }
}

fn build_bandai_and_namco(cart: Cartridge, db_board: Option<&str>) -> (board: Option<BandaiAndNamcoBoard>)
    requires
        ram_fits(cart),
    ensures
        match (board, bandai_and_namco_of(cart, db_board)) {
            (Some(m), Some(s)) => m@ == s && BandaiAndNamcoBoard::ok(s),
            (None, None) => true,
            _ => false,
        },
{
    match cart.mapper_id {
        16 => Some(OneOf::First(BandaiFcg::new(cart, db_board))),
        34 => Some(OneOf::Third(Bnrom::new(cart))),
        70 => Some(OneOf::Second(Bandai74161::new_70(cart))),
        88 => Some(OneOf::Fifth(Namco118::new_88(cart))),
        95 => Some(OneOf::Fifth(Namco118::new_95(cart))),
        152 => Some(OneOf::Second(Bandai74161::new_152(cart))),
        154 => Some(OneOf::Fifth(Namco118::new_154(cart))),
        159 => Some(OneOf::First(BandaiFcg::new(cart, db_board))),
        185 => Some(OneOf::Fourth(CnromProtect::new(cart))),
        206 => Some(OneOf::Fifth(Namco118::new_206(cart))),
        _ => None,
    }
}

/// The board of the third group that `id` names, at power-on.
pub open spec fn irem_and_codemasters_of(cart: Cartridge) -> Option<IremAndCodemastersState> {
    match cart.mapper_id {
        32 => Some(OneOfState::First(IremG101State::power_on(cart))),
        65 => Some(OneOfState::Second(IremH3001State::power_on(cart))),
        71 => Some(OneOfState::Fifth(CodemastersBf909xState::power_on(cart))),
        78 => Some(OneOfState::Third(Irem74x161State::power_on(cart))),
        97 => Some(OneOfState::Fourth(IremTamS1State::power_on(cart))),
        _ => None,
    }
}

fn build_irem_and_codemasters(cart: Cartridge) -> (board: Option<IremAndCodemastersBoard>)
    requires
        ram_fits(cart),
    ensures
        match (board, irem_and_codemasters_of(cart)) {
            (Some(m), Some(s)) => m@ == s && IremAndCodemastersBoard::ok(s),
            (None, None) => true,
            _ => false,
        },
{
    match cart.mapper_id {
        32 => Some(OneOf::First(IremG101::new(cart))),
        65 => Some(OneOf::Second(IremH3001::new(cart))),
        71 => Some(OneOf::Fifth(CodemastersBf909x::new(cart))),
        78 => Some(OneOf::Third(Irem74x161::new(cart))),
        97 => Some(OneOf::Fourth(IremTamS1::new(cart))),
        _ => None,
    }
}

/// The board of the fourth group that `id` names, at power-on.
pub open spec fn jaleco_of(cart: Cartridge) -> Option<JalecoState> {
    match cart.mapper_id {
        18 => Some(OneOfState::First(JalecoSs88006State::power_on(cart))),
        72 => Some(OneOfState::Fifth(JalecoJf17State::power_on(cart, PrgWiring::SwitchableLow))),
        86 => Some(OneOfState::Fourth(JalecoJf13State::power_on(cart))),
        87 => Some(OneOfState::Second(JalecoJf05State::power_on(cart))),
        92 => Some(OneOfState::Fifth(JalecoJf17State::power_on(cart, PrgWiring::SwitchableHigh))),
        140 => Some(OneOfState::Third(JalecoJf11_14State::power_on(cart))),
        _ => None,
    }
}

fn build_jaleco(cart: Cartridge) -> (board: Option<JalecoBoard>)
    requires
        ram_fits(cart),
    ensures
        match (board, jaleco_of(cart)) {
            (Some(m), Some(s)) => m@ == s && JalecoBoard::ok(s),
            (None, None) => true,
            _ => false,
        },
{
    match cart.mapper_id {
        18 => Some(OneOf::First(JalecoSs88006::new(cart))),
        72 => Some(OneOf::Fifth(JalecoJf17::new_72(cart))),
        86 => Some(OneOf::Fourth(JalecoJf13::new(cart))),
        87 => Some(OneOf::Second(JalecoJf05::new(cart))),
        92 => Some(OneOf::Fifth(JalecoJf17::new_92(cart))),
        140 => Some(OneOf::Third(JalecoJf11_14::new(cart))),
        _ => None,
    }
}

/// The board of the fifth group that `id` names, at power-on.
pub open spec fn sunsoft_and_quattro_of(cart: Cartridge) -> Option<SunsoftAndQuattroState> {
    match cart.mapper_id {
        67 => Some(OneOfState::Third(Sunsoft3State::power_on(cart))),
        68 => Some(OneOfState::Fourth(Sunsoft4State::power_on(cart))),
        89 => Some(OneOfState::Second(Sunsoft2State::power_on(cart))),
        184 => Some(OneOfState::First(Sunsoft1State::power_on(cart))),
        232 => Some(OneOfState::Fifth(CodemastersBf9096State::power_on(cart))),
        _ => None,
    }
}

fn build_sunsoft_and_quattro(cart: Cartridge) -> (board: Option<SunsoftAndQuattroBoard>)
    requires
        ram_fits(cart),
    ensures
        match (board, sunsoft_and_quattro_of(cart)) {
            (Some(m), Some(s)) => m@ == s && SunsoftAndQuattroBoard::ok(s),
            (None, None) => true,
            _ => false,
        },
{
    match cart.mapper_id {
        67 => Some(OneOf::Third(Sunsoft3::new(cart))),
        68 => Some(OneOf::Fourth(Sunsoft4::new(cart))),
        89 => Some(OneOf::Second(Sunsoft2::new(cart))),
        184 => Some(OneOf::First(Sunsoft1::new(cart))),
        232 => Some(OneOf::Fifth(CodemastersBf9096::new(cart))),
        _ => None,
    }
}

/// A board that has a number and a name, and whose device is made elsewhere.
#[derive(Debug, Clone, Copy, PartialEq, Eq, Structural)]
pub enum OtherBoard {
    Axrom,
    Cnrom,
    Fds,
    Fme7,
    Gxrom,
    Mmc4,
    Mmc5,
    Namco163,
    Rambo1,
    TaitoTc0190,
    TaitoTc110,
    TaitoX1005,
    TaitoX1005Mapper207,
    TaitoX1017,
    Tc0690,
    Tqrom,
    Txsrom,
    Un1rom,
    Un1rom180,
    Uxrom,
    Vrc1,
    Vrc2_4,
    Vrc3,
    Vrc6A,
    Vrc6B,
    Vrc7,
}

/// The board made elsewhere that a mapper number names.
pub open spec fn other_board(id: u16) -> Option<OtherBoard> {
    match id {
        2 => Some(OtherBoard::Uxrom),
        3 => Some(OtherBoard::Cnrom),
        5 => Some(OtherBoard::Mmc5),
        7 => Some(OtherBoard::Axrom),
        10 => Some(OtherBoard::Mmc4),
        19 | 210 => Some(OtherBoard::Namco163),
        20 => Some(OtherBoard::Fds),
        21 | 22 | 23 | 25 => Some(OtherBoard::Vrc2_4),
        24 => Some(OtherBoard::Vrc6A),
        26 => Some(OtherBoard::Vrc6B),
        33 => Some(OtherBoard::TaitoTc0190),
        48 => Some(OtherBoard::Tc0690),
        64 => Some(OtherBoard::Rambo1),
        66 => Some(OtherBoard::Gxrom),
        69 => Some(OtherBoard::Fme7),
        73 => Some(OtherBoard::Vrc3),
        75 => Some(OtherBoard::Vrc1),
        80 => Some(OtherBoard::TaitoX1005),
        82 => Some(OtherBoard::TaitoX1017),
        85 => Some(OtherBoard::Vrc7),
        94 => Some(OtherBoard::Un1rom),
        118 => Some(OtherBoard::Txsrom),
        119 => Some(OtherBoard::Tqrom),
        180 => Some(OtherBoard::Un1rom180),
        189 => Some(OtherBoard::TaitoTc110),
        207 => Some(OtherBoard::TaitoX1005Mapper207),
        _ => None,
    }
}

/// Names the board made elsewhere.
fn name_other(id: u16) -> (board: Option<OtherBoard>)
    ensures
        board == other_board(id),
{
    match id {
        2 => Some(OtherBoard::Uxrom),
        3 => Some(OtherBoard::Cnrom),
        5 => Some(OtherBoard::Mmc5),
        7 => Some(OtherBoard::Axrom),
        10 => Some(OtherBoard::Mmc4),
        19 | 210 => Some(OtherBoard::Namco163),
        20 => Some(OtherBoard::Fds),
        21 | 22 | 23 | 25 => Some(OtherBoard::Vrc2_4),
        24 => Some(OtherBoard::Vrc6A),
        26 => Some(OtherBoard::Vrc6B),
        33 => Some(OtherBoard::TaitoTc0190),
        48 => Some(OtherBoard::Tc0690),
        64 => Some(OtherBoard::Rambo1),
        66 => Some(OtherBoard::Gxrom),
        69 => Some(OtherBoard::Fme7),
        73 => Some(OtherBoard::Vrc3),
        75 => Some(OtherBoard::Vrc1),
        80 => Some(OtherBoard::TaitoX1005),
        82 => Some(OtherBoard::TaitoX1017),
        85 => Some(OtherBoard::Vrc7),
        94 => Some(OtherBoard::Un1rom),
        118 => Some(OtherBoard::Txsrom),
        119 => Some(OtherBoard::Tqrom),
        180 => Some(OtherBoard::Un1rom180),
        189 => Some(OtherBoard::TaitoTc110),
        207 => Some(OtherBoard::TaitoX1005Mapper207),
        _ => None,
    }
}

/// What a cart's header asks for.
pub enum Built {
    /// One of the boards here, at power-on.
    Here(Board),
    /// A board made elsewhere, and the cart to make it from.
    Elsewhere(OtherBoard, Cartridge),
}

/// A [`Built`] with the board's state in place of the board.
pub enum BuiltState {
    Here(BoardState),
    Elsewhere(OtherBoard, Cartridge),
}

impl View for Built {
    type V = BuiltState;

    open spec fn view(&self) -> BuiltState {
        match self {
            Built::Here(board) => BuiltState::Here(board@),
            Built::Elsewhere(other, cart) => BuiltState::Elsewhere(*other, *cart),
        }
    }
}

/// The board here that the header names, at power-on.
pub open spec fn board_of(cart: Cartridge, db_board: Option<&str>) -> Option<BoardState> {
    if let Some(s) = nintendo_of(cart) {
        Some(OneOfState::First(s))
    } else if let Some(s) = bandai_and_namco_of(cart, db_board) {
        Some(OneOfState::Second(s))
    } else if let Some(s) = irem_and_codemasters_of(cart) {
        Some(OneOfState::Third(s))
    } else if let Some(s) = jaleco_of(cart) {
        Some(OneOfState::Fourth(s))
    } else if let Some(s) = sunsoft_and_quattro_of(cart) {
        Some(OneOfState::Fifth(s))
    } else {
        None
    }
}

/// What the header asks for: a board here, a board elsewhere, or a number that stands for none.
pub open spec fn built_of(cart: Cartridge, db_board: Option<&str>) -> Result<BuiltState, BuildError> {
    match (board_of(cart, db_board), other_board(cart.mapper_id)) {
        (Some(s), _) => Ok(BuiltState::Here(s)),
        (None, Some(other)) => Ok(BuiltState::Elsewhere(other, cart)),
        (None, None) => Err(BuildError::UnsupportedMapper(cart.mapper_id)),
    }
}

/// Makes the board here that the header names.
fn build_here(cart: Cartridge, db_board: Option<&str>) -> (board: Option<Board>)
    requires
        ram_fits(cart),
    ensures
        match (board, board_of(cart, db_board)) {
            (Some(m), Some(s)) => m@ == s && (cart.prg_rom@.len() > 0 ==> Board::ok(s)),
            (None, None) => true,
            _ => false,
        },
{
    match cart.mapper_id {
        0 | 1 | 4 | 9 | 37 => match build_nintendo(cart) {
            Some(board) => Some(OneOf::First(board)),
            None => None,
        },
        16 | 34 | 70 | 88 | 95 | 152 | 154 | 159 | 185 | 206 => match build_bandai_and_namco(cart, db_board) {
            Some(board) => Some(OneOf::Second(board)),
            None => None,
        },
        32 | 65 | 71 | 78 | 97 => match build_irem_and_codemasters(cart) {
            Some(board) => Some(OneOf::Third(board)),
            None => None,
        },
        18 | 72 | 86 | 87 | 92 | 140 => match build_jaleco(cart) {
            Some(board) => Some(OneOf::Fourth(board)),
            None => None,
        },
        67 | 68 | 89 | 184 | 232 => match build_sunsoft_and_quattro(cart) {
            Some(board) => Some(OneOf::Fifth(board)),
            None => None,
        },
        _ => None,
    }
}

/// Makes what the header asks for. `db_board` is the board name that a game database holds for the
/// cart's checksum `prg_chr_crc32`, where it holds one.
pub fn build(cart: Cartridge, db_board: Option<&str>) -> (result: Result<Built, BuildError>)
    requires
        ram_fits(cart),
    ensures
        match (result, built_of(cart, db_board)) {
            (Ok(built), Ok(s)) => built@ == s,
            (Err(e), Err(expected)) => e == expected,
            _ => false,
        },
        match result {
            Ok(Built::Here(board)) => cart.prg_rom@.len() > 0 ==> Board::ok(board@),
            _ => true,
        },
{
    let id: u16 = cart.mapper_id;
    if let Some(other) = name_other(id) {
        return Ok(Built::Elsewhere(other, cart));
    }
    match build_here(cart, db_board) {
        Some(board) => Ok(Built::Here(board)),
        None => Err(BuildError::UnsupportedMapper(id)),
    }
}

/// Whether a mapper number stands for a board, here or elsewhere.
pub open spec fn known_mapper(id: u16) -> bool {
    id <= 5 || id == 7 || 9 <= id <= 10 || id == 16 || 18 <= id <= 26 || 32 <= id <= 34
        || id == 37 || id == 48 || 64 <= id <= 73 || id == 75 || id == 78 || id == 80
        || id == 82 || 85 <= id <= 89 || id == 92 || 94 <= id <= 95 || id == 97
        || 118 <= id <= 119 || id == 140 || id == 152 || id == 154 || id == 159 || id == 180
        || 184 <= id <= 185 || id == 189 || 206 <= id <= 207 || id == 210 || id == 232
}

/// A cart is refused exactly where its mapper number stands for no board, and the refusal gives
/// that number.
pub proof fn lemma_refused_mappers(cart: Cartridge, db_board: Option<&str>)
    ensures
        built_of(cart, db_board) is Err <==> !known_mapper(cart.mapper_id),
        built_of(cart, db_board) matches Err(e) ==> e == BuildError::UnsupportedMapper(cart.mapper_id),
{
}

/// A game database only has a say in the boards of mapper 16.
pub proof fn lemma_database_only_names_fcg(cart: Cartridge, db_board: Option<&str>, other: Option<&str>)
    requires
        cart.mapper_id != 16,
    ensures
        built_of(cart, db_board) == built_of(cart, other),
{
}

} // verus!
