//! Natures, stats, and the battle-style preference tables.

use vstd::prelude::*;
use crate::enums::Enum;
use crate::repr::{spec_from_field, from_field, FromVeekun};
use crate::csv::{Error, FromCsvIncremental, MiscError, Record, RecordView, VeekunError};
use crate::moves::BattleStyle;

verus! {

/// A nature influences how stats grow, and flavor preferences.
#[derive(Clone, Copy, Debug, PartialEq, Eq, Structural, Hash)]
pub enum Nature {
    Hardy,
    Lonely,
    Brave,
    Adamant,
    Naughty,
    Bold,
    Docile,
    Relaxed,
    Impish,
    Lax,
    Timid,
    Hasty,
    Serious,
    Jolly,
    Naive,
    Modest,
    Mild,
    Quiet,
    Bashful,
    Rash,
    Calm,
    Gentle,
    Sassy,
    Careful,
    Quirky,
}

impl Enum for Nature {
    open spec fn spec_values() -> Seq<Nature> {
        let s = Seq::<Nature>::empty();
        let s = s.push(Nature::Hardy);
        let s = s.push(Nature::Lonely);
        let s = s.push(Nature::Brave);
        let s = s.push(Nature::Adamant);
        let s = s.push(Nature::Naughty);
        let s = s.push(Nature::Bold);
        let s = s.push(Nature::Docile);
        let s = s.push(Nature::Relaxed);
        let s = s.push(Nature::Impish);
        let s = s.push(Nature::Lax);
        let s = s.push(Nature::Timid);
        let s = s.push(Nature::Hasty);
        let s = s.push(Nature::Serious);
        let s = s.push(Nature::Jolly);
        let s = s.push(Nature::Naive);
        let s = s.push(Nature::Modest);
        let s = s.push(Nature::Mild);
        let s = s.push(Nature::Quiet);
        let s = s.push(Nature::Bashful);
        let s = s.push(Nature::Rash);
        let s = s.push(Nature::Calm);
        let s = s.push(Nature::Gentle);
        let s = s.push(Nature::Sassy);
        let s = s.push(Nature::Careful);
        let s = s.push(Nature::Quirky);
        s
    }

    fn values() -> (v: Vec<Nature>) {
        let mut v: Vec<Nature> = Vec::new();
        v.push(Nature::Hardy);
        v.push(Nature::Lonely);
        v.push(Nature::Brave);
        v.push(Nature::Adamant);
        v.push(Nature::Naughty);
        v.push(Nature::Bold);
        v.push(Nature::Docile);
        v.push(Nature::Relaxed);
        v.push(Nature::Impish);
        v.push(Nature::Lax);
        v.push(Nature::Timid);
        v.push(Nature::Hasty);
        v.push(Nature::Serious);
        v.push(Nature::Jolly);
        v.push(Nature::Naive);
        v.push(Nature::Modest);
        v.push(Nature::Mild);
        v.push(Nature::Quiet);
        v.push(Nature::Bashful);
        v.push(Nature::Rash);
        v.push(Nature::Calm);
        v.push(Nature::Gentle);
        v.push(Nature::Sassy);
        v.push(Nature::Careful);
        v.push(Nature::Quirky);
        v
    }
    open spec fn spec_repr(self) -> i32 {
        match self {
            Nature::Hardy => 0,
            Nature::Lonely => 1,
            Nature::Brave => 2,
            Nature::Adamant => 3,
            Nature::Naughty => 4,
            Nature::Bold => 5,
            Nature::Docile => 6,
            Nature::Relaxed => 7,
            Nature::Impish => 8,
            Nature::Lax => 9,
            Nature::Timid => 10,
            Nature::Hasty => 11,
            Nature::Serious => 12,
            Nature::Jolly => 13,
            Nature::Naive => 14,
            Nature::Modest => 15,
            Nature::Mild => 16,
            Nature::Quiet => 17,
            Nature::Bashful => 18,
            Nature::Rash => 19,
            Nature::Calm => 20,
            Nature::Gentle => 21,
            Nature::Sassy => 22,
            Nature::Careful => 23,
            Nature::Quirky => 24,
        }
    }

    open spec fn spec_from_repr(code: i32) -> Option<Nature> {
        match code {
            0 => Some(Nature::Hardy),
            1 => Some(Nature::Lonely),
            2 => Some(Nature::Brave),
            3 => Some(Nature::Adamant),
            4 => Some(Nature::Naughty),
            5 => Some(Nature::Bold),
            6 => Some(Nature::Docile),
            7 => Some(Nature::Relaxed),
            8 => Some(Nature::Impish),
            9 => Some(Nature::Lax),
            10 => Some(Nature::Timid),
            11 => Some(Nature::Hasty),
            12 => Some(Nature::Serious),
            13 => Some(Nature::Jolly),
            14 => Some(Nature::Naive),
            15 => Some(Nature::Modest),
            16 => Some(Nature::Mild),
            17 => Some(Nature::Quiet),
            18 => Some(Nature::Bashful),
            19 => Some(Nature::Rash),
            20 => Some(Nature::Calm),
            21 => Some(Nature::Gentle),
            22 => Some(Nature::Sassy),
            23 => Some(Nature::Careful),
            24 => Some(Nature::Quirky),
            _ => None,
        }
    }

    open spec fn spec_count() -> int {
        25
    }

    fn repr(self) -> (c: i32) {
        match self {
            Nature::Hardy => 0,
            Nature::Lonely => 1,
            Nature::Brave => 2,
            Nature::Adamant => 3,
            Nature::Naughty => 4,
            Nature::Bold => 5,
            Nature::Docile => 6,
            Nature::Relaxed => 7,
            Nature::Impish => 8,
            Nature::Lax => 9,
            Nature::Timid => 10,
            Nature::Hasty => 11,
            Nature::Serious => 12,
            Nature::Jolly => 13,
            Nature::Naive => 14,
            Nature::Modest => 15,
            Nature::Mild => 16,
            Nature::Quiet => 17,
            Nature::Bashful => 18,
            Nature::Rash => 19,
            Nature::Calm => 20,
            Nature::Gentle => 21,
            Nature::Sassy => 22,
            Nature::Careful => 23,
            Nature::Quirky => 24,
        }
    }

    fn from_repr(code: i32) -> (r: Option<Nature>) {
        match code {
            0 => Some(Nature::Hardy),
            1 => Some(Nature::Lonely),
            2 => Some(Nature::Brave),
            3 => Some(Nature::Adamant),
            4 => Some(Nature::Naughty),
            5 => Some(Nature::Bold),
            6 => Some(Nature::Docile),
            7 => Some(Nature::Relaxed),
            8 => Some(Nature::Impish),
            9 => Some(Nature::Lax),
            10 => Some(Nature::Timid),
            11 => Some(Nature::Hasty),
            12 => Some(Nature::Serious),
            13 => Some(Nature::Jolly),
            14 => Some(Nature::Naive),
            15 => Some(Nature::Modest),
            16 => Some(Nature::Mild),
            17 => Some(Nature::Quiet),
            18 => Some(Nature::Bashful),
            19 => Some(Nature::Rash),
            20 => Some(Nature::Calm),
            21 => Some(Nature::Gentle),
            22 => Some(Nature::Sassy),
            23 => Some(Nature::Careful),
            24 => Some(Nature::Quirky),
            _ => None,
        }
    }

    fn count() -> (n: usize) {
        25
    }

    proof fn lemma_values_count() {
    }

    proof fn lemma_round_trip(self) {
    }
}

impl Default for Nature {
    fn default() -> (r: Self)
        ensures
            r == Nature::Hardy,
    {
        Nature::Hardy
    }
}
impl FromVeekun for Nature {
    type Intermediate = u8;

    open spec fn spec_from_veekun(value: u8) -> Option<Self> {
        match value {
            1 => Some(Nature::Hardy),
            2 => Some(Nature::Bold),
            3 => Some(Nature::Modest),
            4 => Some(Nature::Calm),
            5 => Some(Nature::Timid),
            6 => Some(Nature::Lonely),
            7 => Some(Nature::Docile),
            8 => Some(Nature::Mild),
            9 => Some(Nature::Gentle),
            10 => Some(Nature::Hasty),
            11 => Some(Nature::Adamant),
            12 => Some(Nature::Impish),
            13 => Some(Nature::Bashful),
            14 => Some(Nature::Careful),
            15 => Some(Nature::Rash),
            16 => Some(Nature::Jolly),
            17 => Some(Nature::Naughty),
            18 => Some(Nature::Lax),
            19 => Some(Nature::Quirky),
            20 => Some(Nature::Naive),
            21 => Some(Nature::Brave),
            22 => Some(Nature::Relaxed),
            23 => Some(Nature::Quiet),
            24 => Some(Nature::Sassy),
            25 => Some(Nature::Serious),
            _ => None,
        }
    }

    fn from_veekun(value: u8) -> (r: Option<Self>) {
        match value {
            1 => Some(Nature::Hardy),
            2 => Some(Nature::Bold),
            3 => Some(Nature::Modest),
            4 => Some(Nature::Calm),
            5 => Some(Nature::Timid),
            6 => Some(Nature::Lonely),
            7 => Some(Nature::Docile),
            8 => Some(Nature::Mild),
            9 => Some(Nature::Gentle),
            10 => Some(Nature::Hasty),
            11 => Some(Nature::Adamant),
            12 => Some(Nature::Impish),
            13 => Some(Nature::Bashful),
            14 => Some(Nature::Careful),
            15 => Some(Nature::Rash),
            16 => Some(Nature::Jolly),
            17 => Some(Nature::Naughty),
            18 => Some(Nature::Lax),
            19 => Some(Nature::Quirky),
            20 => Some(Nature::Naive),
            21 => Some(Nature::Brave),
            22 => Some(Nature::Relaxed),
            23 => Some(Nature::Quiet),
            24 => Some(Nature::Sassy),
            25 => Some(Nature::Serious),
            _ => None,
        }
    }
}
/// A numeric attribute of a Pokémon affecting battle mechanics.
#[derive(Clone, Copy, Debug, PartialEq, Eq, Structural, Hash)]
pub enum Stat {
    HP,
    Attack,
    Defense,
    Speed,
    SpecialAttack,
    SpecialDefense,
    Accuracy,
    Evasion,
}

impl Enum for Stat {
    open spec fn spec_values() -> Seq<Stat> {
        let s = Seq::<Stat>::empty();
        let s = s.push(Stat::HP);
        let s = s.push(Stat::Attack);
        let s = s.push(Stat::Defense);
        let s = s.push(Stat::Speed);
        let s = s.push(Stat::SpecialAttack);
        let s = s.push(Stat::SpecialDefense);
        let s = s.push(Stat::Accuracy);
        let s = s.push(Stat::Evasion);
        s
    }

    fn values() -> (v: Vec<Stat>) {
        let mut v: Vec<Stat> = Vec::new();
        v.push(Stat::HP);
        v.push(Stat::Attack);
        v.push(Stat::Defense);
        v.push(Stat::Speed);
        v.push(Stat::SpecialAttack);
        v.push(Stat::SpecialDefense);
        v.push(Stat::Accuracy);
        v.push(Stat::Evasion);
        v
    }
    open spec fn spec_repr(self) -> i32 {
        match self {
            Stat::HP => (-1) as i32,
            Stat::Attack => 0,
            Stat::Defense => 1,
            Stat::Speed => 2,
            Stat::SpecialAttack => 3,
            Stat::SpecialDefense => 4,
            Stat::Accuracy => 5,
            Stat::Evasion => 6,
        }
    }

    open spec fn spec_from_repr(code: i32) -> Option<Stat> {
        match code {
            -1 => Some(Stat::HP),
            0 => Some(Stat::Attack),
            1 => Some(Stat::Defense),
            2 => Some(Stat::Speed),
            3 => Some(Stat::SpecialAttack),
            4 => Some(Stat::SpecialDefense),
            5 => Some(Stat::Accuracy),
            6 => Some(Stat::Evasion),
            _ => None,
        }
    }

    open spec fn spec_count() -> int {
        8
    }

    fn repr(self) -> (c: i32) {
        match self {
            Stat::HP => -1,
            Stat::Attack => 0,
            Stat::Defense => 1,
            Stat::Speed => 2,
            Stat::SpecialAttack => 3,
            Stat::SpecialDefense => 4,
            Stat::Accuracy => 5,
            Stat::Evasion => 6,
        }
    }

    fn from_repr(code: i32) -> (r: Option<Stat>) {
        match code {
            -1 => Some(Stat::HP),
            0 => Some(Stat::Attack),
            1 => Some(Stat::Defense),
            2 => Some(Stat::Speed),
            3 => Some(Stat::SpecialAttack),
            4 => Some(Stat::SpecialDefense),
            5 => Some(Stat::Accuracy),
            6 => Some(Stat::Evasion),
            _ => None,
        }
    }

    fn count() -> (n: usize) {
        8
    }

    proof fn lemma_values_count() {
    }

    proof fn lemma_round_trip(self) {
    }
}
impl FromVeekun for Stat {
    type Intermediate = u8;

    open spec fn spec_from_veekun(value: u8) -> Option<Self> {
        match value {
            1 => Some(Stat::HP),
            2 => Some(Stat::Attack),
            3 => Some(Stat::Defense),
            4 => Some(Stat::SpecialAttack),
            5 => Some(Stat::SpecialDefense),
            6 => Some(Stat::Speed),
            7 => Some(Stat::Accuracy),
            8 => Some(Stat::Evasion),
            _ => None,
        }
    }

    fn from_veekun(value: u8) -> (r: Option<Self>) {
        match value {
            1 => Some(Stat::HP),
            2 => Some(Stat::Attack),
            3 => Some(Stat::Defense),
            4 => Some(Stat::SpecialAttack),
            5 => Some(Stat::SpecialDefense),
            6 => Some(Stat::Speed),
            7 => Some(Stat::Accuracy),
            8 => Some(Stat::Evasion),
            _ => None,
        }
    }
}

impl Nature {
    /// Which flavor is disliked, if any: the five neutral natures
    /// dislike none, and every other nature dislikes the flavor of the
    /// stat it decreases.
    pub open spec fn spec_disliked(self) -> Option<crate::items::Flavor> {
        let x = self.spec_repr();
        if x % 6 == 0 {
            None
        } else {
            crate::items::Flavor::spec_from_repr((x % 5) as i32)
        }
    }

    /// Get which flavor is disliked, if any.
    pub fn disliked(self) -> (r: Option<crate::items::Flavor>)
        ensures
            r == self.spec_disliked(),
    {
        let x = self.repr();
        if x % 6 == 0 {
            None
        } else {
            crate::items::Flavor::from_repr(x % 5)
        }
    }

    /// Which stat is increased, if any: the five neutral natures
    /// increase none.
    pub open spec fn spec_increased(self) -> Option<Stat> {
        let x = self.spec_repr();
        if x % 6 == 0 {
            None
        } else {
            Stat::spec_from_repr((x / 5) as i32)
        }
    }

    /// Get which stat is increased, if any.
    pub fn increased(self) -> (r: Option<Stat>)
        ensures
            r == self.spec_increased(),
    {
        let x = self.repr();
        if x % 6 == 0 {
            None
        } else {
            Stat::from_repr(x / 5)
        }
    }

    /// Which stat is decreased, if any.
    pub open spec fn spec_decreased(self) -> Option<Stat> {
        let x = self.spec_repr();
        if x % 6 == 0 {
            None
        } else {
            Stat::spec_from_repr((x % 5) as i32)
        }
    }

    /// Get which stat is decreased, if any.
    pub fn decreased(self) -> (r: Option<Stat>)
        ensures
            r == self.spec_decreased(),
    {
        let x = self.repr();
        if x % 6 == 0 {
            None
        } else {
            Stat::from_repr(x % 5)
        }
    }
}


/// The total number of natures.
pub const NATURE_COUNT: usize = 25;

/// The validation message for preference rows whose weights do not
/// complete to a full hundred.
pub const SUM_MESSAGE: &'static str = "Preferences must sum to 100.";

/// Every nature's code lies in the table range.
pub proof fn lemma_nature_repr_range(n: Nature)
    ensures
        0 <= n.spec_repr() < 25,
{
}

/// Half of the table determining Battle Palace behavior: per nature, the
/// percent weights of picking an attack or a defense move.
pub struct HalfPalaceTable {
    pub attack: Vec<u8>,
    pub defense: Vec<u8>,
}

/// The mathematical content of a half palace table.
#[verifier::ext_equal]
pub struct HalfPalaceView {
    pub attack: Seq<u8>,
    pub defense: Seq<u8>,
}

impl View for HalfPalaceTable {
    type V = HalfPalaceView;

    open spec fn view(&self) -> HalfPalaceView {
        HalfPalaceView { attack: self.attack@, defense: self.defense@ }
    }
}

impl HalfPalaceTable {
    /// A half table has one attack and one defense weight per nature.
    pub open spec fn spec_wf(v: HalfPalaceView) -> bool {
        v.attack.len() == 25 && v.defense.len() == 25
    }

    /// The style picked for a roll: strictly below the attack weight
    /// picks attack, then strictly below attack plus defense picks
    /// defense, and anything above picks support.
    pub open spec fn spec_pick(v: HalfPalaceView, roll: u8, nature: Nature) -> BattleStyle {
        let i = nature.spec_repr() as int;
        if roll < v.attack[i] {
            BattleStyle::Attack
        } else if roll < v.attack[i] + v.defense[i] {
            BattleStyle::Defense
        } else {
            BattleStyle::Support
        }
    }

    /// Select a battle style from a percent roll and the weights for the
    /// given nature.
    pub fn pick_style(&self, roll: u8, nature: Nature) -> (r: BattleStyle)
        requires
            Self::spec_wf(self@),
        ensures
            r == Self::spec_pick(self@, roll, nature),
    {
        proof {
            lemma_nature_repr_range(nature);
        }
        let i: usize = nature.repr() as usize;
        let a: u8 = self.attack[i];
        let d: u8 = self.defense[i];
        if (roll as u16) < (a as u16) {
            BattleStyle::Attack
        } else if (roll as u16) < (a as u16) + (d as u16) {
            BattleStyle::Defense
        } else {
            BattleStyle::Support
        }
    }
}

/// Table of weights determining Battle Palace behavior: one half for
/// when HP is below half, one for otherwise.
pub struct PalaceTable {
    pub low: HalfPalaceTable,
    pub high: HalfPalaceTable,
}

/// The mathematical content of a palace table.
#[verifier::ext_equal]
pub struct PalaceView {
    pub low: HalfPalaceView,
    pub high: HalfPalaceView,
}

impl View for PalaceTable {
    type V = PalaceView;

    open spec fn view(&self) -> PalaceView {
        PalaceView { low: self.low@, high: self.high@ }
    }
}

impl PalaceTable {
    /// Both halves are dense over the natures.
    pub open spec fn spec_wf(v: PalaceView) -> bool {
        HalfPalaceTable::spec_wf(v.low) && HalfPalaceTable::spec_wf(v.high)
    }

    /// Every weight of a fresh table is zero.
    pub fn new() -> (r: Self)
        ensures
            r@ == Self::spec_empty(),
            Self::spec_wf(r@),
    {
        Self::from_empty_csv()
    }
}

/// A vector of one zero weight per nature.
fn zero_weights() -> (r: Vec<u8>)
    ensures
        r@ == Seq::new(25, |i: int| 0u8),
{
    let mut v: Vec<u8> = Vec::new();
    let mut i: usize = 0;
    while i < 25
        invariant
            i <= 25,
            v@.len() == i,
            forall|j: int| 0 <= j < i ==> v@[j] == 0u8,
        decreases 25 - i,
    {
        v.push(0);
        i = i + 1;
    }
    proof {
        assert(v@ =~= Seq::new(25, |i: int| 0u8));
    }
    v
}

impl FromCsvIncremental for PalaceTable {
    open spec fn spec_empty() -> PalaceView {
        PalaceView {
            low: HalfPalaceView {
                attack: Seq::new(25, |i: int| 0u8),
                defense: Seq::new(25, |i: int| 0u8),
            },
            high: HalfPalaceView {
                attack: Seq::new(25, |i: int| 0u8),
                defense: Seq::new(25, |i: int| 0u8),
            },
        }
    }

    open spec fn wf_state(v: PalaceView) -> bool {
        Self::spec_wf(v)
    }

    open spec fn spec_load(state: PalaceView, rec: RecordView) -> (PalaceView, Option<Error>) {
        match spec_from_field::<Nature>(rec, 0) {
            Err(e) => (state, Some(e)),
            Ok(nature) => match spec_from_field::<BattleStyle>(rec, 1) {
                Err(e) => (state, Some(e)),
                Ok(style) => match spec_from_field::<u8>(rec, 2) {
                    Err(e) => (state, Some(e)),
                    Ok(low) => match spec_from_field::<u8>(rec, 3) {
                        Err(e) => (state, Some(e)),
                        Ok(high) => {
                            let i = nature.spec_repr();
                            match style {
                                BattleStyle::Attack => (
                                    PalaceView {
                                        low: HalfPalaceView {
                                            attack: state.low.attack.update(i as int, low),
                                            defense: state.low.defense,
                                        },
                                        high: HalfPalaceView {
                                            attack: state.high.attack.update(i as int, high),
                                            defense: state.high.defense,
                                        },
                                    },
                                    None,
                                ),
                                BattleStyle::Defense => (
                                    PalaceView {
                                        low: HalfPalaceView {
                                            attack: state.low.attack,
                                            defense: state.low.defense.update(i as int, low),
                                        },
                                        high: HalfPalaceView {
                                            attack: state.high.attack,
                                            defense: state.high.defense.update(i as int, high),
                                        },
                                    },
                                    None,
                                ),
                                BattleStyle::Support => {
                                    if state.low.attack[i as int] + state.low.defense[i as int]
                                        + low != 100 {
                                        (
                                            state,
                                            Some(
                                                Error::Veekun {
                                                    line: rec.line,
                                                    field: 2,
                                                    error: VeekunError::Misc(
                                                        MiscError(SUM_MESSAGE),
                                                    ),
                                                },
                                            ),
                                        )
                                    } else if state.high.attack[i as int] + state.high.defense[
                                        i as int
                                    ] + high != 100 {
                                        (
                                            state,
                                            Some(
                                                Error::Veekun {
                                                    line: rec.line,
                                                    field: 3,
                                                    error: VeekunError::Misc(
                                                        MiscError(SUM_MESSAGE),
                                                    ),
                                                },
                                            ),
                                        )
                                    } else {
                                        (state, None)
                                    }
                                },
                            }
                        },
                    },
                },
            },
        }
    }

    fn from_empty_csv() -> (r: Self) {
        let r = PalaceTable {
            low: HalfPalaceTable { attack: zero_weights(), defense: zero_weights() },
            high: HalfPalaceTable { attack: zero_weights(), defense: zero_weights() },
        };
        r
    }

    fn load_csv_record(&mut self, record: &Record) -> (r: Result<(), Error>) {
        let nature: Nature = match from_field::<Nature>(record, 0) {
            Ok(t) => t,
            Err(e) => {
                return Err(e);
            },
        };
        let style: BattleStyle = match from_field::<BattleStyle>(record, 1) {
            Ok(t) => t,
            Err(e) => {
                return Err(e);
            },
        };
        let low: u8 = match from_field::<u8>(record, 2) {
            Ok(t) => t,
            Err(e) => {
                return Err(e);
            },
        };
        let high: u8 = match from_field::<u8>(record, 3) {
            Ok(t) => t,
            Err(e) => {
                return Err(e);
            },
        };
        proof {
            lemma_nature_repr_range(nature);
        }
        let i: usize = nature.repr() as usize;
        match style {
            BattleStyle::Attack => {
                self.low.attack.set(i, low);
                self.high.attack.set(i, high);
                Ok(())
            },
            BattleStyle::Defense => {
                self.low.defense.set(i, low);
                self.high.defense.set(i, high);
                Ok(())
            },
            BattleStyle::Support => {
                let low_attack: u16 = self.low.attack[i] as u16;
                let low_defense: u16 = self.low.defense[i] as u16;
                let high_attack: u16 = self.high.attack[i] as u16;
                let high_defense: u16 = self.high.defense[i] as u16;
                if low_attack + low_defense + (low as u16) != 100 {
                    return Err(
                        Error::Veekun {
                            line: record.line,
                            field: 2,
                            error: VeekunError::Misc(MiscError(SUM_MESSAGE)),
                        },
                    );
                }
                if high_attack + high_defense + (high as u16) != 100 {
                    return Err(
                        Error::Veekun {
                            line: record.line,
                            field: 3,
                            error: VeekunError::Misc(MiscError(SUM_MESSAGE)),
                        },
                    );
                }
                Ok(())
            },
        }
    }
}

} // verus!
