//! Pokémon, species, and their assembled records.

use vstd::prelude::*;
use std::collections::HashMap;
use crate::abilities::Ability;
use crate::csv::{Error, FromCsvIncremental, MiscError, Record, RecordView, VeekunError};
use crate::enums::Enum;
use crate::moves::{LearnMethod, MoveId};
use crate::natures::Stat;
use crate::repr::{
    spec_from_field,
    spec_from_option_field,
    spec_from_veekun_option_field,
    spec_pascal_case,
    from_field,
    from_option_field,
    from_veekun_option_field,
    to_pascal_case,
    FromVeekun,
    VeekunOption,
    VeekunString,
};
use crate::types::Type;
use crate::versions::{Generation, VersionGroup};
use vstd::std_specs::cmp::PartialEqSpec;

verus! {

broadcast use vstd::std_specs::hash::group_hash_axioms;

/// The groups of Pokémon which can interbreed.
#[derive(Clone, Copy, Debug, PartialEq, Eq, Structural, Hash)]
pub enum EggGroup {
    Monster,
    Water1,
    Bug,
    Flying,
    Ground,
    Fairy,
    Plant,
    Humanshape,
    Water3,
    Mineral,
    Indeterminate,
    Water2,
    Ditto,
    Dragon,
    NoEggs,
}

impl Enum for EggGroup {
    open spec fn spec_values() -> Seq<EggGroup> {
        let s = Seq::<EggGroup>::empty();
        let s = s.push(EggGroup::Monster);
        let s = s.push(EggGroup::Water1);
        let s = s.push(EggGroup::Bug);
        let s = s.push(EggGroup::Flying);
        let s = s.push(EggGroup::Ground);
        let s = s.push(EggGroup::Fairy);
        let s = s.push(EggGroup::Plant);
        let s = s.push(EggGroup::Humanshape);
        let s = s.push(EggGroup::Water3);
        let s = s.push(EggGroup::Mineral);
        let s = s.push(EggGroup::Indeterminate);
        let s = s.push(EggGroup::Water2);
        let s = s.push(EggGroup::Ditto);
        let s = s.push(EggGroup::Dragon);
        let s = s.push(EggGroup::NoEggs);
        s
    }

    fn values() -> (v: Vec<EggGroup>) {
        let mut v: Vec<EggGroup> = Vec::new();
        v.push(EggGroup::Monster);
        v.push(EggGroup::Water1);
        v.push(EggGroup::Bug);
        v.push(EggGroup::Flying);
        v.push(EggGroup::Ground);
        v.push(EggGroup::Fairy);
        v.push(EggGroup::Plant);
        v.push(EggGroup::Humanshape);
        v.push(EggGroup::Water3);
        v.push(EggGroup::Mineral);
        v.push(EggGroup::Indeterminate);
        v.push(EggGroup::Water2);
        v.push(EggGroup::Ditto);
        v.push(EggGroup::Dragon);
        v.push(EggGroup::NoEggs);
        v
    }
    open spec fn spec_repr(self) -> i32 {
        match self {
            EggGroup::Monster => 1,
            EggGroup::Water1 => 2,
            EggGroup::Bug => 3,
            EggGroup::Flying => 4,
            EggGroup::Ground => 5,
            EggGroup::Fairy => 6,
            EggGroup::Plant => 7,
            EggGroup::Humanshape => 8,
            EggGroup::Water3 => 9,
            EggGroup::Mineral => 10,
            EggGroup::Indeterminate => 11,
            EggGroup::Water2 => 12,
            EggGroup::Ditto => 13,
            EggGroup::Dragon => 14,
            EggGroup::NoEggs => 15,
        }
    }

    open spec fn spec_from_repr(code: i32) -> Option<EggGroup> {
        match code {
            1 => Some(EggGroup::Monster),
            2 => Some(EggGroup::Water1),
            3 => Some(EggGroup::Bug),
            4 => Some(EggGroup::Flying),
            5 => Some(EggGroup::Ground),
            6 => Some(EggGroup::Fairy),
            7 => Some(EggGroup::Plant),
            8 => Some(EggGroup::Humanshape),
            9 => Some(EggGroup::Water3),
            10 => Some(EggGroup::Mineral),
            11 => Some(EggGroup::Indeterminate),
            12 => Some(EggGroup::Water2),
            13 => Some(EggGroup::Ditto),
            14 => Some(EggGroup::Dragon),
            15 => Some(EggGroup::NoEggs),
            _ => None,
        }
    }

    open spec fn spec_count() -> int {
        15
    }

    fn repr(self) -> (c: i32) {
        match self {
            EggGroup::Monster => 1,
            EggGroup::Water1 => 2,
            EggGroup::Bug => 3,
            EggGroup::Flying => 4,
            EggGroup::Ground => 5,
            EggGroup::Fairy => 6,
            EggGroup::Plant => 7,
            EggGroup::Humanshape => 8,
            EggGroup::Water3 => 9,
            EggGroup::Mineral => 10,
            EggGroup::Indeterminate => 11,
            EggGroup::Water2 => 12,
            EggGroup::Ditto => 13,
            EggGroup::Dragon => 14,
            EggGroup::NoEggs => 15,
        }
    }

    fn from_repr(code: i32) -> (r: Option<EggGroup>) {
        match code {
            1 => Some(EggGroup::Monster),
            2 => Some(EggGroup::Water1),
            3 => Some(EggGroup::Bug),
            4 => Some(EggGroup::Flying),
            5 => Some(EggGroup::Ground),
            6 => Some(EggGroup::Fairy),
            7 => Some(EggGroup::Plant),
            8 => Some(EggGroup::Humanshape),
            9 => Some(EggGroup::Water3),
            10 => Some(EggGroup::Mineral),
            11 => Some(EggGroup::Indeterminate),
            12 => Some(EggGroup::Water2),
            13 => Some(EggGroup::Ditto),
            14 => Some(EggGroup::Dragon),
            15 => Some(EggGroup::NoEggs),
            _ => None,
        }
    }

    fn count() -> (n: usize) {
        15
    }

    proof fn lemma_values_count() {
    }

    proof fn lemma_round_trip(self) {
    }
}

impl Default for EggGroup {
    fn default() -> (r: Self)
        ensures
            r == EggGroup::NoEggs,
    {
        EggGroup::NoEggs
    }
}

impl FromVeekun for EggGroup {
    type Intermediate = u8;

    open spec fn spec_from_veekun(value: u8) -> Option<Self> {
        Self::spec_from_repr(value as i32)
    }

    fn from_veekun(value: u8) -> (r: Option<Self>) {
        Self::from_repr(value as i32)
    }
}
/// The method by which a Pokémon evolves.
#[derive(Clone, Copy, Debug, PartialEq, Eq, Structural, Hash)]
pub enum EvolutionTrigger {
    LevelUp,
    Trade,
    UseItem,
    Shed,
}

impl Enum for EvolutionTrigger {
    open spec fn spec_values() -> Seq<EvolutionTrigger> {
        let s = Seq::<EvolutionTrigger>::empty();
        let s = s.push(EvolutionTrigger::LevelUp);
        let s = s.push(EvolutionTrigger::Trade);
        let s = s.push(EvolutionTrigger::UseItem);
        let s = s.push(EvolutionTrigger::Shed);
        s
    }

    fn values() -> (v: Vec<EvolutionTrigger>) {
        let mut v: Vec<EvolutionTrigger> = Vec::new();
        v.push(EvolutionTrigger::LevelUp);
        v.push(EvolutionTrigger::Trade);
        v.push(EvolutionTrigger::UseItem);
        v.push(EvolutionTrigger::Shed);
        v
    }
    open spec fn spec_repr(self) -> i32 {
        match self {
            EvolutionTrigger::LevelUp => 1,
            EvolutionTrigger::Trade => 2,
            EvolutionTrigger::UseItem => 3,
            EvolutionTrigger::Shed => 4,
        }
    }

    open spec fn spec_from_repr(code: i32) -> Option<EvolutionTrigger> {
        match code {
            1 => Some(EvolutionTrigger::LevelUp),
            2 => Some(EvolutionTrigger::Trade),
            3 => Some(EvolutionTrigger::UseItem),
            4 => Some(EvolutionTrigger::Shed),
            _ => None,
        }
    }

    open spec fn spec_count() -> int {
        4
    }

    fn repr(self) -> (c: i32) {
        match self {
            EvolutionTrigger::LevelUp => 1,
            EvolutionTrigger::Trade => 2,
            EvolutionTrigger::UseItem => 3,
            EvolutionTrigger::Shed => 4,
        }
    }

    fn from_repr(code: i32) -> (r: Option<EvolutionTrigger>) {
        match code {
            1 => Some(EvolutionTrigger::LevelUp),
            2 => Some(EvolutionTrigger::Trade),
            3 => Some(EvolutionTrigger::UseItem),
            4 => Some(EvolutionTrigger::Shed),
            _ => None,
        }
    }

    fn count() -> (n: usize) {
        4
    }

    proof fn lemma_values_count() {
    }

    proof fn lemma_round_trip(self) {
    }
}

impl Default for EvolutionTrigger {
    fn default() -> (r: Self)
        ensures
            r == EvolutionTrigger::Trade,
    {
        EvolutionTrigger::Trade
    }
}

impl FromVeekun for EvolutionTrigger {
    type Intermediate = u8;

    open spec fn spec_from_veekun(value: u8) -> Option<Self> {
        Self::spec_from_repr(value as i32)
    }

    fn from_veekun(value: u8) -> (r: Option<Self>) {
        Self::from_repr(value as i32)
    }
}
/// Gender of a Pokémon.
#[derive(Clone, Copy, Debug, PartialEq, Eq, Structural, Hash)]
pub enum Gender {
    Female,
    Male,
    Genderless,
}

impl Enum for Gender {
    open spec fn spec_values() -> Seq<Gender> {
        let s = Seq::<Gender>::empty();
        let s = s.push(Gender::Female);
        let s = s.push(Gender::Male);
        let s = s.push(Gender::Genderless);
        s
    }

    fn values() -> (v: Vec<Gender>) {
        let mut v: Vec<Gender> = Vec::new();
        v.push(Gender::Female);
        v.push(Gender::Male);
        v.push(Gender::Genderless);
        v
    }
    open spec fn spec_repr(self) -> i32 {
        match self {
            Gender::Female => 1,
            Gender::Male => 2,
            Gender::Genderless => 3,
        }
    }

    open spec fn spec_from_repr(code: i32) -> Option<Gender> {
        match code {
            1 => Some(Gender::Female),
            2 => Some(Gender::Male),
            3 => Some(Gender::Genderless),
            _ => None,
        }
    }

    open spec fn spec_count() -> int {
        3
    }

    fn repr(self) -> (c: i32) {
        match self {
            Gender::Female => 1,
            Gender::Male => 2,
            Gender::Genderless => 3,
        }
    }

    fn from_repr(code: i32) -> (r: Option<Gender>) {
        match code {
            1 => Some(Gender::Female),
            2 => Some(Gender::Male),
            3 => Some(Gender::Genderless),
            _ => None,
        }
    }

    fn count() -> (n: usize) {
        3
    }

    proof fn lemma_values_count() {
    }

    proof fn lemma_round_trip(self) {
    }
}

impl Default for Gender {
    fn default() -> (r: Self)
        ensures
            r == Gender::Genderless,
    {
        Gender::Genderless
    }
}

impl FromVeekun for Gender {
    type Intermediate = u8;

    open spec fn spec_from_veekun(value: u8) -> Option<Self> {
        Self::spec_from_repr(value as i32)
    }

    fn from_veekun(value: u8) -> (r: Option<Self>) {
        Self::from_repr(value as i32)
    }
}

/// Either one or two elements.
#[derive(Clone, Copy, Debug)]
pub enum OneOrTwo<T: Copy> {
    One(T),
    Two(T, T),
}

impl<T: Copy> OneOrTwo<T> {
    /// The first element.
    pub open spec fn spec_first(self) -> T {
        match self {
            OneOrTwo::One(t) => t,
            OneOrTwo::Two(t, _) => t,
        }
    }

    /// The second element, if there are two.
    pub open spec fn spec_second(self) -> Option<T> {
        match self {
            OneOrTwo::One(_) => None,
            OneOrTwo::Two(_, t) => Some(t),
        }
    }

    /// Both options packed, if at least one is present: two present
    /// values make a pair, a single present value stands alone.
    pub open spec fn spec_from_options(array: [Option<T>; 2]) -> Option<OneOrTwo<T>> {
        match (array[0], array[1]) {
            (Some(first), Some(second)) => Some(OneOrTwo::Two(first, second)),
            (Some(first), None) => Some(OneOrTwo::One(first)),
            (None, Some(second)) => Some(OneOrTwo::One(second)),
            (None, None) => None,
        }
    }

    /// Pack one or two options into a value, if any is present.
    pub fn from_options(array: [Option<T>; 2]) -> (r: Option<OneOrTwo<T>>)
        ensures
            r == Self::spec_from_options(array),
    {
        match (array[0], array[1]) {
            (Some(first), Some(second)) => Some(OneOrTwo::Two(first, second)),
            (Some(first), None) => Some(OneOrTwo::One(first)),
            (None, Some(second)) => Some(OneOrTwo::One(second)),
            (None, None) => None,
        }
    }

    /// The first element.
    pub fn first(self) -> (r: T)
        ensures
            r == self.spec_first(),
    {
        match self {
            OneOrTwo::One(t) => t,
            OneOrTwo::Two(t, _) => t,
        }
    }

    /// The second element, if there are two.
    pub fn second(self) -> (r: Option<T>)
        ensures
            r == self.spec_second(),
    {
        match self {
            OneOrTwo::One(_) => None,
            OneOrTwo::Two(_, t) => Some(t),
        }
    }

    /// True if some element equals `x`, judged by the element type's
    /// equality.
    pub fn contains(self, x: T) -> (r: bool) where T: PartialEq
        ensures
            T::obeys_eq_spec() ==> r == (self.spec_first().eq_spec(&x) || (self.spec_second()
                matches Some(y) && y.eq_spec(&x))),
    {
        match self {
            OneOrTwo::One(t) => t == x,
            OneOrTwo::Two(t, u) => t == x || u == x,
        }
    }
}

/// The total number of Pokémon.
pub const POKEMON_COUNT: usize = 673;

/// Identifier of a Pokémon: a dense index below the Pokémon count.
#[derive(Clone, Copy, Debug, PartialEq, Eq, Structural, Hash, PartialOrd, Ord)]
pub struct PokemonId(pub u16);

impl Default for PokemonId {
    fn default() -> (r: Self)
        ensures
            r.0 == 65535,
    {
        PokemonId(65535)
    }
}

impl FromVeekun for PokemonId {
    type Intermediate = u16;

    /// Raw Pokémon ids count from one. A raw zero is the "no Pokémon"
    /// sentinel and decodes to absent, never to a valid identifier;
    /// anything past the table range is rejected too.
    open spec fn spec_from_veekun(value: u16) -> Option<Self> {
        if 1 <= value <= 673 {
            Some(PokemonId((value - 1) as u16))
        } else {
            None
        }
    }

    fn from_veekun(value: u16) -> (r: Option<Self>) {
        if 1 <= value && value <= 673 {
            Some(PokemonId(value - 1))
        } else {
            None
        }
    }
}

/// Decoding a valid raw Pokémon id and re-encoding it round-trips.
pub proof fn lemma_pokemon_id_round_trip(value: u16)
    requires
        1 <= value <= 673,
    ensures
        PokemonId::spec_from_veekun(value) matches Some(id) && id.0 + 1 == value,
{
}

/// The zero sentinel never decodes to a valid Pokémon identifier.
pub proof fn lemma_pokemon_id_sentinel()
    ensures
        PokemonId::spec_from_veekun(0) is None,
{
}

/// The total number of Pokémon species.
pub const SPECIES_COUNT: usize = 649;

/// Identifier of a species: a dense index below the species count.
#[derive(Clone, Copy, Debug, PartialEq, Eq, Structural, Hash, PartialOrd, Ord)]
pub struct SpeciesId(pub u16);

impl Default for SpeciesId {
    fn default() -> (r: Self)
        ensures
            r.0 == 65535,
    {
        SpeciesId(65535)
    }
}

impl FromVeekun for SpeciesId {
    type Intermediate = u16;

    /// Raw species ids count from one. A raw zero is the "no species"
    /// sentinel (a foreign key pointing nowhere) and decodes to absent,
    /// never to a valid identifier; anything past the table range is
    /// rejected too.
    open spec fn spec_from_veekun(value: u16) -> Option<Self> {
        if 1 <= value <= 649 {
            Some(SpeciesId((value - 1) as u16))
        } else {
            None
        }
    }

    fn from_veekun(value: u16) -> (r: Option<Self>) {
        if 1 <= value && value <= 649 {
            Some(SpeciesId(value - 1))
        } else {
            None
        }
    }
}

/// Decoding a valid raw species id and re-encoding it round-trips.
pub proof fn lemma_species_id_round_trip(value: u16)
    requires
        1 <= value <= 649,
    ensures
        SpeciesId::spec_from_veekun(value) matches Some(id) && id.0 + 1 == value,
{
}

/// The zero sentinel (a foreign key pointing nowhere) never decodes to
/// a valid species identifier.
pub proof fn lemma_species_id_sentinel()
    ensures
        SpeciesId::spec_from_veekun(0) is None,
{
}

/// The one, two, or three abilities of one Pokémon, by slot.
#[derive(Clone, Copy, Debug, PartialEq, Eq, Structural)]
pub struct PokemonAbilities {
    /// The ability in the first slot, once a row granted it.
    pub first: Option<Ability>,
    /// The ability in the second slot, if the Pokémon has two.
    pub second: Option<Ability>,
    /// The hidden ability, if the Pokémon has one.
    pub hidden: Option<Ability>,
}

/// The dense table of per-Pokémon abilities.
pub struct AbilityTable(pub Vec<PokemonAbilities>);

impl View for AbilityTable {
    type V = Seq<PokemonAbilities>;

    open spec fn view(&self) -> Seq<PokemonAbilities> {
        self.0@
    }
}

/// One ability slot filled in.
pub open spec fn spec_fill_slot(a: PokemonAbilities, slot: u8, ability: Ability)
    -> PokemonAbilities {
    if slot == 1 {
        PokemonAbilities { first: Some(ability), ..a }
    } else if slot == 2 {
        PokemonAbilities { second: Some(ability), ..a }
    } else {
        PokemonAbilities { hidden: Some(ability), ..a }
    }
}

impl AbilityTable {
    /// A dense ability table has one slot per Pokémon.
    pub open spec fn spec_wf(v: Seq<PokemonAbilities>) -> bool {
        v.len() == 673
    }

    /// Every slot of a fresh table grants no ability.
    pub fn new() -> (r: Self)
        ensures
            r@ == Self::spec_empty(),
            Self::spec_wf(r@),
    {
        Self::from_empty_csv()
    }
}

impl FromCsvIncremental for AbilityTable {
    open spec fn spec_empty() -> Seq<PokemonAbilities> {
        Seq::new(673, |i: int| PokemonAbilities { first: None, second: None, hidden: None })
    }

    open spec fn wf_state(v: Seq<PokemonAbilities>) -> bool {
        Self::spec_wf(v)
    }

    open spec fn spec_load(state: Seq<PokemonAbilities>, rec: RecordView) -> (Seq<
        PokemonAbilities,
    >, Option<Error>) {
        match spec_from_field::<PokemonId>(rec, 0) {
            Err(e) => (state, Some(e)),
            Ok(id) => match spec_from_field::<Ability>(rec, 1) {
                Err(e) => (state, Some(e)),
                Ok(ability) => match spec_from_field::<u8>(rec, 3) {
                    Err(e) => (state, Some(e)),
                    Ok(slot) => {
                        if slot < 1 || slot > 3 {
                            (
                                state,
                                Some(
                                    Error::Veekun {
                                        line: rec.line,
                                        field: 3,
                                        error: VeekunError::Misc(
                                            MiscError("Invalid slot number"),
                                        ),
                                    },
                                ),
                            )
                        } else {
                            (
                                state.update(
                                    id.0 as int,
                                    spec_fill_slot(state[id.0 as int], slot, ability),
                                ),
                                None,
                            )
                        }
                    },
                },
            },
        }
    }

    fn from_empty_csv() -> (r: Self) {
        let mut v: Vec<PokemonAbilities> = Vec::new();
        let mut i: usize = 0;
        while i < 673
            invariant
                i <= 673,
                v@.len() == i,
                forall|j: int|
                    0 <= j < i ==> v@[j] == (PokemonAbilities {
                        first: None::<Ability>,
                        second: None::<Ability>,
                        hidden: None::<Ability>,
                    }),
            decreases 673 - i,
        {
            v.push(PokemonAbilities { first: None, second: None, hidden: None });
            i = i + 1;
        }
        proof {
            assert(v@ =~= Self::spec_empty());
        }
        AbilityTable(v)
    }

    fn load_csv_record(&mut self, record: &Record) -> (r: Result<(), Error>) {
        let id: PokemonId = match from_field::<PokemonId>(record, 0) {
            Ok(t) => t,
            Err(e) => {
                return Err(e);
            },
        };
        let ability: Ability = match from_field::<Ability>(record, 1) {
            Ok(t) => t,
            Err(e) => {
                return Err(e);
            },
        };
        let slot: u8 = match from_field::<u8>(record, 3) {
            Ok(t) => t,
            Err(e) => {
                return Err(e);
            },
        };
        if slot < 1 || slot > 3 {
            return Err(
                Error::Veekun {
                    line: record.line,
                    field: 3,
                    error: VeekunError::Misc(MiscError("Invalid slot number")),
                },
            );
        }
        let entry = self.0[id.0 as usize];
        let updated = if slot == 1 {
            PokemonAbilities { first: Some(ability), ..entry }
        } else if slot == 2 {
            PokemonAbilities { second: Some(ability), ..entry }
        } else {
            PokemonAbilities { hidden: Some(ability), ..entry }
        };
        self.0.set(id.0 as usize, updated);
        Ok(())
    }
}

/// The number of stats that exist out of battle (all but accuracy and
/// evasion).
pub const PERMANENT_STATS: usize = 6;

/// A Pokémon's base permanent stats.
#[derive(Clone, Copy, Debug, PartialEq, Eq, Structural)]
pub struct BaseStats {
    pub hp: u8,
    pub attack: u8,
    pub defense: u8,
    pub speed: u8,
    pub special_attack: u8,
    pub special_defense: u8,
}

impl BaseStats {
    /// Every base stat zero.
    pub open spec fn spec_zero() -> BaseStats {
        BaseStats { hp: 0, attack: 0, defense: 0, speed: 0, special_attack: 0, special_defense: 0 }
    }

    /// One permanent stat's base value replaced.
    pub open spec fn spec_with(self, stat: Stat, base: u8) -> BaseStats {
        match stat {
            Stat::HP => BaseStats { hp: base, ..self },
            Stat::Attack => BaseStats { attack: base, ..self },
            Stat::Defense => BaseStats { defense: base, ..self },
            Stat::Speed => BaseStats { speed: base, ..self },
            Stat::SpecialAttack => BaseStats { special_attack: base, ..self },
            Stat::SpecialDefense => BaseStats { special_defense: base, ..self },
            Stat::Accuracy => self,
            Stat::Evasion => self,
        }
    }

    /// The base value of one permanent stat.
    pub fn get(&self, stat: Stat) -> (r: Option<u8>)
        ensures
            r == match stat {
                Stat::HP => Some(self.hp),
                Stat::Attack => Some(self.attack),
                Stat::Defense => Some(self.defense),
                Stat::Speed => Some(self.speed),
                Stat::SpecialAttack => Some(self.special_attack),
                Stat::SpecialDefense => Some(self.special_defense),
                Stat::Accuracy => None::<u8>,
                Stat::Evasion => None::<u8>,
            },
    {
        match stat {
            Stat::HP => Some(self.hp),
            Stat::Attack => Some(self.attack),
            Stat::Defense => Some(self.defense),
            Stat::Speed => Some(self.speed),
            Stat::SpecialAttack => Some(self.special_attack),
            Stat::SpecialDefense => Some(self.special_defense),
            Stat::Accuracy => None,
            Stat::Evasion => None,
        }
    }
}

impl Default for BaseStats {
    fn default() -> (r: Self)
        ensures
            r == BaseStats::spec_zero(),
    {
        BaseStats { hp: 0, attack: 0, defense: 0, speed: 0, special_attack: 0, special_defense: 0 }
    }
}

/// The dense table of per-Pokémon base stats.
pub struct StatTable(pub Vec<BaseStats>);

impl View for StatTable {
    type V = Seq<BaseStats>;

    open spec fn view(&self) -> Seq<BaseStats> {
        self.0@
    }
}

impl StatTable {
    /// A dense stat table has one slot per Pokémon.
    pub open spec fn spec_wf(v: Seq<BaseStats>) -> bool {
        v.len() == 673
    }

    /// Every slot of a fresh table holds all-zero stats.
    pub fn new() -> (r: Self)
        ensures
            r@ == Self::spec_empty(),
            Self::spec_wf(r@),
    {
        Self::from_empty_csv()
    }
}

impl FromCsvIncremental for StatTable {
    open spec fn spec_empty() -> Seq<BaseStats> {
        Seq::new(673, |i: int| BaseStats::spec_zero())
    }

    open spec fn wf_state(v: Seq<BaseStats>) -> bool {
        Self::spec_wf(v)
    }

    open spec fn spec_load(state: Seq<BaseStats>, rec: RecordView) -> (Seq<BaseStats>, Option<
        Error,
    >) {
        match spec_from_field::<PokemonId>(rec, 0) {
            Err(e) => (state, Some(e)),
            Ok(id) => match spec_from_field::<u8>(rec, 1) {
                Err(e) => (state, Some(e)),
                Ok(raw_stat) => match Stat::spec_from_veekun(raw_stat) {
                    None => (
                        state,
                        Some(
                            Error::Veekun {
                                line: rec.line,
                                field: 1,
                                error: VeekunError::Value(raw_stat as i64),
                            },
                        ),
                    ),
                    Some(Stat::Accuracy) | Some(Stat::Evasion) => (
                        state,
                        Some(
                            Error::Veekun {
                                line: rec.line,
                                field: 1,
                                error: VeekunError::Value(raw_stat as i64),
                            },
                        ),
                    ),
                    Some(stat) => match spec_from_field::<u8>(rec, 2) {
                        Err(e) => (state, Some(e)),
                        Ok(base) => (
                            state.update(id.0 as int, state[id.0 as int].spec_with(stat, base)),
                            None,
                        ),
                    },
                },
            },
        }
    }

    fn from_empty_csv() -> (r: Self) {
        let mut v: Vec<BaseStats> = Vec::new();
        let mut i: usize = 0;
        while i < 673
            invariant
                i <= 673,
                v@.len() == i,
                forall|j: int| 0 <= j < i ==> v@[j] == BaseStats::spec_zero(),
            decreases 673 - i,
        {
            v.push(BaseStats::default());
            i = i + 1;
        }
        proof {
            assert(v@ =~= Self::spec_empty());
        }
        StatTable(v)
    }

    fn load_csv_record(&mut self, record: &Record) -> (r: Result<(), Error>) {
        let id: PokemonId = match from_field::<PokemonId>(record, 0) {
            Ok(t) => t,
            Err(e) => {
                return Err(e);
            },
        };
        let raw_stat: u8 = match from_field::<u8>(record, 1) {
            Ok(t) => t,
            Err(e) => {
                return Err(e);
            },
        };
        let stat: Stat = match Stat::from_veekun(raw_stat) {
            Some(Stat::Accuracy) | Some(Stat::Evasion) | None => {
                return Err(
                    Error::Veekun {
                        line: record.line,
                        field: 1,
                        error: VeekunError::Value(raw_stat as i64),
                    },
                );
            },
            Some(stat) => stat,
        };
        let base: u8 = match from_field::<u8>(record, 2) {
            Ok(t) => t,
            Err(e) => {
                return Err(e);
            },
        };
        let entry = self.0[id.0 as usize];
        let updated = match stat {
            Stat::HP => BaseStats { hp: base, ..entry },
            Stat::Attack => BaseStats { attack: base, ..entry },
            Stat::Defense => BaseStats { defense: base, ..entry },
            Stat::Speed => BaseStats { speed: base, ..entry },
            Stat::SpecialAttack => BaseStats { special_attack: base, ..entry },
            Stat::SpecialDefense => BaseStats { special_defense: base, ..entry },
            Stat::Accuracy => entry,
            Stat::Evasion => entry,
        };
        self.0.set(id.0 as usize, updated);
        Ok(())
    }
}

/// The one or two type slots of one Pokémon.
#[derive(Clone, Copy, Debug, PartialEq, Eq, Structural)]
pub struct TypeSlots {
    /// The first type, once a row granted it.
    pub first: Option<Type>,
    /// The second type, if the Pokémon has two.
    pub second: Option<Type>,
}

/// The dense table of per-Pokémon types.
pub struct TypeTable(pub Vec<TypeSlots>);

impl View for TypeTable {
    type V = Seq<TypeSlots>;

    open spec fn view(&self) -> Seq<TypeSlots> {
        self.0@
    }
}

impl TypeTable {
    /// A dense type table has one slot per Pokémon.
    pub open spec fn spec_wf(v: Seq<TypeSlots>) -> bool {
        v.len() == 673
    }

    /// Every slot of a fresh table grants no type.
    pub fn new() -> (r: Self)
        ensures
            r@ == Self::spec_empty(),
            Self::spec_wf(r@),
    {
        Self::from_empty_csv()
    }
}

impl FromCsvIncremental for TypeTable {
    open spec fn spec_empty() -> Seq<TypeSlots> {
        Seq::new(673, |i: int| TypeSlots { first: None, second: None })
    }

    open spec fn wf_state(v: Seq<TypeSlots>) -> bool {
        Self::spec_wf(v)
    }

    open spec fn spec_load(state: Seq<TypeSlots>, rec: RecordView) -> (Seq<TypeSlots>, Option<
        Error,
    >) {
        match spec_from_field::<PokemonId>(rec, 0) {
            Err(e) => (state, Some(e)),
            Ok(id) => match spec_from_field::<Type>(rec, 1) {
                Err(e) => (state, Some(e)),
                Ok(typ) => match spec_from_field::<u8>(rec, 2) {
                    Err(e) => (state, Some(e)),
                    Ok(slot) => {
                        if slot < 1 || slot > 2 {
                            (
                                state,
                                Some(
                                    Error::Veekun {
                                        line: rec.line,
                                        field: 2,
                                        error: VeekunError::Misc(
                                            MiscError("Invalid slot number"),
                                        ),
                                    },
                                ),
                            )
                        } else if slot == 1 {
                            (
                                state.update(
                                    id.0 as int,
                                    TypeSlots { first: Some(typ), ..state[id.0 as int] },
                                ),
                                None,
                            )
                        } else {
                            (
                                state.update(
                                    id.0 as int,
                                    TypeSlots { second: Some(typ), ..state[id.0 as int] },
                                ),
                                None,
                            )
                        }
                    },
                },
            },
        }
    }

    fn from_empty_csv() -> (r: Self) {
        let mut v: Vec<TypeSlots> = Vec::new();
        let mut i: usize = 0;
        while i < 673
            invariant
                i <= 673,
                v@.len() == i,
                forall|j: int|
                    0 <= j < i ==> v@[j] == (TypeSlots {
                        first: None::<Type>,
                        second: None::<Type>,
                    }),
            decreases 673 - i,
        {
            v.push(TypeSlots { first: None, second: None });
            i = i + 1;
        }
        proof {
            assert(v@ =~= Self::spec_empty());
        }
        TypeTable(v)
    }

    fn load_csv_record(&mut self, record: &Record) -> (r: Result<(), Error>) {
        let id: PokemonId = match from_field::<PokemonId>(record, 0) {
            Ok(t) => t,
            Err(e) => {
                return Err(e);
            },
        };
        let typ: Type = match from_field::<Type>(record, 1) {
            Ok(t) => t,
            Err(e) => {
                return Err(e);
            },
        };
        let slot: u8 = match from_field::<u8>(record, 2) {
            Ok(t) => t,
            Err(e) => {
                return Err(e);
            },
        };
        if slot < 1 || slot > 2 {
            return Err(
                Error::Veekun {
                    line: record.line,
                    field: 2,
                    error: VeekunError::Misc(MiscError("Invalid slot number")),
                },
            );
        }
        let entry = self.0[id.0 as usize];
        let updated = if slot == 1 {
            TypeSlots { first: Some(typ), ..entry }
        } else {
            TypeSlots { second: Some(typ), ..entry }
        };
        self.0.set(id.0 as usize, updated);
        Ok(())
    }
}


/// An alternate form of a Pokémon.
#[derive(Clone, Debug)]
pub struct Form {
    /// The raw form identifier.
    pub id: u16,
    /// The form's name, if it has one.
    pub name: Option<String>,
    /// True if the form only appears in battle.
    pub battle_only: bool,
}

/// The mathematical content of a form.
#[verifier::ext_equal]
pub struct FormView {
    pub id: u16,
    pub name: Option<Seq<char>>,
    pub battle_only: bool,
}

impl View for Form {
    type V = FormView;

    open spec fn view(&self) -> FormView {
        FormView {
            id: self.id,
            name: match self.name {
                Some(n) => Some(n@),
                None => None,
            },
            battle_only: self.battle_only,
        }
    }
}

/// Copy a form, field by field.
fn clone_form(f: &Form) -> (r: Form)
    ensures
        r@ == f@,
{
    Form {
        id: f.id,
        name: match &f.name {
            Some(n) => Some(n.clone()),
            None => None,
        },
        battle_only: f.battle_only,
    }
}

/// Copy a list of forms, element by element.
fn clone_forms(v: &Vec<Form>) -> (r: Vec<Form>)
    ensures
        r@.map_values(|f: Form| f@) == v@.map_values(|f: Form| f@),
{
    let mut r: Vec<Form> = Vec::new();
    let mut i: usize = 0;
    while i < v.len()
        invariant
            i <= v@.len(),
            r@.len() == i,
            forall|j: int| 0 <= j < i ==> r@[j]@ == v@[j]@,
        decreases v@.len() - i,
    {
        r.push(clone_form(&v[i]));
        i = i + 1;
    }
    proof {
        assert(r@.map_values(|f: Form| f@) =~= v@.map_values(|f: Form| f@));
    }
    r
}

/// The dense table of per-Pokémon form lists: a grouped-append store
/// where each child row is appended, in row order, to the sequence of
/// the parent it names; parents with no rows own an empty sequence.
pub struct FormTable(pub Vec<Vec<Form>>);

impl View for FormTable {
    type V = Seq<Seq<FormView>>;

    open spec fn view(&self) -> Seq<Seq<FormView>> {
        self.0@.map_values(|slot: Vec<Form>| slot@.map_values(|f: Form| f@))
    }
}

impl FormTable {
    /// A dense form table has one slot per Pokémon.
    pub open spec fn spec_wf(v: Seq<Seq<FormView>>) -> bool {
        v.len() == 673
    }

    /// Every slot of a fresh table owns an empty sequence.
    pub fn new() -> (r: Self)
        ensures
            r@ == Self::spec_empty(),
            Self::spec_wf(r@),
    {
        Self::from_empty_csv()
    }
}

impl FromCsvIncremental for FormTable {
    open spec fn spec_empty() -> Seq<Seq<FormView>> {
        Seq::new(673, |i: int| Seq::<FormView>::empty())
    }

    open spec fn wf_state(v: Seq<Seq<FormView>>) -> bool {
        Self::spec_wf(v)
    }

    open spec fn spec_load(state: Seq<Seq<FormView>>, rec: RecordView) -> (Seq<Seq<FormView>>,
        Option<Error>,
    ) {
        match spec_from_field::<u16>(rec, 0) {
            Err(e) => (state, Some(e)),
            Ok(form_id) => {
                if rec.fields.len() <= 1 {
                    (state, Some(Error::RecordLength { line: rec.line, index: 1 }))
                } else {
                    match spec_from_field::<PokemonId>(rec, 2) {
                        Err(e) => (state, Some(e)),
                        Ok(id) => match spec_from_field::<u8>(rec, 5) {
                            Err(e) => (state, Some(e)),
                            Ok(battle_only) => {
                                let name = if crate::csv::is_blank(rec.fields[1]) {
                                    None
                                } else {
                                    Some(rec.fields[1])
                                };
                                let form = FormView {
                                    id: form_id,
                                    name,
                                    battle_only: battle_only != 0,
                                };
                                (
                                    state.update(id.0 as int, state[id.0 as int].push(form)),
                                    None,
                                )
                            },
                        },
                    }
                }
            },
        }
    }

    fn from_empty_csv() -> (r: Self) {
        let mut v: Vec<Vec<Form>> = Vec::new();
        let mut i: usize = 0;
        while i < 673
            invariant
                i <= 673,
                v@.len() == i,
                forall|j: int| 0 <= j < i ==> v@[j]@.len() == 0,
            decreases 673 - i,
        {
            v.push(Vec::new());
            i = i + 1;
        }
        let r = FormTable(v);
        proof {
            assert(r@ =~~= Self::spec_empty());
        }
        r
    }

    fn load_csv_record(&mut self, record: &Record) -> (r: Result<(), Error>) {
        let form_id: u16 = match from_field::<u16>(record, 0) {
            Ok(t) => t,
            Err(e) => {
                return Err(e);
            },
        };
        let raw_name: &str = match crate::csv::get_field(record, 1) {
            Ok(t) => t,
            Err(e) => {
                return Err(e);
            },
        };
        let name: Option<String> = if crate::csv::blank(raw_name) {
            None
        } else {
            Some(raw_name.to_owned())
        };
        let id: PokemonId = match from_field::<PokemonId>(record, 2) {
            Ok(t) => t,
            Err(e) => {
                return Err(e);
            },
        };
        let battle_only: u8 = match from_field::<u8>(record, 5) {
            Ok(t) => t,
            Err(e) => {
                return Err(e);
            },
        };
        let form = Form { id: form_id, name, battle_only: battle_only != 0 };
        let ghost prev = self@;
        let mut slot: Vec<Form> = self.0.remove(id.0 as usize);
        slot.push(form);
        self.0.insert(id.0 as usize, slot);
        proof {
            assert(self@ =~~= prev.update(id.0 as int, prev[id.0 as int].push(form@)));
        }
        Ok(())
    }
}

/// The dense table of per-species egg group lists: a grouped-append
/// store in row order; species with no rows own an empty sequence.
pub struct EggGroupTable(pub Vec<Vec<EggGroup>>);

impl View for EggGroupTable {
    type V = Seq<Seq<EggGroup>>;

    open spec fn view(&self) -> Seq<Seq<EggGroup>> {
        self.0@.map_values(|slot: Vec<EggGroup>| slot@)
    }
}

impl EggGroupTable {
    /// A dense egg group table has one slot per species.
    pub open spec fn spec_wf(v: Seq<Seq<EggGroup>>) -> bool {
        v.len() == 649
    }

    /// Every slot of a fresh table owns an empty sequence.
    pub fn new() -> (r: Self)
        ensures
            r@ == Self::spec_empty(),
            Self::spec_wf(r@),
    {
        Self::from_empty_csv()
    }
}

impl FromCsvIncremental for EggGroupTable {
    open spec fn spec_empty() -> Seq<Seq<EggGroup>> {
        Seq::new(649, |i: int| Seq::<EggGroup>::empty())
    }

    open spec fn wf_state(v: Seq<Seq<EggGroup>>) -> bool {
        Self::spec_wf(v)
    }

    open spec fn spec_load(state: Seq<Seq<EggGroup>>, rec: RecordView) -> (Seq<Seq<EggGroup>>,
        Option<Error>,
    ) {
        match spec_from_field::<SpeciesId>(rec, 0) {
            Err(e) => (state, Some(e)),
            Ok(id) => match spec_from_field::<EggGroup>(rec, 1) {
                Err(e) => (state, Some(e)),
                Ok(group) => (state.update(id.0 as int, state[id.0 as int].push(group)), None),
            },
        }
    }

    fn from_empty_csv() -> (r: Self) {
        let mut v: Vec<Vec<EggGroup>> = Vec::new();
        let mut i: usize = 0;
        while i < 649
            invariant
                i <= 649,
                v@.len() == i,
                forall|j: int| 0 <= j < i ==> v@[j]@.len() == 0,
            decreases 649 - i,
        {
            v.push(Vec::new());
            i = i + 1;
        }
        let r = EggGroupTable(v);
        proof {
            assert(r@ =~~= Self::spec_empty());
        }
        r
    }

    fn load_csv_record(&mut self, record: &Record) -> (r: Result<(), Error>) {
        let id: SpeciesId = match from_field::<SpeciesId>(record, 0) {
            Ok(t) => t,
            Err(e) => {
                return Err(e);
            },
        };
        let group: EggGroup = match from_field::<EggGroup>(record, 1) {
            Ok(t) => t,
            Err(e) => {
                return Err(e);
            },
        };
        let ghost prev = self@;
        let mut slot: Vec<EggGroup> = self.0.remove(id.0 as usize);
        slot.push(group);
        self.0.insert(id.0 as usize, slot);
        proof {
            assert(self@ =~~= prev.update(id.0 as int, prev[id.0 as int].push(group)));
        }
        Ok(())
    }
}

/// Appending child rows in order can never fail, and a parent nothing
/// was appended to still owns its (empty) sequence.
pub proof fn lemma_grouped_append_total(state: Seq<Seq<EggGroup>>, rec: RecordView)
    requires
        EggGroupTable::spec_wf(state),
        spec_from_field::<SpeciesId>(rec, 0) is Ok,
        spec_from_field::<EggGroup>(rec, 1) is Ok,
    ensures
        EggGroupTable::spec_load(state, rec).1 is None,
        forall|i: int|
            0 <= i < 649 && i != spec_from_field::<SpeciesId>(rec, 0)->Ok_0.0 as int
                ==> EggGroupTable::spec_load(state, rec).0[i] == state[i],
{
}

/// One move a Pokémon can learn, and how.
#[derive(Clone, Copy, Debug, PartialEq, Eq, Structural)]
pub struct PokemonMove {
    /// The move learned.
    pub move_id: MoveId,
    /// How it is learned.
    pub learn_method: LearnMethod,
    /// The level it is learned at, where relevant.
    pub level: u8,
}

impl Default for PokemonMove {
    fn default() -> (r: Self)
        ensures
            r == (PokemonMove {
                move_id: MoveId(65535),
                learn_method: LearnMethod::LevelUp,
                level: 0u8,
            }),
    {
        PokemonMove { move_id: MoveId(65535), learn_method: LearnMethod::LevelUp, level: 0 }
    }
}

/// Every version group's code lies in the dense range.
pub proof fn lemma_version_group_repr_range(vg: VersionGroup)
    ensures
        0 <= vg.spec_repr() < 14,
{
}

/// The dense table of per-Pokémon, per-version-group move lists: a
/// grouped-append store where each row is appended, in row order, to
/// the list for its Pokémon and version group.
pub struct PokemonMoveTable(pub Vec<Vec<Vec<PokemonMove>>>);

impl View for PokemonMoveTable {
    type V = Seq<Seq<Seq<PokemonMove>>>;

    open spec fn view(&self) -> Seq<Seq<Seq<PokemonMove>>> {
        self.0@.map_values(
            |slot: Vec<Vec<PokemonMove>>| slot@.map_values(|l: Vec<PokemonMove>| l@),
        )
    }
}

impl PokemonMoveTable {
    /// One slot per Pokémon, each with one list per version group.
    pub open spec fn spec_wf(v: Seq<Seq<Seq<PokemonMove>>>) -> bool {
        v.len() == 673 && forall|i: int| 0 <= i < 673 ==> #[trigger] v[i].len() == 14
    }

    /// Every list of a fresh table is empty.
    pub fn new() -> (r: Self)
        ensures
            r@ == Self::spec_empty(),
            Self::spec_wf(r@),
    {
        Self::from_empty_csv()
    }
}

/// A slot of one empty move list per version group.
fn empty_version_lists() -> (r: Vec<Vec<PokemonMove>>)
    ensures
        r@.map_values(|l: Vec<PokemonMove>| l@) == Seq::new(14, |j: int| Seq::<PokemonMove>::empty()),
{
    let mut v: Vec<Vec<PokemonMove>> = Vec::new();
    let mut i: usize = 0;
    while i < 14
        invariant
            i <= 14,
            v@.len() == i,
            forall|j: int| 0 <= j < i ==> v@[j]@.len() == 0,
        decreases 14 - i,
    {
        v.push(Vec::new());
        i = i + 1;
    }
    proof {
        assert(v@.map_values(|l: Vec<PokemonMove>| l@) =~~= Seq::new(
            14,
            |j: int| Seq::<PokemonMove>::empty(),
        ));
    }
    v
}

impl FromCsvIncremental for PokemonMoveTable {
    open spec fn spec_empty() -> Seq<Seq<Seq<PokemonMove>>> {
        Seq::new(673, |i: int| Seq::new(14, |j: int| Seq::<PokemonMove>::empty()))
    }

    open spec fn wf_state(v: Seq<Seq<Seq<PokemonMove>>>) -> bool {
        Self::spec_wf(v)
    }

    open spec fn spec_load(state: Seq<Seq<Seq<PokemonMove>>>, rec: RecordView) -> (Seq<Seq<Seq<
        PokemonMove,
    >>>, Option<Error>) {
        match spec_from_field::<PokemonId>(rec, 0) {
            Err(e) => (state, Some(e)),
            Ok(id) => match spec_from_field::<VersionGroup>(rec, 1) {
                Err(e) => (state, Some(e)),
                Ok(vg) => match spec_from_field::<MoveId>(rec, 2) {
                    Err(e) => (state, Some(e)),
                    Ok(move_id) => match spec_from_field::<LearnMethod>(rec, 3) {
                        Err(e) => (state, Some(e)),
                        Ok(learn_method) => match spec_from_field::<u8>(rec, 4) {
                            Err(e) => (state, Some(e)),
                            Ok(level) => {
                                let pm = PokemonMove { move_id, learn_method, level };
                                let g = vg.spec_repr() as int;
                                (
                                    state.update(
                                        id.0 as int,
                                        state[id.0 as int].update(
                                            g,
                                            state[id.0 as int][g].push(pm),
                                        ),
                                    ),
                                    None,
                                )
                            },
                        },
                    },
                },
            },
        }
    }

    fn from_empty_csv() -> (r: Self) {
        let mut v: Vec<Vec<Vec<PokemonMove>>> = Vec::new();
        let mut i: usize = 0;
        while i < 673
            invariant
                i <= 673,
                v@.len() == i,
                forall|j: int| #![all_triggers]
                    0 <= j < i ==> v@[j]@.map_values(|l: Vec<PokemonMove>| l@) == Seq::new(
                        14,
                        |k: int| Seq::<PokemonMove>::empty(),
                    ),
            decreases 673 - i,
        {
            v.push(empty_version_lists());
            i = i + 1;
        }
        let r = PokemonMoveTable(v);
        proof {
            assert(r@ =~~= Self::spec_empty());
        }
        r
    }

    fn load_csv_record(&mut self, record: &Record) -> (r: Result<(), Error>) {
        let id: PokemonId = match from_field::<PokemonId>(record, 0) {
            Ok(t) => t,
            Err(e) => {
                return Err(e);
            },
        };
        let vg: VersionGroup = match from_field::<VersionGroup>(record, 1) {
            Ok(t) => t,
            Err(e) => {
                return Err(e);
            },
        };
        let move_id: MoveId = match from_field::<MoveId>(record, 2) {
            Ok(t) => t,
            Err(e) => {
                return Err(e);
            },
        };
        let learn_method: LearnMethod = match from_field::<LearnMethod>(record, 3) {
            Ok(t) => t,
            Err(e) => {
                return Err(e);
            },
        };
        let level: u8 = match from_field::<u8>(record, 4) {
            Ok(t) => t,
            Err(e) => {
                return Err(e);
            },
        };
        let pm = PokemonMove { move_id, learn_method, level };
        proof {
            lemma_version_group_repr_range(vg);
        }
        let g: usize = vg.repr() as usize;
        let ghost prev = self@;
        let mut slot: Vec<Vec<PokemonMove>> = self.0.remove(id.0 as usize);
        proof {
            assert(slot@.map_values(|l: Vec<PokemonMove>| l@) == prev[id.0 as int]);
            assert(prev[id.0 as int].len() == 14);
        }
        let mut list: Vec<PokemonMove> = slot.remove(g);
        list.push(pm);
        slot.insert(g, list);
        self.0.insert(id.0 as usize, slot);
        proof {
            assert(self@ =~~= prev.update(
                id.0 as int,
                prev[id.0 as int].update(g as int, prev[id.0 as int][g as int].push(pm)),
            ));
        }
        Ok(())
    }
}

/// How a species evolves from its predecessor.
#[derive(Clone, Copy, Debug, PartialEq, Eq, Structural)]
pub struct EvolvesFrom {
    /// The species evolved from.
    pub from_id: SpeciesId,
    /// The trigger of the evolution.
    pub trigger: EvolutionTrigger,
    /// The level required, or zero.
    pub level: u8,
    /// The required gender, where relevant.
    pub gender: Gender,
    /// The required move, where relevant.
    pub move_id: MoveId,
    /// The required comparison of Attack and Defense, where relevant.
    pub relative_physical_stats: Option<i8>,
}

impl EvolvesFrom {
    /// The record with every field at its default.
    pub open spec fn spec_default() -> EvolvesFrom {
        EvolvesFrom {
            from_id: SpeciesId(65535),
            trigger: EvolutionTrigger::Trade,
            level: 0,
            gender: Gender::Genderless,
            move_id: MoveId(65535),
            relative_physical_stats: None,
        }
    }
}

impl Default for EvolvesFrom {
    fn default() -> (r: Self)
        ensures
            r == EvolvesFrom::spec_default(),
    {
        EvolvesFrom {
            from_id: SpeciesId(65535),
            trigger: EvolutionTrigger::Trade,
            level: 0,
            gender: Gender::Genderless,
            move_id: MoveId(65535),
            relative_physical_stats: None,
        }
    }
}

/// The sparse table of evolution details, keyed by raw species index:
/// later rows for one species overwrite earlier ones.
pub struct EvolutionTable(pub HashMap<u16, EvolvesFrom>);

impl View for EvolutionTable {
    type V = Map<u16, EvolvesFrom>;

    open spec fn view(&self) -> Map<u16, EvolvesFrom> {
        self.0@
    }
}

impl EvolutionTable {
    /// A fresh table maps no key.
    pub fn new() -> (r: Self)
        ensures
            r@ == Self::spec_empty(),
    {
        Self::from_empty_csv()
    }

    /// The evolution details for a species, if a row supplied them.
    pub fn get(&self, id: SpeciesId) -> (r: Option<EvolvesFrom>)
        ensures
            r == if self@.contains_key(id.0) {
                Some(self@[id.0])
            } else {
                None::<EvolvesFrom>
            },
    {
        match self.0.get(&id.0) {
            Some(e) => Some(*e),
            None => None,
        }
    }
}

impl FromCsvIncremental for EvolutionTable {
    open spec fn spec_empty() -> Map<u16, EvolvesFrom> {
        Map::empty()
    }

    open spec fn wf_state(v: Map<u16, EvolvesFrom>) -> bool {
        true
    }

    open spec fn spec_load(state: Map<u16, EvolvesFrom>, rec: RecordView) -> (Map<
        u16,
        EvolvesFrom,
    >, Option<Error>) {
        match spec_from_field::<SpeciesId>(rec, 1) {
            Err(e) => (state, Some(e)),
            Ok(species_id) => match spec_from_field::<EvolutionTrigger>(rec, 2) {
                Err(e) => (state, Some(e)),
                Ok(trigger) => match spec_from_option_field::<u8>(rec, 4, 0u8) {
                    Err(e) => (state, Some(e)),
                    Ok(level) => match spec_from_option_field::<Gender>(
                        rec,
                        5,
                        Gender::Genderless,
                    ) {
                        Err(e) => (state, Some(e)),
                        Ok(gender) => match spec_from_option_field::<MoveId>(
                            rec,
                            9,
                            MoveId(65535),
                        ) {
                            Err(e) => (state, Some(e)),
                            Ok(move_id) => match spec_from_veekun_option_field::<i8>(rec, 12) {
                                Err(e) => (state, Some(e)),
                                Ok(rps) => (
                                    state.insert(
                                        species_id.0,
                                        EvolvesFrom {
                                            from_id: SpeciesId(65535),
                                            trigger,
                                            level,
                                            gender,
                                            move_id,
                                            relative_physical_stats: rps.0,
                                        },
                                    ),
                                    None,
                                ),
                            },
                        },
                    },
                },
            },
        }
    }

    fn from_empty_csv() -> (r: Self) {
        EvolutionTable(HashMap::new())
    }

    fn load_csv_record(&mut self, record: &Record) -> (r: Result<(), Error>) {
        let species_id: SpeciesId = match from_field::<SpeciesId>(record, 1) {
            Ok(t) => t,
            Err(e) => {
                return Err(e);
            },
        };
        let trigger: EvolutionTrigger = match from_field::<EvolutionTrigger>(record, 2) {
            Ok(t) => t,
            Err(e) => {
                return Err(e);
            },
        };
        let level: u8 = match from_option_field::<u8>(record, 4, 0u8) {
            Ok(t) => t,
            Err(e) => {
                return Err(e);
            },
        };
        let gender: Gender = match from_option_field::<Gender>(record, 5, Gender::Genderless) {
            Ok(t) => t,
            Err(e) => {
                return Err(e);
            },
        };
        let move_id: MoveId = match from_option_field::<MoveId>(record, 9, MoveId(65535)) {
            Ok(t) => t,
            Err(e) => {
                return Err(e);
            },
        };
        let rps: VeekunOption<i8> = match from_veekun_option_field::<i8>(record, 12) {
            Ok(t) => t,
            Err(e) => {
                return Err(e);
            },
        };
        self.0.insert(
            species_id.0,
            EvolvesFrom {
                from_id: SpeciesId(65535),
                trigger,
                level,
                gender,
                move_id,
                relative_physical_stats: rps.0,
            },
        );
        Ok(())
    }
}


/// A concrete Pokémon: a species in a particular arrangement, with its
/// denormalized data.
#[derive(Debug)]
pub struct Pokemon {
    /// The identifier of this Pokémon.
    pub id: PokemonId,
    /// Its one or two regular abilities.
    pub abilities: OneOrTwo<Ability>,
    /// Its hidden ability, if it has one.
    pub hidden_ability: Option<Ability>,
    /// Its alternate forms, in row order.
    pub forms: Vec<Form>,
    /// Its learnable moves, one list per version group, in row order.
    pub moves: Vec<Vec<PokemonMove>>,
    /// Its base stats.
    pub stats: BaseStats,
    /// Its one or two types.
    pub types: OneOrTwo<Type>,
}

/// The mathematical content of a Pokémon.
#[verifier::ext_equal]
pub struct PokemonView {
    pub id: PokemonId,
    pub abilities: OneOrTwo<Ability>,
    pub hidden_ability: Option<Ability>,
    pub forms: Seq<FormView>,
    pub moves: Seq<Seq<PokemonMove>>,
    pub stats: BaseStats,
    pub types: OneOrTwo<Type>,
}

impl View for Pokemon {
    type V = PokemonView;

    open spec fn view(&self) -> PokemonView {
        PokemonView {
            id: self.id,
            abilities: self.abilities,
            hidden_ability: self.hidden_ability,
            forms: self.forms@.map_values(|f: Form| f@),
            moves: self.moves@.map_values(|l: Vec<PokemonMove>| l@),
            stats: self.stats,
            types: self.types,
        }
    }
}

/// The view of a freshly inserted Pokemon with a given identifier.
pub open spec fn spec_default_pokemon(id: PokemonId) -> PokemonView {
    PokemonView {
        id,
        abilities: OneOrTwo::One(Ability::Stench),
        hidden_ability: None,
        forms: Seq::empty(),
        moves: Seq::new(14, |j: int| Seq::<PokemonMove>::empty()),
        stats: BaseStats::spec_zero(),
        types: OneOrTwo::One(Type::Normal),
    }
}

/// Copy a list of per-version-group move lists, element by element.
fn clone_move_lists(v: &Vec<Vec<PokemonMove>>) -> (r: Vec<Vec<PokemonMove>>)
    ensures
        r@.map_values(|l: Vec<PokemonMove>| l@) == v@.map_values(|l: Vec<PokemonMove>| l@),
{
    let mut r: Vec<Vec<PokemonMove>> = Vec::new();
    let mut i: usize = 0;
    while i < v.len()
        invariant
            i <= v@.len(),
            r@.len() == i,
            forall|j: int| 0 <= j < i ==> r@[j]@ == v@[j]@,
        decreases v@.len() - i,
    {
        let inner: &Vec<PokemonMove> = &v[i];
        let mut c: Vec<PokemonMove> = Vec::new();
        let mut k: usize = 0;
        while k < inner.len()
            invariant
                k <= inner@.len(),
                c@.len() == k,
                forall|m: int| 0 <= m < k ==> c@[m] == inner@[m],
            decreases inner@.len() - k,
        {
            c.push(inner[k]);
            k = k + 1;
        }
        proof {
            assert(c@ =~= inner@);
        }
        r.push(c);
        i = i + 1;
    }
    proof {
        assert(r@.map_values(|l: Vec<PokemonMove>| l@) =~= v@.map_values(
            |l: Vec<PokemonMove>| l@,
        ));
    }
    r
}

/// Copy a Pokémon, field by field.
fn clone_pokemon(p: &Pokemon) -> (r: Pokemon)
    ensures
        r@ == p@,
{
    let r = Pokemon {
        id: p.id,
        abilities: p.abilities,
        hidden_ability: p.hidden_ability,
        forms: clone_forms(&p.forms),
        moves: clone_move_lists(&p.moves),
        stats: p.stats,
        types: p.types,
    };
    r
}

/// One Pokémon's abilities filled in from its granted slots; a Pokémon
/// no row granted an ability keeps its default pair.
pub open spec fn spec_apply_abilities(p: PokemonView, t: Seq<PokemonAbilities>) -> PokemonView {
    let slots = t[p.id.0 as int];
    PokemonView {
        abilities: match (slots.first, slots.second) {
            (Some(first), Some(second)) => OneOrTwo::Two(first, second),
            (Some(first), None) => OneOrTwo::One(first),
            (None, Some(second)) => OneOrTwo::One(second),
            (None, None) => p.abilities,
        },
        hidden_ability: slots.hidden,
        ..p
    }
}

/// One Pokémon's forms replaced by the forms grouped for it.
pub open spec fn spec_apply_forms(p: PokemonView, t: Seq<Seq<FormView>>) -> PokemonView {
    PokemonView { forms: t[p.id.0 as int], ..p }
}

/// One Pokémon's moves replaced by the moves grouped for it.
pub open spec fn spec_apply_moves(p: PokemonView, t: Seq<Seq<Seq<PokemonMove>>>) -> PokemonView {
    PokemonView { moves: t[p.id.0 as int], ..p }
}

/// One Pokémon's types filled in from its granted slots; a Pokémon no
/// row granted a type keeps its default.
pub open spec fn spec_apply_types(p: PokemonView, t: Seq<TypeSlots>) -> PokemonView {
    let slots = t[p.id.0 as int];
    PokemonView {
        types: match (slots.first, slots.second) {
            (Some(first), Some(second)) => OneOrTwo::Two(first, second),
            (Some(first), None) => OneOrTwo::One(first),
            (None, Some(second)) => OneOrTwo::One(second),
            (None, None) => p.types,
        },
        ..p
    }
}

/// One Pokémon's stats replaced by the stats assembled for it.
pub open spec fn spec_apply_stats(p: PokemonView, t: Seq<BaseStats>) -> PokemonView {
    PokemonView { stats: t[p.id.0 as int], ..p }
}

/// The dense table of concrete Pokémon, grouped by species: each
/// species owns the list of its Pokémon in row order.
pub struct PokemonTable(pub Vec<Vec<Pokemon>>);

impl View for PokemonTable {
    type V = Seq<Seq<PokemonView>>;

    open spec fn view(&self) -> Seq<Seq<PokemonView>> {
        self.0@.map_values(|slot: Vec<Pokemon>| slot@.map_values(|p: Pokemon| p@))
    }
}

impl PokemonTable {
    /// A dense Pokémon table has one slot per species.
    pub open spec fn spec_wf(v: Seq<Seq<PokemonView>>) -> bool {
        v.len() == 649
    }

    /// Every Pokémon in the table carries an in-range identifier.
    pub open spec fn spec_ids_ok(v: Seq<Seq<PokemonView>>) -> bool {
        forall|s: int, j: int|
            0 <= s < v.len() && 0 <= j < v[s].len() ==> #[trigger] v[s][j].id.0 < 673
    }

    /// Every slot of a fresh table owns an empty sequence.
    pub fn new() -> (r: Self)
        ensures
            r@ == Self::spec_empty(),
            Self::spec_wf(r@),
            Self::spec_ids_ok(r@),
    {
        Self::from_empty_csv()
    }

    /// Give every Pokémon the abilities granted for it; a Pokémon no\n    /// row granted an ability keeps its default pair.
    pub fn set_abilities(&mut self, aux: &AbilityTable)
        requires
            Self::spec_wf(old(self)@),
            Self::spec_ids_ok(old(self)@),
            AbilityTable::spec_wf(aux@),
        ensures
            Self::spec_wf(final(self)@),
            Self::spec_ids_ok(final(self)@),
            forall|s: int| 0 <= s < 649 ==> #[trigger] final(self)@[s].len() == old(self)@[s].len(),
            forall|s: int, j: int|
                0 <= s < 649 && 0 <= j < old(self)@[s].len() ==> final(self)@[s][j] == spec_apply_abilities(
                    old(self)@[s][j],
                    aux@,
                ),
    {
        let ghost orig = self@;
        let mut s: usize = 0;
        while s < 649
            invariant
                orig == old(self)@,
                Self::spec_wf(orig),
                Self::spec_ids_ok(orig),
                AbilityTable::spec_wf(aux@),
                s <= 649,
                self@.len() == 649,
                forall|t: int| s <= t < 649 ==> #[trigger] self@[t] == orig[t],
                forall|t: int| 0 <= t < s ==> #[trigger] self@[t].len() == orig[t].len(),
                forall|t: int, j: int|
                    0 <= t < s && 0 <= j < orig[t].len() ==> self@[t][j] == spec_apply_abilities(
                        orig[t][j],
                        aux@,
                    ),
            decreases 649 - s,
        {
            let ghost before_outer = self@;
            proof {
                assert(self@[s as int] == orig[s as int]);
            }
            let mut row: Vec<Pokemon> = self.0.remove(s);
            proof {
                assert(row@.map_values(|p: Pokemon| p@) == orig[s as int]);
            }
            let n: usize = row.len();
            let mut j: usize = 0;
            while j < n
                invariant
                    j <= n,
                    n == row@.len(),
                    Self::spec_wf(orig),
                    Self::spec_ids_ok(orig),
                    AbilityTable::spec_wf(aux@),
                    s < 649,
                    orig[s as int].len() == n,
                    forall|k: int|
                        0 <= k < j ==> row@.map_values(|p: Pokemon| p@)[k] == spec_apply_abilities(
                            orig[s as int][k],
                            aux@,
                        ),
                    forall|k: int|
                        j <= k < n ==> row@.map_values(|p: Pokemon| p@)[k] == orig[s as int][k],
                decreases n - j,
            {
                let ghost row_before = row@.map_values(|p: Pokemon| p@);
                let p: Pokemon = row.remove(j);
                proof {
                    assert(p@ == orig[s as int][j as int]);
                    assert(orig[s as int][j as int].id.0 < 673);
                }
                let slots: PokemonAbilities = aux.0[p.id.0 as usize];
                let new_ab: OneOrTwo<Ability> = match OneOrTwo::from_options(
                    [slots.first, slots.second],
                ) {
                    Some(ab) => ab,
                    None => p.abilities,
                };
                let p2 = Pokemon {
                    id: p.id,
                    abilities: new_ab,
                    hidden_ability: slots.hidden,
                    forms: p.forms,
                    moves: p.moves,
                    stats: p.stats,
                    types: p.types,
                };
                row.insert(j, p2);
                proof {
                    assert(row@.map_values(|p2x: Pokemon| p2x@) =~= row_before.update(
                        j as int,
                        p2@,
                    ));
                    assert(p2@ == spec_apply_abilities(orig[s as int][j as int], aux@));
                }
                j = j + 1;
            }
            self.0.insert(s, row);
            proof {
                assert(self@ =~~= before_outer.update(
                    s as int,
                    row@.map_values(|p: Pokemon| p@),
                ));
            }
            s = s + 1;
        }
    }

    /// Give every Pokémon the forms grouped for it; a Pokémon with no\n    /// form rows owns an empty sequence.
    pub fn set_forms(&mut self, aux: &FormTable)
        requires
            Self::spec_wf(old(self)@),
            Self::spec_ids_ok(old(self)@),
            FormTable::spec_wf(aux@),
        ensures
            Self::spec_wf(final(self)@),
            Self::spec_ids_ok(final(self)@),
            forall|s: int| 0 <= s < 649 ==> #[trigger] final(self)@[s].len() == old(self)@[s].len(),
            forall|s: int, j: int|
                0 <= s < 649 && 0 <= j < old(self)@[s].len() ==> final(self)@[s][j] == spec_apply_forms(
                    old(self)@[s][j],
                    aux@,
                ),
    {
        let ghost orig = self@;
        let mut s: usize = 0;
        while s < 649
            invariant
                orig == old(self)@,
                Self::spec_wf(orig),
                Self::spec_ids_ok(orig),
                FormTable::spec_wf(aux@),
                s <= 649,
                self@.len() == 649,
                forall|t: int| s <= t < 649 ==> #[trigger] self@[t] == orig[t],
                forall|t: int| 0 <= t < s ==> #[trigger] self@[t].len() == orig[t].len(),
                forall|t: int, j: int|
                    0 <= t < s && 0 <= j < orig[t].len() ==> self@[t][j] == spec_apply_forms(
                        orig[t][j],
                        aux@,
                    ),
            decreases 649 - s,
        {
            let ghost before_outer = self@;
            proof {
                assert(self@[s as int] == orig[s as int]);
            }
            let mut row: Vec<Pokemon> = self.0.remove(s);
            proof {
                assert(row@.map_values(|p: Pokemon| p@) == orig[s as int]);
            }
            let n: usize = row.len();
            let mut j: usize = 0;
            while j < n
                invariant
                    j <= n,
                    n == row@.len(),
                    Self::spec_wf(orig),
                    Self::spec_ids_ok(orig),
                    FormTable::spec_wf(aux@),
                    s < 649,
                    orig[s as int].len() == n,
                    forall|k: int|
                        0 <= k < j ==> row@.map_values(|p: Pokemon| p@)[k] == spec_apply_forms(
                            orig[s as int][k],
                            aux@,
                        ),
                    forall|k: int|
                        j <= k < n ==> row@.map_values(|p: Pokemon| p@)[k] == orig[s as int][k],
                decreases n - j,
            {
                let ghost row_before = row@.map_values(|p: Pokemon| p@);
                let p: Pokemon = row.remove(j);
                proof {
                    assert(p@ == orig[s as int][j as int]);
                    assert(orig[s as int][j as int].id.0 < 673);
                }
                let p2 = Pokemon {
                    id: p.id,
                    abilities: p.abilities,
                    hidden_ability: p.hidden_ability,
                    forms: clone_forms(&aux.0[p.id.0 as usize]),
                    moves: p.moves,
                    stats: p.stats,
                    types: p.types,
                };
                row.insert(j, p2);
                proof {
                    assert(row@.map_values(|p2x: Pokemon| p2x@) =~= row_before.update(
                        j as int,
                        p2@,
                    ));
                    assert(p2@ == spec_apply_forms(orig[s as int][j as int], aux@));
                }
                j = j + 1;
            }
            self.0.insert(s, row);
            proof {
                assert(self@ =~~= before_outer.update(
                    s as int,
                    row@.map_values(|p: Pokemon| p@),
                ));
            }
            s = s + 1;
        }
    }

    /// Give every Pokémon the moves grouped for it, per version group.
    pub fn set_moves(&mut self, aux: &PokemonMoveTable)
        requires
            Self::spec_wf(old(self)@),
            Self::spec_ids_ok(old(self)@),
            PokemonMoveTable::spec_wf(aux@),
        ensures
            Self::spec_wf(final(self)@),
            Self::spec_ids_ok(final(self)@),
            forall|s: int| 0 <= s < 649 ==> #[trigger] final(self)@[s].len() == old(self)@[s].len(),
            forall|s: int, j: int|
                0 <= s < 649 && 0 <= j < old(self)@[s].len() ==> final(self)@[s][j] == spec_apply_moves(
                    old(self)@[s][j],
                    aux@,
                ),
    {
        let ghost orig = self@;
        let mut s: usize = 0;
        while s < 649
            invariant
                orig == old(self)@,
                Self::spec_wf(orig),
                Self::spec_ids_ok(orig),
                PokemonMoveTable::spec_wf(aux@),
                s <= 649,
                self@.len() == 649,
                forall|t: int| s <= t < 649 ==> #[trigger] self@[t] == orig[t],
                forall|t: int| 0 <= t < s ==> #[trigger] self@[t].len() == orig[t].len(),
                forall|t: int, j: int|
                    0 <= t < s && 0 <= j < orig[t].len() ==> self@[t][j] == spec_apply_moves(
                        orig[t][j],
                        aux@,
                    ),
            decreases 649 - s,
        {
            let ghost before_outer = self@;
            proof {
                assert(self@[s as int] == orig[s as int]);
            }
            let mut row: Vec<Pokemon> = self.0.remove(s);
            proof {
                assert(row@.map_values(|p: Pokemon| p@) == orig[s as int]);
            }
            let n: usize = row.len();
            let mut j: usize = 0;
            while j < n
                invariant
                    j <= n,
                    n == row@.len(),
                    Self::spec_wf(orig),
                    Self::spec_ids_ok(orig),
                    PokemonMoveTable::spec_wf(aux@),
                    s < 649,
                    orig[s as int].len() == n,
                    forall|k: int|
                        0 <= k < j ==> row@.map_values(|p: Pokemon| p@)[k] == spec_apply_moves(
                            orig[s as int][k],
                            aux@,
                        ),
                    forall|k: int|
                        j <= k < n ==> row@.map_values(|p: Pokemon| p@)[k] == orig[s as int][k],
                decreases n - j,
            {
                let ghost row_before = row@.map_values(|p: Pokemon| p@);
                let p: Pokemon = row.remove(j);
                proof {
                    assert(p@ == orig[s as int][j as int]);
                    assert(orig[s as int][j as int].id.0 < 673);
                }
                let p2 = Pokemon {
                    id: p.id,
                    abilities: p.abilities,
                    hidden_ability: p.hidden_ability,
                    forms: p.forms,
                    moves: clone_move_lists(&aux.0[p.id.0 as usize]),
                    stats: p.stats,
                    types: p.types,
                };
                row.insert(j, p2);
                proof {
                    assert(row@.map_values(|p2x: Pokemon| p2x@) =~= row_before.update(
                        j as int,
                        p2@,
                    ));
                    assert(p2@ == spec_apply_moves(orig[s as int][j as int], aux@));
                }
                j = j + 1;
            }
            self.0.insert(s, row);
            proof {
                assert(self@ =~~= before_outer.update(
                    s as int,
                    row@.map_values(|p: Pokemon| p@),
                ));
            }
            s = s + 1;
        }
    }

    /// Give every Pokémon the types granted for it; a Pokémon no row\n    /// granted a type keeps its default.
    pub fn set_types(&mut self, aux: &TypeTable)
        requires
            Self::spec_wf(old(self)@),
            Self::spec_ids_ok(old(self)@),
            TypeTable::spec_wf(aux@),
        ensures
            Self::spec_wf(final(self)@),
            Self::spec_ids_ok(final(self)@),
            forall|s: int| 0 <= s < 649 ==> #[trigger] final(self)@[s].len() == old(self)@[s].len(),
            forall|s: int, j: int|
                0 <= s < 649 && 0 <= j < old(self)@[s].len() ==> final(self)@[s][j] == spec_apply_types(
                    old(self)@[s][j],
                    aux@,
                ),
    {
        let ghost orig = self@;
        let mut s: usize = 0;
        while s < 649
            invariant
                orig == old(self)@,
                Self::spec_wf(orig),
                Self::spec_ids_ok(orig),
                TypeTable::spec_wf(aux@),
                s <= 649,
                self@.len() == 649,
                forall|t: int| s <= t < 649 ==> #[trigger] self@[t] == orig[t],
                forall|t: int| 0 <= t < s ==> #[trigger] self@[t].len() == orig[t].len(),
                forall|t: int, j: int|
                    0 <= t < s && 0 <= j < orig[t].len() ==> self@[t][j] == spec_apply_types(
                        orig[t][j],
                        aux@,
                    ),
            decreases 649 - s,
        {
            let ghost before_outer = self@;
            proof {
                assert(self@[s as int] == orig[s as int]);
            }
            let mut row: Vec<Pokemon> = self.0.remove(s);
            proof {
                assert(row@.map_values(|p: Pokemon| p@) == orig[s as int]);
            }
            let n: usize = row.len();
            let mut j: usize = 0;
            while j < n
                invariant
                    j <= n,
                    n == row@.len(),
                    Self::spec_wf(orig),
                    Self::spec_ids_ok(orig),
                    TypeTable::spec_wf(aux@),
                    s < 649,
                    orig[s as int].len() == n,
                    forall|k: int|
                        0 <= k < j ==> row@.map_values(|p: Pokemon| p@)[k] == spec_apply_types(
                            orig[s as int][k],
                            aux@,
                        ),
                    forall|k: int|
                        j <= k < n ==> row@.map_values(|p: Pokemon| p@)[k] == orig[s as int][k],
                decreases n - j,
            {
                let ghost row_before = row@.map_values(|p: Pokemon| p@);
                let p: Pokemon = row.remove(j);
                proof {
                    assert(p@ == orig[s as int][j as int]);
                    assert(orig[s as int][j as int].id.0 < 673);
                }
                let slots: TypeSlots = aux.0[p.id.0 as usize];
                let new_types: OneOrTwo<Type> = match OneOrTwo::from_options(
                    [slots.first, slots.second],
                ) {
                    Some(ts) => ts,
                    None => p.types,
                };
                let p2 = Pokemon {
                    id: p.id,
                    abilities: p.abilities,
                    hidden_ability: p.hidden_ability,
                    forms: p.forms,
                    moves: p.moves,
                    stats: p.stats,
                    types: new_types,
                };
                row.insert(j, p2);
                proof {
                    assert(row@.map_values(|p2x: Pokemon| p2x@) =~= row_before.update(
                        j as int,
                        p2@,
                    ));
                    assert(p2@ == spec_apply_types(orig[s as int][j as int], aux@));
                }
                j = j + 1;
            }
            self.0.insert(s, row);
            proof {
                assert(self@ =~~= before_outer.update(
                    s as int,
                    row@.map_values(|p: Pokemon| p@),
                ));
            }
            s = s + 1;
        }
    }

    /// Give every Pokémon the base stats assembled for it.
    pub fn set_stats(&mut self, aux: &StatTable)
        requires
            Self::spec_wf(old(self)@),
            Self::spec_ids_ok(old(self)@),
            StatTable::spec_wf(aux@),
        ensures
            Self::spec_wf(final(self)@),
            Self::spec_ids_ok(final(self)@),
            forall|s: int| 0 <= s < 649 ==> #[trigger] final(self)@[s].len() == old(self)@[s].len(),
            forall|s: int, j: int|
                0 <= s < 649 && 0 <= j < old(self)@[s].len() ==> final(self)@[s][j] == spec_apply_stats(
                    old(self)@[s][j],
                    aux@,
                ),
    {
        let ghost orig = self@;
        let mut s: usize = 0;
        while s < 649
            invariant
                orig == old(self)@,
                Self::spec_wf(orig),
                Self::spec_ids_ok(orig),
                StatTable::spec_wf(aux@),
                s <= 649,
                self@.len() == 649,
                forall|t: int| s <= t < 649 ==> #[trigger] self@[t] == orig[t],
                forall|t: int| 0 <= t < s ==> #[trigger] self@[t].len() == orig[t].len(),
                forall|t: int, j: int|
                    0 <= t < s && 0 <= j < orig[t].len() ==> self@[t][j] == spec_apply_stats(
                        orig[t][j],
                        aux@,
                    ),
            decreases 649 - s,
        {
            let ghost before_outer = self@;
            proof {
                assert(self@[s as int] == orig[s as int]);
            }
            let mut row: Vec<Pokemon> = self.0.remove(s);
            proof {
                assert(row@.map_values(|p: Pokemon| p@) == orig[s as int]);
            }
            let n: usize = row.len();
            let mut j: usize = 0;
            while j < n
                invariant
                    j <= n,
                    n == row@.len(),
                    Self::spec_wf(orig),
                    Self::spec_ids_ok(orig),
                    StatTable::spec_wf(aux@),
                    s < 649,
                    orig[s as int].len() == n,
                    forall|k: int|
                        0 <= k < j ==> row@.map_values(|p: Pokemon| p@)[k] == spec_apply_stats(
                            orig[s as int][k],
                            aux@,
                        ),
                    forall|k: int|
                        j <= k < n ==> row@.map_values(|p: Pokemon| p@)[k] == orig[s as int][k],
                decreases n - j,
            {
                let ghost row_before = row@.map_values(|p: Pokemon| p@);
                let p: Pokemon = row.remove(j);
                proof {
                    assert(p@ == orig[s as int][j as int]);
                    assert(orig[s as int][j as int].id.0 < 673);
                }
                let p2 = Pokemon {
                    id: p.id,
                    abilities: p.abilities,
                    hidden_ability: p.hidden_ability,
                    forms: p.forms,
                    moves: p.moves,
                    stats: aux.0[p.id.0 as usize],
                    types: p.types,
                };
                row.insert(j, p2);
                proof {
                    assert(row@.map_values(|p2x: Pokemon| p2x@) =~= row_before.update(
                        j as int,
                        p2@,
                    ));
                    assert(p2@ == spec_apply_stats(orig[s as int][j as int], aux@));
                }
                j = j + 1;
            }
            self.0.insert(s, row);
            proof {
                assert(self@ =~~= before_outer.update(
                    s as int,
                    row@.map_values(|p: Pokemon| p@),
                ));
            }
            s = s + 1;
        }
    }

}

impl FromCsvIncremental for PokemonTable {
    open spec fn spec_empty() -> Seq<Seq<PokemonView>> {
        Seq::new(649, |i: int| Seq::<PokemonView>::empty())
    }

    open spec fn wf_state(v: Seq<Seq<PokemonView>>) -> bool {
        Self::spec_wf(v) && Self::spec_ids_ok(v)
    }

    open spec fn spec_load(state: Seq<Seq<PokemonView>>, rec: RecordView) -> (Seq<Seq<
        PokemonView,
    >>, Option<Error>) {
        match spec_from_field::<PokemonId>(rec, 0) {
            Err(e) => (state, Some(e)),
            Ok(pokemon_id) => match spec_from_field::<SpeciesId>(rec, 1) {
                Err(e) => (state, Some(e)),
                Ok(species_id) => (
                    state.update(
                        species_id.0 as int,
                        state[species_id.0 as int].push(spec_default_pokemon(pokemon_id)),
                    ),
                    None,
                ),
            },
        }
    }

    fn from_empty_csv() -> (r: Self) {
        let mut v: Vec<Vec<Pokemon>> = Vec::new();
        let mut i: usize = 0;
        while i < 649
            invariant
                i <= 649,
                v@.len() == i,
                forall|j: int| 0 <= j < i ==> v@[j]@.len() == 0,
            decreases 649 - i,
        {
            v.push(Vec::new());
            i = i + 1;
        }
        let r = PokemonTable(v);
        proof {
            assert(r@ =~~= Self::spec_empty());
        }
        r
    }

    fn load_csv_record(&mut self, record: &Record) -> (r: Result<(), Error>) {
        let pokemon_id: PokemonId = match from_field::<PokemonId>(record, 0) {
            Ok(t) => t,
            Err(e) => {
                return Err(e);
            },
        };
        let species_id: SpeciesId = match from_field::<SpeciesId>(record, 1) {
            Ok(t) => t,
            Err(e) => {
                return Err(e);
            },
        };
        let fresh = Pokemon {
            id: pokemon_id,
            abilities: OneOrTwo::One(Ability::Stench),
            hidden_ability: None,
            forms: Vec::new(),
            moves: empty_version_lists(),
            stats: BaseStats::default(),
            types: OneOrTwo::One(Type::Normal),
        };
        let ghost prev = self@;
        proof {
            assert(fresh@ =~~= spec_default_pokemon(pokemon_id));
        }
        let mut slot: Vec<Pokemon> = self.0.remove(species_id.0 as usize);
        slot.push(fresh);
        self.0.insert(species_id.0 as usize, slot);
        proof {
            assert(self@ =~~= prev.update(
                species_id.0 as int,
                prev[species_id.0 as int].push(spec_default_pokemon(pokemon_id)),
            ));
        }
        Ok(())
    }
}


/// A species of Pokémon, with its denormalized data.
#[derive(Debug)]
pub struct Species {
    /// The identifier of the species.
    pub id: SpeciesId,
    /// The PascalCase name of the species.
    pub name: String,
    /// The generation the species was introduced.
    pub generation: Generation,
    /// The chance of a female, in eighths, or -1 for genderless.
    pub gender_rate: i8,
    /// The concrete Pokémon of this species, in row order.
    pub pokemon: Vec<Pokemon>,
    /// The one or two egg groups of the species.
    pub egg_groups: OneOrTwo<EggGroup>,
    /// How the species evolves from its predecessor, if it does.
    pub evolves_from: Option<EvolvesFrom>,
}

/// The mathematical content of a species.
#[verifier::ext_equal]
pub struct SpeciesView {
    pub id: SpeciesId,
    pub name: Seq<char>,
    pub generation: Generation,
    pub gender_rate: i8,
    pub pokemon: Seq<PokemonView>,
    pub egg_groups: OneOrTwo<EggGroup>,
    pub evolves_from: Option<EvolvesFrom>,
}

impl View for Species {
    type V = SpeciesView;

    open spec fn view(&self) -> SpeciesView {
        SpeciesView {
            id: self.id,
            name: self.name@,
            generation: self.generation,
            gender_rate: self.gender_rate,
            pokemon: self.pokemon@.map_values(|p: Pokemon| p@),
            egg_groups: self.egg_groups,
            evolves_from: self.evolves_from,
        }
    }
}

/// The view of a default species slot.
pub open spec fn spec_default_species() -> SpeciesView {
    SpeciesView {
        id: SpeciesId(65535),
        name: Seq::empty(),
        generation: Generation::V,
        gender_rate: 0,
        pokemon: Seq::empty(),
        egg_groups: OneOrTwo::One(EggGroup::NoEggs),
        evolves_from: None,
    }
}

/// Copy a list of Pokémon, element by element.
fn clone_pokemon_list(v: &Vec<Pokemon>) -> (r: Vec<Pokemon>)
    ensures
        r@.map_values(|p: Pokemon| p@) == v@.map_values(|p: Pokemon| p@),
{
    let mut r: Vec<Pokemon> = Vec::new();
    let mut i: usize = 0;
    while i < v.len()
        invariant
            i <= v@.len(),
            r@.len() == i,
            forall|j: int| 0 <= j < i ==> r@[j]@ == v@[j]@,
        decreases v@.len() - i,
    {
        r.push(clone_pokemon(&v[i]));
        i = i + 1;
    }
    proof {
        assert(r@.map_values(|p: Pokemon| p@) =~= v@.map_values(|p: Pokemon| p@));
    }
    r
}

/// One species' Pokémon replaced by the list grouped for it.
pub open spec fn spec_apply_pokemon(sp: SpeciesView, i: int, t: Seq<Seq<PokemonView>>)
    -> SpeciesView {
    SpeciesView { pokemon: t[i], ..sp }
}

/// One species' egg groups filled in from the groups appended for it;
/// a species with no rows keeps its default.
pub open spec fn spec_apply_egg_groups(sp: SpeciesView, i: int, t: Seq<Seq<EggGroup>>)
    -> SpeciesView {
    let gs = t[i];
    SpeciesView {
        egg_groups: if gs.len() >= 2 {
            OneOrTwo::Two(gs[0], gs[1])
        } else if gs.len() == 1 {
            OneOrTwo::One(gs[0])
        } else {
            sp.egg_groups
        },
        ..sp
    }
}

/// One species' evolution enriched: only a species whose back-reference
/// is already present takes the detail fields, keeping its origin.
pub open spec fn spec_apply_evolution(sp: SpeciesView, i: int, t: Map<u16, EvolvesFrom>)
    -> SpeciesView {
    match sp.evolves_from {
        Some(e) => {
            let detail = if t.contains_key(i as u16) {
                t[i as u16]
            } else {
                EvolvesFrom::spec_default()
            };
            SpeciesView { evolves_from: Some(EvolvesFrom { from_id: e.from_id, ..detail }), ..sp }
        },
        None => sp,
    }
}

/// The dense table of species, one slot per species identifier.
pub struct SpeciesTable(pub Vec<Species>);

impl View for SpeciesTable {
    type V = Seq<SpeciesView>;

    open spec fn view(&self) -> Seq<SpeciesView> {
        self.0@.map_values(|sp: Species| sp@)
    }
}

impl SpeciesTable {
    /// A dense species table has one slot per species.
    pub open spec fn spec_wf(v: Seq<SpeciesView>) -> bool {
        v.len() == 649
    }

    /// Every slot of a fresh table holds the default species record.
    pub fn new() -> (r: Self)
        ensures
            r@ == Self::spec_empty(),
            Self::spec_wf(r@),
    {
        Self::from_empty_csv()
    }

    /// The species with an identifier; in-range indexing never fails.
    pub fn get(&self, id: SpeciesId) -> (r: &Species)
        requires
            Self::spec_wf(self@),
            id.0 < 649,
        ensures
            r@ == self@[id.0 as int],
    {
        &self.0[id.0 as usize]
    }

    /// Give every species the Pokémon grouped for it.
    pub fn set_pokemon(&mut self, t: &PokemonTable)
        requires
            Self::spec_wf(old(self)@),
            PokemonTable::spec_wf(t@),
        ensures
            Self::spec_wf(final(self)@),
            forall|i: int|
                0 <= i < 649 ==> final(self)@[i] == spec_apply_pokemon(old(self)@[i], i, t@),
    {
        let ghost orig = self@;
        let mut i: usize = 0;
        while i < 649
            invariant
                orig == old(self)@,
                Self::spec_wf(orig),
                PokemonTable::spec_wf(t@),
                i <= 649,
                self@.len() == 649,
                forall|k: int| i <= k < 649 ==> #[trigger] self@[k] == orig[k],
                forall|k: int| 0 <= k < i ==> self@[k] == spec_apply_pokemon(orig[k], k, t@),
            decreases 649 - i,
        {
            let ghost prevv = self@;
            proof {
                assert(self@[i as int] == orig[i as int]);
            }
            let sp: Species = self.0.remove(i);
            proof {
                assert(sp@ == orig[i as int]);
            }
            let sp2 = Species {
                id: sp.id,
                name: sp.name,
                generation: sp.generation,
                gender_rate: sp.gender_rate,
                pokemon: clone_pokemon_list(&t.0[i]),
                egg_groups: sp.egg_groups,
                evolves_from: sp.evolves_from,
            };
            proof {
                assert(t@[i as int] == t.0@[i as int]@.map_values(|p: Pokemon| p@));
                assert(sp2@ =~= spec_apply_pokemon(orig[i as int], i as int, t@));
            }
            self.0.insert(i, sp2);
            proof {
                assert(self@ =~~= prevv.update(i as int, sp2@));
            }
            i = i + 1;
        }
    }

    /// Give every species the egg groups appended for it; a species
    /// with no rows keeps its default.
    pub fn set_egg_groups(&mut self, t: &EggGroupTable)
        requires
            Self::spec_wf(old(self)@),
            EggGroupTable::spec_wf(t@),
        ensures
            Self::spec_wf(final(self)@),
            forall|i: int|
                0 <= i < 649 ==> final(self)@[i] == spec_apply_egg_groups(old(self)@[i], i, t@),
    {
        let ghost orig = self@;
        let mut i: usize = 0;
        while i < 649
            invariant
                orig == old(self)@,
                Self::spec_wf(orig),
                EggGroupTable::spec_wf(t@),
                i <= 649,
                self@.len() == 649,
                forall|k: int| i <= k < 649 ==> #[trigger] self@[k] == orig[k],
                forall|k: int| 0 <= k < i ==> self@[k] == spec_apply_egg_groups(orig[k], k, t@),
            decreases 649 - i,
        {
            let ghost prevv = self@;
            proof {
                assert(self@[i as int] == orig[i as int]);
                assert(t@[i as int] == t.0@[i as int]@);
            }
            let sp: Species = self.0.remove(i);
            proof {
                assert(sp@ == orig[i as int]);
            }
            let slot: &Vec<EggGroup> = &t.0[i];
            let groups: OneOrTwo<EggGroup> = if slot.len() >= 2 {
                OneOrTwo::Two(slot[0], slot[1])
            } else if slot.len() == 1 {
                OneOrTwo::One(slot[0])
            } else {
                sp.egg_groups
            };
            let sp2 = Species {
                id: sp.id,
                name: sp.name,
                generation: sp.generation,
                gender_rate: sp.gender_rate,
                pokemon: sp.pokemon,
                egg_groups: groups,
                evolves_from: sp.evolves_from,
            };
            proof {
                assert(sp2@ =~= spec_apply_egg_groups(orig[i as int], i as int, t@));
            }
            self.0.insert(i, sp2);
            proof {
                assert(self@ =~~= prevv.update(i as int, sp2@));
            }
            i = i + 1;
        }
    }

    /// Enrich every species' evolution back-reference: only a species
    /// whose back-reference is already present takes the detail fields,
    /// keeping its origin; its presence is never re-decided here.
    pub fn set_evolutions(&mut self, t: &EvolutionTable)
        requires
            Self::spec_wf(old(self)@),
        ensures
            Self::spec_wf(final(self)@),
            forall|i: int|
                0 <= i < 649 ==> final(self)@[i] == spec_apply_evolution(old(self)@[i], i, t@),
    {
        let ghost orig = self@;
        let mut i: usize = 0;
        while i < 649
            invariant
                orig == old(self)@,
                Self::spec_wf(orig),
                i <= 649,
                self@.len() == 649,
                forall|k: int| i <= k < 649 ==> #[trigger] self@[k] == orig[k],
                forall|k: int| 0 <= k < i ==> self@[k] == spec_apply_evolution(orig[k], k, t@),
            decreases 649 - i,
        {
            let ghost prevv = self@;
            proof {
                assert(self@[i as int] == orig[i as int]);
            }
            let sp: Species = self.0.remove(i);
            proof {
                assert(sp@ == orig[i as int]);
            }
            let new_from: Option<EvolvesFrom> = match sp.evolves_from {
                Some(e) => {
                    let detail: EvolvesFrom = match t.0.get(&(i as u16)) {
                        Some(d) => *d,
                        None => EvolvesFrom::default(),
                    };
                    Some(
                        EvolvesFrom {
                            from_id: e.from_id,
                            trigger: detail.trigger,
                            level: detail.level,
                            gender: detail.gender,
                            move_id: detail.move_id,
                            relative_physical_stats: detail.relative_physical_stats,
                        },
                    )
                },
                None => None,
            };
            let sp2 = Species {
                id: sp.id,
                name: sp.name,
                generation: sp.generation,
                gender_rate: sp.gender_rate,
                pokemon: sp.pokemon,
                egg_groups: sp.egg_groups,
                evolves_from: new_from,
            };
            proof {
                assert(sp2@ =~= spec_apply_evolution(orig[i as int], i as int, t@));
            }
            self.0.insert(i, sp2);
            proof {
                assert(self@ =~~= prevv.update(i as int, sp2@));
            }
            i = i + 1;
        }
    }
}

impl FromCsvIncremental for SpeciesTable {
    open spec fn spec_empty() -> Seq<SpeciesView> {
        Seq::new(649, |i: int| spec_default_species())
    }

    open spec fn wf_state(v: Seq<SpeciesView>) -> bool {
        Self::spec_wf(v)
    }

    open spec fn spec_load(state: Seq<SpeciesView>, rec: RecordView) -> (Seq<SpeciesView>, Option<
        Error,
    >) {
        match spec_from_field::<SpeciesId>(rec, 0) {
            Err(e) => (state, Some(e)),
            Ok(id) => {
                if rec.fields.len() <= 1 {
                    (state, Some(Error::RecordLength { line: rec.line, index: 1 }))
                } else {
                    match spec_from_field::<Generation>(rec, 2) {
                        Err(e) => (state, Some(e)),
                        Ok(generation) => match spec_from_field::<i8>(rec, 8) {
                            Err(e) => (state, Some(e)),
                            Ok(gender_rate) => {
                                let filled = SpeciesView {
                                    id,
                                    name: spec_pascal_case(rec.fields[1]),
                                    generation,
                                    gender_rate,
                                    ..state[id.0 as int]
                                };
                                let mid = state.update(id.0 as int, filled);
                                match spec_from_veekun_option_field::<SpeciesId>(rec, 3) {
                                    Err(e) => (mid, Some(e)),
                                    Ok(from) => match from.0 {
                                        Some(from_id) => (
                                            mid.update(
                                                id.0 as int,
                                                SpeciesView {
                                                    evolves_from: Some(
                                                        EvolvesFrom {
                                                            from_id,
                                                            ..EvolvesFrom::spec_default()
                                                        },
                                                    ),
                                                    ..filled
                                                },
                                            ),
                                            None,
                                        ),
                                        None => (mid, None),
                                    },
                                }
                            },
                        },
                    }
                }
            },
        }
    }

    fn from_empty_csv() -> (r: Self) {
        let mut v: Vec<Species> = Vec::new();
        let mut i: usize = 0;
        while i < 649
            invariant
                i <= 649,
                v@.len() == i,
                forall|j: int| 0 <= j < i ==> v@[j]@ == spec_default_species(),
            decreases 649 - i,
        {
            let sp = Species {
                id: SpeciesId(65535),
                name: String::new(),
                generation: Generation::V,
                gender_rate: 0,
                pokemon: Vec::new(),
                egg_groups: OneOrTwo::One(EggGroup::NoEggs),
                evolves_from: None,
            };
            proof {
                assert(sp@ =~= spec_default_species());
            }
            v.push(sp);
            i = i + 1;
        }
        let r = SpeciesTable(v);
        proof {
            assert(r@ =~= Self::spec_empty());
        }
        r
    }

    fn load_csv_record(&mut self, record: &Record) -> (r: Result<(), Error>) {
        let id: SpeciesId = match from_field::<SpeciesId>(record, 0) {
            Ok(t) => t,
            Err(e) => {
                return Err(e);
            },
        };
        let raw_name: &str = match crate::csv::get_field(record, 1) {
            Ok(t) => t,
            Err(e) => {
                return Err(e);
            },
        };
        let name: String = to_pascal_case(raw_name);
        let generation: Generation = match from_field::<Generation>(record, 2) {
            Ok(t) => t,
            Err(e) => {
                return Err(e);
            },
        };
        let gender_rate: i8 = match from_field::<i8>(record, 8) {
            Ok(t) => t,
            Err(e) => {
                return Err(e);
            },
        };
        let ghost prev = self@;
        let sp: Species = self.0.remove(id.0 as usize);
        let filled = Species {
            id,
            name,
            generation,
            gender_rate,
            pokemon: sp.pokemon,
            egg_groups: sp.egg_groups,
            evolves_from: sp.evolves_from,
        };
        self.0.insert(id.0 as usize, filled);
        let ghost mid = self@;
        proof {
            assert(mid =~= prev.update(
                id.0 as int,
                SpeciesView {
                    id,
                    name: spec_pascal_case(record@.fields[1]),
                    generation,
                    gender_rate,
                    ..prev[id.0 as int]
                },
            ));
        }
        let from: VeekunOption<SpeciesId> = match from_veekun_option_field::<SpeciesId>(
            record,
            3,
        ) {
            Ok(t) => t,
            Err(e) => {
                return Err(e);
            },
        };
        match from.0 {
            Some(from_id) => {
                let sp3: Species = self.0.remove(id.0 as usize);
                let updated = Species {
                    id: sp3.id,
                    name: sp3.name,
                    generation: sp3.generation,
                    gender_rate: sp3.gender_rate,
                    pokemon: sp3.pokemon,
                    egg_groups: sp3.egg_groups,
                    evolves_from: Some(
                        EvolvesFrom {
                            from_id,
                            trigger: EvolutionTrigger::Trade,
                            level: 0,
                            gender: Gender::Genderless,
                            move_id: MoveId(65535),
                            relative_physical_stats: None,
                        },
                    ),
                };
                self.0.insert(id.0 as usize, updated);
                proof {
                    assert(self@ =~= Self::spec_load(prev, record@).0);
                }
                Ok(())
            },
            None => {
                proof {
                    assert(self@ =~= Self::spec_load(prev, record@).0);
                }
                Ok(())
            },
        }
    }
}

} // verus!
