//! Moves and related data.

pub mod ailments;
pub mod effects;
pub mod flags;
pub mod meta;

pub use self::ailments::Ailment;
pub use self::effects::Effect;
pub use self::flags::Flags;
pub use self::meta::Category;
pub use self::meta::Meta;
pub use self::meta::CHANGEABLE_STATS;

use vstd::prelude::*;
use crate::csv::{Error, FromCsvIncremental, Record, RecordView, VeekunError};
use crate::enums::Enum;
use crate::repr::{
    spec_from_field,
    spec_from_option_field,
    spec_from_veekun_option_field,
    spec_pascal_case,
    from_field,
    from_option_field,
    from_veekun_option_field,
    to_pascal_case,
    FromVeekun,
    VeekunOption,
};
use crate::types::Type;
use crate::versions::Generation;
use self::meta::MetaTable;

verus! {

/// The Battle Palace style of a move.
#[derive(Clone, Copy, Debug, PartialEq, Eq, Structural, Hash)]
pub enum BattleStyle {
    Attack,
    Defense,
    Support,
}

impl Enum for BattleStyle {
    open spec fn spec_values() -> Seq<BattleStyle> {
        let s = Seq::<BattleStyle>::empty();
        let s = s.push(BattleStyle::Attack);
        let s = s.push(BattleStyle::Defense);
        let s = s.push(BattleStyle::Support);
        s
    }

    fn values() -> (v: Vec<BattleStyle>) {
        let mut v: Vec<BattleStyle> = Vec::new();
        v.push(BattleStyle::Attack);
        v.push(BattleStyle::Defense);
        v.push(BattleStyle::Support);
        v
    }
    open spec fn spec_repr(self) -> i32 {
        match self {
            BattleStyle::Attack => 0,
            BattleStyle::Defense => 1,
            BattleStyle::Support => 2,
        }
    }

    open spec fn spec_from_repr(code: i32) -> Option<BattleStyle> {
        match code {
            0 => Some(BattleStyle::Attack),
            1 => Some(BattleStyle::Defense),
            2 => Some(BattleStyle::Support),
            _ => None,
        }
    }

    open spec fn spec_count() -> int {
        3
    }

    fn repr(self) -> (c: i32) {
        match self {
            BattleStyle::Attack => 0,
            BattleStyle::Defense => 1,
            BattleStyle::Support => 2,
        }
    }

    fn from_repr(code: i32) -> (r: Option<BattleStyle>) {
        match code {
            0 => Some(BattleStyle::Attack),
            1 => Some(BattleStyle::Defense),
            2 => Some(BattleStyle::Support),
            _ => None,
        }
    }

    fn count() -> (n: usize) {
        3
    }

    proof fn lemma_values_count() {
    }

    proof fn lemma_round_trip(self) {
    }
}

impl Default for BattleStyle {
    fn default() -> (r: Self)
        ensures
            r == BattleStyle::Support,
    {
        BattleStyle::Support
    }
}

impl FromVeekun for BattleStyle {
    type Intermediate = u8;

    open spec fn spec_from_veekun(value: u8) -> Option<Self> {
        Self::spec_from_repr(((value - 1)) as i32)
    }

    fn from_veekun(value: u8) -> (r: Option<Self>) {
        Self::from_repr(value as i32 - 1)
    }
}
/// The damage class of a move.
#[derive(Clone, Copy, Debug, PartialEq, Eq, Structural, Hash)]
pub enum DamageClass {
    NonDamaging,
    Physical,
    Special,
}

impl Enum for DamageClass {
    open spec fn spec_values() -> Seq<DamageClass> {
        let s = Seq::<DamageClass>::empty();
        let s = s.push(DamageClass::NonDamaging);
        let s = s.push(DamageClass::Physical);
        let s = s.push(DamageClass::Special);
        s
    }

    fn values() -> (v: Vec<DamageClass>) {
        let mut v: Vec<DamageClass> = Vec::new();
        v.push(DamageClass::NonDamaging);
        v.push(DamageClass::Physical);
        v.push(DamageClass::Special);
        v
    }
    open spec fn spec_repr(self) -> i32 {
        match self {
            DamageClass::NonDamaging => 0,
            DamageClass::Physical => 1,
            DamageClass::Special => 2,
        }
    }

    open spec fn spec_from_repr(code: i32) -> Option<DamageClass> {
        match code {
            0 => Some(DamageClass::NonDamaging),
            1 => Some(DamageClass::Physical),
            2 => Some(DamageClass::Special),
            _ => None,
        }
    }

    open spec fn spec_count() -> int {
        3
    }

    fn repr(self) -> (c: i32) {
        match self {
            DamageClass::NonDamaging => 0,
            DamageClass::Physical => 1,
            DamageClass::Special => 2,
        }
    }

    fn from_repr(code: i32) -> (r: Option<DamageClass>) {
        match code {
            0 => Some(DamageClass::NonDamaging),
            1 => Some(DamageClass::Physical),
            2 => Some(DamageClass::Special),
            _ => None,
        }
    }

    fn count() -> (n: usize) {
        3
    }

    proof fn lemma_values_count() {
    }

    proof fn lemma_round_trip(self) {
    }
}

impl Default for DamageClass {
    fn default() -> (r: Self)
        ensures
            r == DamageClass::NonDamaging,
    {
        DamageClass::NonDamaging
    }
}

impl FromVeekun for DamageClass {
    type Intermediate = u8;

    open spec fn spec_from_veekun(value: u8) -> Option<Self> {
        Self::spec_from_repr(((value - 1)) as i32)
    }

    fn from_veekun(value: u8) -> (r: Option<Self>) {
        Self::from_repr(value as i32 - 1)
    }
}
/// The method by which a Pokémon learns a move.
#[derive(Clone, Copy, Debug, PartialEq, Eq, Structural, Hash)]
pub enum LearnMethod {
    LevelUp,
    Egg,
    Tutor,
    Machine,
    StadiumSurfingPikachu,
    LightBallEgg,
    ColosseumPurification,
    XDShadow,
    XDPurification,
    FormChange,
}

impl Enum for LearnMethod {
    open spec fn spec_values() -> Seq<LearnMethod> {
        let s = Seq::<LearnMethod>::empty();
        let s = s.push(LearnMethod::LevelUp);
        let s = s.push(LearnMethod::Egg);
        let s = s.push(LearnMethod::Tutor);
        let s = s.push(LearnMethod::Machine);
        let s = s.push(LearnMethod::StadiumSurfingPikachu);
        let s = s.push(LearnMethod::LightBallEgg);
        let s = s.push(LearnMethod::ColosseumPurification);
        let s = s.push(LearnMethod::XDShadow);
        let s = s.push(LearnMethod::XDPurification);
        let s = s.push(LearnMethod::FormChange);
        s
    }

    fn values() -> (v: Vec<LearnMethod>) {
        let mut v: Vec<LearnMethod> = Vec::new();
        v.push(LearnMethod::LevelUp);
        v.push(LearnMethod::Egg);
        v.push(LearnMethod::Tutor);
        v.push(LearnMethod::Machine);
        v.push(LearnMethod::StadiumSurfingPikachu);
        v.push(LearnMethod::LightBallEgg);
        v.push(LearnMethod::ColosseumPurification);
        v.push(LearnMethod::XDShadow);
        v.push(LearnMethod::XDPurification);
        v.push(LearnMethod::FormChange);
        v
    }
    open spec fn spec_repr(self) -> i32 {
        match self {
            LearnMethod::LevelUp => 0,
            LearnMethod::Egg => 1,
            LearnMethod::Tutor => 2,
            LearnMethod::Machine => 3,
            LearnMethod::StadiumSurfingPikachu => 4,
            LearnMethod::LightBallEgg => 5,
            LearnMethod::ColosseumPurification => 6,
            LearnMethod::XDShadow => 7,
            LearnMethod::XDPurification => 8,
            LearnMethod::FormChange => 9,
        }
    }

    open spec fn spec_from_repr(code: i32) -> Option<LearnMethod> {
        match code {
            0 => Some(LearnMethod::LevelUp),
            1 => Some(LearnMethod::Egg),
            2 => Some(LearnMethod::Tutor),
            3 => Some(LearnMethod::Machine),
            4 => Some(LearnMethod::StadiumSurfingPikachu),
            5 => Some(LearnMethod::LightBallEgg),
            6 => Some(LearnMethod::ColosseumPurification),
            7 => Some(LearnMethod::XDShadow),
            8 => Some(LearnMethod::XDPurification),
            9 => Some(LearnMethod::FormChange),
            _ => None,
        }
    }

    open spec fn spec_count() -> int {
        10
    }

    fn repr(self) -> (c: i32) {
        match self {
            LearnMethod::LevelUp => 0,
            LearnMethod::Egg => 1,
            LearnMethod::Tutor => 2,
            LearnMethod::Machine => 3,
            LearnMethod::StadiumSurfingPikachu => 4,
            LearnMethod::LightBallEgg => 5,
            LearnMethod::ColosseumPurification => 6,
            LearnMethod::XDShadow => 7,
            LearnMethod::XDPurification => 8,
            LearnMethod::FormChange => 9,
        }
    }

    fn from_repr(code: i32) -> (r: Option<LearnMethod>) {
        match code {
            0 => Some(LearnMethod::LevelUp),
            1 => Some(LearnMethod::Egg),
            2 => Some(LearnMethod::Tutor),
            3 => Some(LearnMethod::Machine),
            4 => Some(LearnMethod::StadiumSurfingPikachu),
            5 => Some(LearnMethod::LightBallEgg),
            6 => Some(LearnMethod::ColosseumPurification),
            7 => Some(LearnMethod::XDShadow),
            8 => Some(LearnMethod::XDPurification),
            9 => Some(LearnMethod::FormChange),
            _ => None,
        }
    }

    fn count() -> (n: usize) {
        10
    }

    proof fn lemma_values_count() {
    }

    proof fn lemma_round_trip(self) {
    }
}

impl Default for LearnMethod {
    fn default() -> (r: Self)
        ensures
            r == LearnMethod::LevelUp,
    {
        LearnMethod::LevelUp
    }
}

impl FromVeekun for LearnMethod {
    type Intermediate = u8;

    open spec fn spec_from_veekun(value: u8) -> Option<Self> {
        Self::spec_from_repr(((value - 1)) as i32)
    }

    fn from_veekun(value: u8) -> (r: Option<Self>) {
        Self::from_repr(value as i32 - 1)
    }
}
/// The target selection mechanism of a move.
#[derive(Clone, Copy, Debug, PartialEq, Eq, Structural, Hash)]
pub enum Target {
    SpecificMove,
    SelectedPokemonReuseStolen,
    Ally,
    UsersField,
    UserOrAlly,
    OpponentsField,
    User,
    RandomOpponent,
    AllOtherPokemon,
    SelectedPokemon,
    AllOpponents,
    EntireField,
}

impl Enum for Target {
    open spec fn spec_values() -> Seq<Target> {
        let s = Seq::<Target>::empty();
        let s = s.push(Target::SpecificMove);
        let s = s.push(Target::SelectedPokemonReuseStolen);
        let s = s.push(Target::Ally);
        let s = s.push(Target::UsersField);
        let s = s.push(Target::UserOrAlly);
        let s = s.push(Target::OpponentsField);
        let s = s.push(Target::User);
        let s = s.push(Target::RandomOpponent);
        let s = s.push(Target::AllOtherPokemon);
        let s = s.push(Target::SelectedPokemon);
        let s = s.push(Target::AllOpponents);
        let s = s.push(Target::EntireField);
        s
    }

    fn values() -> (v: Vec<Target>) {
        let mut v: Vec<Target> = Vec::new();
        v.push(Target::SpecificMove);
        v.push(Target::SelectedPokemonReuseStolen);
        v.push(Target::Ally);
        v.push(Target::UsersField);
        v.push(Target::UserOrAlly);
        v.push(Target::OpponentsField);
        v.push(Target::User);
        v.push(Target::RandomOpponent);
        v.push(Target::AllOtherPokemon);
        v.push(Target::SelectedPokemon);
        v.push(Target::AllOpponents);
        v.push(Target::EntireField);
        v
    }
    open spec fn spec_repr(self) -> i32 {
        match self {
            Target::SpecificMove => 0,
            Target::SelectedPokemonReuseStolen => 1,
            Target::Ally => 2,
            Target::UsersField => 3,
            Target::UserOrAlly => 4,
            Target::OpponentsField => 5,
            Target::User => 6,
            Target::RandomOpponent => 7,
            Target::AllOtherPokemon => 8,
            Target::SelectedPokemon => 9,
            Target::AllOpponents => 10,
            Target::EntireField => 11,
        }
    }

    open spec fn spec_from_repr(code: i32) -> Option<Target> {
        match code {
            0 => Some(Target::SpecificMove),
            1 => Some(Target::SelectedPokemonReuseStolen),
            2 => Some(Target::Ally),
            3 => Some(Target::UsersField),
            4 => Some(Target::UserOrAlly),
            5 => Some(Target::OpponentsField),
            6 => Some(Target::User),
            7 => Some(Target::RandomOpponent),
            8 => Some(Target::AllOtherPokemon),
            9 => Some(Target::SelectedPokemon),
            10 => Some(Target::AllOpponents),
            11 => Some(Target::EntireField),
            _ => None,
        }
    }

    open spec fn spec_count() -> int {
        12
    }

    fn repr(self) -> (c: i32) {
        match self {
            Target::SpecificMove => 0,
            Target::SelectedPokemonReuseStolen => 1,
            Target::Ally => 2,
            Target::UsersField => 3,
            Target::UserOrAlly => 4,
            Target::OpponentsField => 5,
            Target::User => 6,
            Target::RandomOpponent => 7,
            Target::AllOtherPokemon => 8,
            Target::SelectedPokemon => 9,
            Target::AllOpponents => 10,
            Target::EntireField => 11,
        }
    }

    fn from_repr(code: i32) -> (r: Option<Target>) {
        match code {
            0 => Some(Target::SpecificMove),
            1 => Some(Target::SelectedPokemonReuseStolen),
            2 => Some(Target::Ally),
            3 => Some(Target::UsersField),
            4 => Some(Target::UserOrAlly),
            5 => Some(Target::OpponentsField),
            6 => Some(Target::User),
            7 => Some(Target::RandomOpponent),
            8 => Some(Target::AllOtherPokemon),
            9 => Some(Target::SelectedPokemon),
            10 => Some(Target::AllOpponents),
            11 => Some(Target::EntireField),
            _ => None,
        }
    }

    fn count() -> (n: usize) {
        12
    }

    proof fn lemma_values_count() {
    }

    proof fn lemma_round_trip(self) {
    }
}

impl Default for Target {
    fn default() -> (r: Self)
        ensures
            r == Target::SpecificMove,
    {
        Target::SpecificMove
    }
}

impl FromVeekun for Target {
    type Intermediate = u8;

    open spec fn spec_from_veekun(value: u8) -> Option<Self> {
        Self::spec_from_repr(((value - 1)) as i32)
    }

    fn from_veekun(value: u8) -> (r: Option<Self>) {
        Self::from_repr(value as i32 - 1)
    }
}

/// The total number of moves.
pub const MOVE_COUNT: usize = 559;

/// Identifier of a move: a dense index below the move count.
#[derive(Clone, Copy, Debug, PartialEq, Eq, Structural, Hash, PartialOrd, Ord)]
pub struct MoveId(pub u16);

impl Default for MoveId {
    fn default() -> (r: Self)
        ensures
            r.0 == 65535,
    {
        MoveId(65535)
    }
}

impl FromVeekun for MoveId {
    type Intermediate = u16;

    /// Raw move ids count from one. A raw zero is the "no move"
    /// sentinel and decodes to absent, never to a valid identifier;
    /// anything past the table range is rejected too.
    open spec fn spec_from_veekun(value: u16) -> Option<Self> {
        if 1 <= value <= 559 {
            Some(MoveId((value - 1) as u16))
        } else {
            None
        }
    }

    fn from_veekun(value: u16) -> (r: Option<Self>) {
        if 1 <= value && value <= 559 {
            Some(MoveId(value - 1))
        } else {
            None
        }
    }
}

/// Decoding a valid raw move id and re-encoding it round-trips.
pub proof fn lemma_move_id_round_trip(value: u16)
    requires
        1 <= value <= 559,
    ensures
        MoveId::spec_from_veekun(value) matches Some(id) && id.0 + 1 == value,
{
}

/// The zero sentinel never decodes to a valid move identifier.
pub proof fn lemma_move_id_sentinel()
    ensures
        MoveId::spec_from_veekun(0) is None,
{
}


/// A move: the primary action a Pokémon can take on its turn.
#[derive(Debug)]
pub struct Move {
    /// The identifier of the move.
    pub id: MoveId,
    /// The PascalCase name of the move.
    pub name: String,
    /// The generation the move was introduced.
    pub generation: Generation,
    /// The move's type.
    pub typ: Type,
    /// The move's power.
    pub power: u8,
    /// The move's power points.
    pub pp: u8,
    /// The move's accuracy, or `None` if it cannot miss.
    pub accuracy: Option<u8>,
    /// The move's priority.
    pub priority: i8,
    /// The move's targeting mechanism.
    pub target: Target,
    /// The move's damage class.
    pub damage_class: DamageClass,
    /// The move's effect.
    pub effect: Effect,
    /// The move's effect chance, if relevant.
    pub effect_chance: Option<u8>,
    /// The move's "meta" data.
    pub meta: meta::Meta,
}

/// The mathematical content of a move.
#[verifier::ext_equal]
pub struct MoveView {
    pub id: MoveId,
    pub name: Seq<char>,
    pub generation: Generation,
    pub typ: Type,
    pub power: u8,
    pub pp: u8,
    pub accuracy: Option<u8>,
    pub priority: i8,
    pub target: Target,
    pub damage_class: DamageClass,
    pub effect: Effect,
    pub effect_chance: Option<u8>,
    pub meta: meta::Meta,
}

impl View for Move {
    type V = MoveView;

    open spec fn view(&self) -> MoveView {
        MoveView {
            id: self.id,
            name: self.name@,
            generation: self.generation,
            typ: self.typ,
            power: self.power,
            pp: self.pp,
            accuracy: self.accuracy,
            priority: self.priority,
            target: self.target,
            damage_class: self.damage_class,
            effect: self.effect,
            effect_chance: self.effect_chance,
            meta: self.meta,
        }
    }
}

/// The view of a default move record at a slot.
pub open spec fn spec_default_move() -> MoveView {
    MoveView {
        id: MoveId(65535),
        name: Seq::empty(),
        generation: Generation::V,
        typ: Type::Normal,
        power: 0,
        pp: 0,
        accuracy: None,
        priority: 0,
        target: Target::SpecificMove,
        damage_class: DamageClass::NonDamaging,
        effect: Effect::Splash,
        effect_chance: None,
        meta: meta::Meta::spec_default(),
    }
}

/// The dense table of moves, one slot per move identifier.
pub struct MoveTable(pub Vec<Move>);

impl View for MoveTable {
    type V = Seq<MoveView>;

    open spec fn view(&self) -> Seq<MoveView> {
        self.0@.map_values(|m: Move| m@)
    }
}

impl MoveTable {
    /// A dense move table has exactly one slot per move.
    pub open spec fn spec_wf(v: Seq<MoveView>) -> bool {
        v.len() == 559
    }

    /// Every slot of a fresh table holds the default move record.
    pub fn new() -> (r: Self)
        ensures
            r@ == Self::spec_empty(),
            Self::spec_wf(r@),
    {
        Self::from_empty_csv()
    }

    /// The move with an identifier; in-range indexing never fails.
    pub fn get(&self, id: MoveId) -> (r: &Move)
        requires
            Self::spec_wf(self@),
            id.0 < 559,
        ensures
            r@ == self@[id.0 as int],
    {
        &self.0[id.0 as usize]
    }

    /// Give every move the meta record assembled for it.
    pub fn set_meta(&mut self, table: &MetaTable)
        requires
            Self::spec_wf(old(self)@),
            MetaTable::spec_wf(table@),
        ensures
            Self::spec_wf(final(self)@),
            forall|i: int|
                0 <= i < 559 ==> final(self)@[i] == (MoveView { meta: table@[i], ..old(self)@[i] }),
    {
        let ghost orig = self@;
        let mut i: usize = 0;
        while i < 559
            invariant
                Self::spec_wf(self@),
                MetaTable::spec_wf(table@),
                i <= 559,
                orig == old(self)@,
                orig.len() == 559,
                forall|j: int|
                    0 <= j < i ==> self@[j] == (MoveView { meta: table@[j], ..orig[j] }),
                forall|j: int| i <= j < 559 ==> self@[j] == orig[j],
            decreases 559 - i,
        {
            let m = &self.0[i];
            let updated = Move {
                id: m.id,
                name: m.name.clone(),
                generation: m.generation,
                typ: m.typ,
                power: m.power,
                pp: m.pp,
                accuracy: m.accuracy,
                priority: m.priority,
                target: m.target,
                damage_class: m.damage_class,
                effect: m.effect,
                effect_chance: m.effect_chance,
                meta: table.0[i],
            };
            let ghost prevv = self@;
            proof {
                assert(m@ == self@[i as int]);
            }
            self.0.set(i, updated);
            proof {
                assert(self@ =~= prevv.update(i as int, updated@));
                assert(updated@ == (MoveView { meta: table@[i as int], ..orig[i as int] }));
            }
            i = i + 1;
        }
    }
}

impl FromCsvIncremental for MoveTable {
    open spec fn spec_empty() -> Seq<MoveView> {
        Seq::new(559, |i: int| spec_default_move())
    }

    open spec fn wf_state(v: Seq<MoveView>) -> bool {
        Self::spec_wf(v)
    }

    open spec fn spec_load(state: Seq<MoveView>, rec: RecordView) -> (Seq<MoveView>, Option<
        Error,
    >) {
        match spec_from_field::<u16>(rec, 0) {
            Err(e) => (state, Some(e)),
            Ok(raw) => {
                if raw >= 10001 {
                    (state, None)
                } else {
                    match MoveId::spec_from_veekun(raw) {
                        None => (
                            state,
                            Some(
                                Error::Veekun {
                                    line: rec.line,
                                    field: 0,
                                    error: VeekunError::Value(raw as i64),
                                },
                            ),
                        ),
                        Some(id) => match spec_from_veekun_option_field::<u8>(rec, 6) {
                            Err(e) => (state, Some(e)),
                            Ok(accuracy) => match spec_from_veekun_option_field::<u8>(rec, 11) {
                                Err(e) => (state, Some(e)),
                                Ok(effect_chance) => {
                                    if rec.fields.len() <= 1 {
                                        (
                                            state,
                                            Some(
                                                Error::RecordLength { line: rec.line, index: 1 },
                                            ),
                                        )
                                    } else {
                                        match spec_from_field::<Generation>(rec, 2) {
                                            Err(e) => (state, Some(e)),
                                            Ok(generation) => match spec_from_field::<Type>(
                                                rec,
                                                3,
                                            ) {
                                                Err(e) => (state, Some(e)),
                                                Ok(typ) => match spec_from_field::<u8>(rec, 4) {
                                                    Err(e) => (state, Some(e)),
                                                    Ok(power) => match spec_from_option_field::<
                                                        u8,
                                                    >(rec, 5, 0u8) {
                                                        Err(e) => (state, Some(e)),
                                                        Ok(pp) => match spec_from_field::<i8>(
                                                            rec,
                                                            7,
                                                        ) {
                                                            Err(e) => (state, Some(e)),
                                                            Ok(priority) => match spec_from_field::<
                                                                Target,
                                                            >(rec, 8) {
                                                                Err(e) => (state, Some(e)),
                                                                Ok(target) => match spec_from_field::<
                                                                    DamageClass,
                                                                >(rec, 9) {
                                                                    Err(e) => (state, Some(e)),
                                                                    Ok(damage_class) => match spec_from_field::<
                                                                        Effect,
                                                                    >(rec, 10) {
                                                                        Err(e) => (
                                                                            state,
                                                                            Some(e),
                                                                        ),
                                                                        Ok(effect) => (
                                                                            state.update(
                                                                                id.0 as int,
                                                                                MoveView {
                                                                                    id,
                                                                                    name: spec_pascal_case(
                                                                                        rec.fields[1],
                                                                                    ),
                                                                                    generation,
                                                                                    typ,
                                                                                    power,
                                                                                    pp,
                                                                                    accuracy: accuracy.0,
                                                                                    priority,
                                                                                    target,
                                                                                    damage_class,
                                                                                    effect,
                                                                                    effect_chance: effect_chance.0,
                                                                                    meta: meta::Meta::spec_default(),
                                                                                },
                                                                            ),
                                                                            None,
                                                                        ),
                                                                    },
                                                                },
                                                            },
                                                        },
                                                    },
                                                },
                                            },
                                        }
                                    }
                                },
                            },
                        },
                    }
                }
            },
        }
    }

    fn from_empty_csv() -> (r: Self) {
        let mut v: Vec<Move> = Vec::new();
        let mut i: usize = 0;
        while i < 559
            invariant
                i <= 559,
                v@.len() == i,
                forall|j: int| 0 <= j < i ==> v@[j]@ == spec_default_move(),
            decreases 559 - i,
        {
            v.push(
                Move {
                    id: MoveId(65535),
                    name: String::new(),
                    generation: Generation::V,
                    typ: Type::Normal,
                    power: 0,
                    pp: 0,
                    accuracy: None,
                    priority: 0,
                    target: Target::SpecificMove,
                    damage_class: DamageClass::NonDamaging,
                    effect: Effect::Splash,
                    effect_chance: None,
                    meta: meta::Meta::default(),
                },
            );
            i = i + 1;
        }
        let r = MoveTable(v);
        proof {
            assert(r@ =~= Self::spec_empty());
        }
        r
    }

    fn load_csv_record(&mut self, record: &Record) -> (r: Result<(), Error>) {
        let raw: u16 = match from_field::<u16>(record, 0) {
            Ok(t) => t,
            Err(e) => {
                return Err(e);
            },
        };
        if raw >= 10001 {
            return Ok(());
        }
        let id: MoveId = match MoveId::from_veekun(raw) {
            Some(id) => id,
            None => {
                return Err(
                    Error::Veekun {
                        line: record.line,
                        field: 0,
                        error: VeekunError::Value(raw as i64),
                    },
                );
            },
        };
        let accuracy: VeekunOption<u8> = match from_veekun_option_field::<u8>(record, 6) {
            Ok(t) => t,
            Err(e) => {
                return Err(e);
            },
        };
        let effect_chance: VeekunOption<u8> = match from_veekun_option_field::<u8>(record, 11) {
            Ok(t) => t,
            Err(e) => {
                return Err(e);
            },
        };
        let raw_name: &str = match crate::csv::get_field(record, 1) {
            Ok(t) => t,
            Err(e) => {
                return Err(e);
            },
        };
        let name: String = to_pascal_case(raw_name);
        let generation: Generation = match from_field::<Generation>(record, 2) {
            Ok(t) => t,
            Err(e) => {
                return Err(e);
            },
        };
        let typ: Type = match from_field::<Type>(record, 3) {
            Ok(t) => t,
            Err(e) => {
                return Err(e);
            },
        };
        let power: u8 = match from_field::<u8>(record, 4) {
            Ok(t) => t,
            Err(e) => {
                return Err(e);
            },
        };
        let pp: u8 = match from_option_field::<u8>(record, 5, 0u8) {
            Ok(t) => t,
            Err(e) => {
                return Err(e);
            },
        };
        let priority: i8 = match from_field::<i8>(record, 7) {
            Ok(t) => t,
            Err(e) => {
                return Err(e);
            },
        };
        let target: Target = match from_field::<Target>(record, 8) {
            Ok(t) => t,
            Err(e) => {
                return Err(e);
            },
        };
        let damage_class: DamageClass = match from_field::<DamageClass>(record, 9) {
            Ok(t) => t,
            Err(e) => {
                return Err(e);
            },
        };
        let effect: Effect = match from_field::<Effect>(record, 10) {
            Ok(t) => t,
            Err(e) => {
                return Err(e);
            },
        };
        let updated = Move {
            id,
            name,
            generation,
            typ,
            power,
            pp,
            accuracy: accuracy.0,
            priority,
            target,
            damage_class,
            effect,
            effect_chance: effect_chance.0,
            meta: meta::Meta::default(),
        };
        self.0.set(id.0 as usize, updated);
        proof {
            assert(self@ =~= Self::spec_load(old(self)@, record@).0);
        }
        Ok(())
    }
}

} // verus!
