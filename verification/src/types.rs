//! Types of moves, and the table of efficacies of type combinations.

use vstd::prelude::*;
use crate::enums::Enum;
use crate::repr::{spec_from_field, from_field, FromVeekun};
use crate::csv::{Error, FromCsvIncremental, Record, RecordView};

verus! {

/// Level of efficacy of some type combination.
#[derive(Clone, Copy, Debug, PartialEq, Eq, Structural, Hash)]
pub enum Efficacy {
    Not,
    NotVery,
    Regular,
    Super,
}

impl Enum for Efficacy {
    open spec fn spec_values() -> Seq<Efficacy> {
        let s = Seq::<Efficacy>::empty();
        let s = s.push(Efficacy::Not);
        let s = s.push(Efficacy::NotVery);
        let s = s.push(Efficacy::Regular);
        let s = s.push(Efficacy::Super);
        s
    }

    fn values() -> (v: Vec<Efficacy>) {
        let mut v: Vec<Efficacy> = Vec::new();
        v.push(Efficacy::Not);
        v.push(Efficacy::NotVery);
        v.push(Efficacy::Regular);
        v.push(Efficacy::Super);
        v
    }
    open spec fn spec_repr(self) -> i32 {
        match self {
            Efficacy::Not => (-2) as i32,
            Efficacy::NotVery => (-1) as i32,
            Efficacy::Regular => 0,
            Efficacy::Super => 1,
        }
    }

    open spec fn spec_from_repr(code: i32) -> Option<Efficacy> {
        match code {
            -2 => Some(Efficacy::Not),
            -1 => Some(Efficacy::NotVery),
            0 => Some(Efficacy::Regular),
            1 => Some(Efficacy::Super),
            _ => None,
        }
    }

    open spec fn spec_count() -> int {
        4
    }

    fn repr(self) -> (c: i32) {
        match self {
            Efficacy::Not => -2,
            Efficacy::NotVery => -1,
            Efficacy::Regular => 0,
            Efficacy::Super => 1,
        }
    }

    fn from_repr(code: i32) -> (r: Option<Efficacy>) {
        match code {
            -2 => Some(Efficacy::Not),
            -1 => Some(Efficacy::NotVery),
            0 => Some(Efficacy::Regular),
            1 => Some(Efficacy::Super),
            _ => None,
        }
    }

    fn count() -> (n: usize) {
        4
    }

    proof fn lemma_values_count() {
    }

    proof fn lemma_round_trip(self) {
    }
}

impl Default for Efficacy {
    fn default() -> (r: Self)
        ensures
            r == Efficacy::Regular,
    {
        Efficacy::Regular
    }
}
impl FromVeekun for Efficacy {
    type Intermediate = u8;

    open spec fn spec_from_veekun(value: u8) -> Option<Self> {
        match value {
            0 => Some(Efficacy::Not),
            50 => Some(Efficacy::NotVery),
            100 => Some(Efficacy::Regular),
            200 => Some(Efficacy::Super),
            _ => None,
        }
    }

    fn from_veekun(value: u8) -> (r: Option<Self>) {
        match value {
            0 => Some(Efficacy::Not),
            50 => Some(Efficacy::NotVery),
            100 => Some(Efficacy::Regular),
            200 => Some(Efficacy::Super),
            _ => None,
        }
    }
}
/// The elemental type of a species or move.
#[derive(Clone, Copy, Debug, PartialEq, Eq, Structural, Hash)]
pub enum Type {
    Normal,
    Fighting,
    Flying,
    Poison,
    Ground,
    Rock,
    Bug,
    Phantom,
    Steel,
    Fire,
    Water,
    Grass,
    Electric,
    Psychic,
    Ice,
    Dragon,
    Dark,
}

impl Enum for Type {
    open spec fn spec_values() -> Seq<Type> {
        let s = Seq::<Type>::empty();
        let s = s.push(Type::Normal);
        let s = s.push(Type::Fighting);
        let s = s.push(Type::Flying);
        let s = s.push(Type::Poison);
        let s = s.push(Type::Ground);
        let s = s.push(Type::Rock);
        let s = s.push(Type::Bug);
        let s = s.push(Type::Phantom);
        let s = s.push(Type::Steel);
        let s = s.push(Type::Fire);
        let s = s.push(Type::Water);
        let s = s.push(Type::Grass);
        let s = s.push(Type::Electric);
        let s = s.push(Type::Psychic);
        let s = s.push(Type::Ice);
        let s = s.push(Type::Dragon);
        let s = s.push(Type::Dark);
        s
    }

    fn values() -> (v: Vec<Type>) {
        let mut v: Vec<Type> = Vec::new();
        v.push(Type::Normal);
        v.push(Type::Fighting);
        v.push(Type::Flying);
        v.push(Type::Poison);
        v.push(Type::Ground);
        v.push(Type::Rock);
        v.push(Type::Bug);
        v.push(Type::Phantom);
        v.push(Type::Steel);
        v.push(Type::Fire);
        v.push(Type::Water);
        v.push(Type::Grass);
        v.push(Type::Electric);
        v.push(Type::Psychic);
        v.push(Type::Ice);
        v.push(Type::Dragon);
        v.push(Type::Dark);
        v
    }
    open spec fn spec_repr(self) -> i32 {
        match self {
            Type::Normal => 0,
            Type::Fighting => 1,
            Type::Flying => 2,
            Type::Poison => 3,
            Type::Ground => 4,
            Type::Rock => 5,
            Type::Bug => 6,
            Type::Phantom => 7,
            Type::Steel => 8,
            Type::Fire => 9,
            Type::Water => 10,
            Type::Grass => 11,
            Type::Electric => 12,
            Type::Psychic => 13,
            Type::Ice => 14,
            Type::Dragon => 15,
            Type::Dark => 16,
        }
    }

    open spec fn spec_from_repr(code: i32) -> Option<Type> {
        match code {
            0 => Some(Type::Normal),
            1 => Some(Type::Fighting),
            2 => Some(Type::Flying),
            3 => Some(Type::Poison),
            4 => Some(Type::Ground),
            5 => Some(Type::Rock),
            6 => Some(Type::Bug),
            7 => Some(Type::Phantom),
            8 => Some(Type::Steel),
            9 => Some(Type::Fire),
            10 => Some(Type::Water),
            11 => Some(Type::Grass),
            12 => Some(Type::Electric),
            13 => Some(Type::Psychic),
            14 => Some(Type::Ice),
            15 => Some(Type::Dragon),
            16 => Some(Type::Dark),
            _ => None,
        }
    }

    open spec fn spec_count() -> int {
        17
    }

    fn repr(self) -> (c: i32) {
        match self {
            Type::Normal => 0,
            Type::Fighting => 1,
            Type::Flying => 2,
            Type::Poison => 3,
            Type::Ground => 4,
            Type::Rock => 5,
            Type::Bug => 6,
            Type::Phantom => 7,
            Type::Steel => 8,
            Type::Fire => 9,
            Type::Water => 10,
            Type::Grass => 11,
            Type::Electric => 12,
            Type::Psychic => 13,
            Type::Ice => 14,
            Type::Dragon => 15,
            Type::Dark => 16,
        }
    }

    fn from_repr(code: i32) -> (r: Option<Type>) {
        match code {
            0 => Some(Type::Normal),
            1 => Some(Type::Fighting),
            2 => Some(Type::Flying),
            3 => Some(Type::Poison),
            4 => Some(Type::Ground),
            5 => Some(Type::Rock),
            6 => Some(Type::Bug),
            7 => Some(Type::Phantom),
            8 => Some(Type::Steel),
            9 => Some(Type::Fire),
            10 => Some(Type::Water),
            11 => Some(Type::Grass),
            12 => Some(Type::Electric),
            13 => Some(Type::Psychic),
            14 => Some(Type::Ice),
            15 => Some(Type::Dragon),
            16 => Some(Type::Dark),
            _ => None,
        }
    }

    fn count() -> (n: usize) {
        17
    }

    proof fn lemma_values_count() {
    }

    proof fn lemma_round_trip(self) {
    }
}

impl Default for Type {
    fn default() -> (r: Self)
        ensures
            r == Type::Normal,
    {
        Type::Normal
    }
}

impl FromVeekun for Type {
    type Intermediate = u8;

    open spec fn spec_from_veekun(value: u8) -> Option<Self> {
        Self::spec_from_repr(((value - 1)) as i32)
    }

    fn from_veekun(value: u8) -> (r: Option<Self>) {
        Self::from_repr(value as i32 - 1)
    }
}

/// The total number of elemental types.
pub const TYPE_COUNT: usize = 17;

/// Every type's code lies in the table range.
pub proof fn lemma_type_repr_range(t: Type)
    ensures
        0 <= t.spec_repr() < 17,
{
}

/// In a well-formed table every type pair's slot is in range: in-range
/// indexing never fails.
pub proof fn lemma_efficacy_slot_in_range(v: Seq<Efficacy>, damage: Type, target: Type)
    requires
        EfficacyTable::spec_wf(v),
    ensures
        0 <= EfficacyTable::spec_slot(damage, target) < v.len(),
{
    lemma_type_repr_range(damage);
    lemma_type_repr_range(target);
}

/// Table of the efficacies of type combinations: one slot per
/// (damage, target) pair, flattened row-major by damage type.
pub struct EfficacyTable(pub Vec<Efficacy>);

impl View for EfficacyTable {
    type V = Seq<Efficacy>;

    open spec fn view(&self) -> Seq<Efficacy> {
        self.0@
    }
}

impl EfficacyTable {
    /// A dense efficacy table has exactly one slot per type pair.
    pub open spec fn spec_wf(v: Seq<Efficacy>) -> bool {
        v.len() == 289
    }

    /// The flattened slot of a (damage, target) pair.
    pub open spec fn spec_slot(damage: Type, target: Type) -> int {
        damage.spec_repr() * 17 + target.spec_repr()
    }

    /// The efficacy stored for a (damage, target) pair.
    pub open spec fn spec_efficacy(v: Seq<Efficacy>, damage: Type, target: Type) -> Efficacy {
        v[Self::spec_slot(damage, target)]
    }

    /// Every slot of a fresh table holds regular efficacy.
    pub fn new() -> (r: Self)
        ensures
            r@ == Self::spec_empty(),
            Self::spec_wf(r@),
    {
        Self::from_empty_csv()
    }

    /// Get the efficacy of a (damage, target) type combination.
    ///
    /// In-range indexing never fails: every type pair has a slot.
    pub fn efficacy(&self, damage: Type, target: Type) -> (r: Efficacy)
        requires
            Self::spec_wf(self@),
        ensures
            r == Self::spec_efficacy(self@, damage, target),
    {
        proof {
            lemma_type_repr_range(damage);
            lemma_type_repr_range(target);
        }
        let slot: usize = (damage.repr() as usize) * 17 + (target.repr() as usize);
        self.0[slot]
    }

    /// Set the efficacy of a (damage, target) type combination.
    pub fn set_efficacy(&mut self, damage: Type, target: Type, value: Efficacy)
        requires
            Self::spec_wf(old(self)@),
        ensures
            final(self)@ == old(self)@.update(Self::spec_slot(damage, target), value),
            Self::spec_wf(final(self)@),
    {
        proof {
            lemma_type_repr_range(damage);
            lemma_type_repr_range(target);
        }
        let slot: usize = (damage.repr() as usize) * 17 + (target.repr() as usize);
        self.0.set(slot, value);
    }
}

impl FromCsvIncremental for EfficacyTable {
    open spec fn spec_empty() -> Seq<Efficacy> {
        Seq::new(289, |i: int| Efficacy::Regular)
    }

    open spec fn wf_state(v: Seq<Efficacy>) -> bool {
        Self::spec_wf(v)
    }

    open spec fn spec_load(state: Seq<Efficacy>, rec: RecordView) -> (Seq<Efficacy>, Option<
        Error,
    >) {
        match spec_from_field::<Type>(rec, 0) {
            Err(e) => (state, Some(e)),
            Ok(damage) => match spec_from_field::<Type>(rec, 1) {
                Err(e) => (state, Some(e)),
                Ok(target) => match spec_from_field::<Efficacy>(rec, 2) {
                    Err(e) => (state, Some(e)),
                    Ok(eff) => (state.update(Self::spec_slot(damage, target), eff), None),
                },
            },
        }
    }

    fn from_empty_csv() -> (r: Self) {
        let mut v: Vec<Efficacy> = Vec::new();
        let mut i: usize = 0;
        while i < 289
            invariant
                i <= 289,
                v@.len() == i,
                forall|j: int| 0 <= j < i ==> v@[j] == Efficacy::Regular,
            decreases 289 - i,
        {
            v.push(Efficacy::Regular);
            i = i + 1;
        }
        proof {
            assert(v@ =~= Self::spec_empty());
        }
        EfficacyTable(v)
    }

    fn load_csv_record(&mut self, record: &Record) -> (r: Result<(), Error>) {
        let damage: Type = match from_field::<Type>(record, 0) {
            Ok(t) => t,
            Err(e) => {
                return Err(e);
            },
        };
        let target: Type = match from_field::<Type>(record, 1) {
            Ok(t) => t,
            Err(e) => {
                return Err(e);
            },
        };
        let eff: Efficacy = match from_field::<Efficacy>(record, 2) {
            Ok(t) => t,
            Err(e) => {
                return Err(e);
            },
        };
        self.set_efficacy(damage, target, eff);
        Ok(())
    }
}

} // verus!
