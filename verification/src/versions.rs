//! Game versions and generations.

use vstd::prelude::*;
use crate::enums::Enum;
use crate::repr::FromVeekun;

verus! {

/// The generation a game or datum belongs to.
#[derive(Clone, Copy, Debug, PartialEq, Eq, Structural, Hash)]
pub enum Generation {
    I,
    II,
    III,
    IV,
    V,
}

impl Enum for Generation {
    open spec fn spec_values() -> Seq<Generation> {
        let s = Seq::<Generation>::empty();
        let s = s.push(Generation::I);
        let s = s.push(Generation::II);
        let s = s.push(Generation::III);
        let s = s.push(Generation::IV);
        let s = s.push(Generation::V);
        s
    }

    fn values() -> (v: Vec<Generation>) {
        let mut v: Vec<Generation> = Vec::new();
        v.push(Generation::I);
        v.push(Generation::II);
        v.push(Generation::III);
        v.push(Generation::IV);
        v.push(Generation::V);
        v
    }
    open spec fn spec_repr(self) -> i32 {
        match self {
            Generation::I => 0,
            Generation::II => 1,
            Generation::III => 2,
            Generation::IV => 3,
            Generation::V => 4,
        }
    }

    open spec fn spec_from_repr(code: i32) -> Option<Generation> {
        match code {
            0 => Some(Generation::I),
            1 => Some(Generation::II),
            2 => Some(Generation::III),
            3 => Some(Generation::IV),
            4 => Some(Generation::V),
            _ => None,
        }
    }

    open spec fn spec_count() -> int {
        5
    }

    fn repr(self) -> (c: i32) {
        match self {
            Generation::I => 0,
            Generation::II => 1,
            Generation::III => 2,
            Generation::IV => 3,
            Generation::V => 4,
        }
    }

    fn from_repr(code: i32) -> (r: Option<Generation>) {
        match code {
            0 => Some(Generation::I),
            1 => Some(Generation::II),
            2 => Some(Generation::III),
            3 => Some(Generation::IV),
            4 => Some(Generation::V),
            _ => None,
        }
    }

    fn count() -> (n: usize) {
        5
    }

    proof fn lemma_values_count() {
    }

    proof fn lemma_round_trip(self) {
    }
}

impl Default for Generation {
    fn default() -> (r: Self)
        ensures
            r == Generation::V,
    {
        Generation::V
    }
}

impl FromVeekun for Generation {
    type Intermediate = u8;

    open spec fn spec_from_veekun(value: u8) -> Option<Self> {
        Self::spec_from_repr(((value - 1)) as i32)
    }

    fn from_veekun(value: u8) -> (r: Option<Self>) {
        Self::from_repr(value as i32 - 1)
    }
}
/// One released game version.
#[derive(Clone, Copy, Debug, PartialEq, Eq, Structural, Hash)]
pub enum Version {
    Red,
    Blue,
    Yellow,
    Gold,
    Silver,
    Crystal,
    Ruby,
    Sapphire,
    Emerald,
    Firered,
    Leafgreen,
    Diamond,
    Pearl,
    Platinum,
    Heartgold,
    Soulsilver,
    Black,
    White,
    Colosseum,
    XD,
    Black2,
    White2,
}

impl Enum for Version {
    open spec fn spec_values() -> Seq<Version> {
        let s = Seq::<Version>::empty();
        let s = s.push(Version::Red);
        let s = s.push(Version::Blue);
        let s = s.push(Version::Yellow);
        let s = s.push(Version::Gold);
        let s = s.push(Version::Silver);
        let s = s.push(Version::Crystal);
        let s = s.push(Version::Ruby);
        let s = s.push(Version::Sapphire);
        let s = s.push(Version::Emerald);
        let s = s.push(Version::Firered);
        let s = s.push(Version::Leafgreen);
        let s = s.push(Version::Diamond);
        let s = s.push(Version::Pearl);
        let s = s.push(Version::Platinum);
        let s = s.push(Version::Heartgold);
        let s = s.push(Version::Soulsilver);
        let s = s.push(Version::Black);
        let s = s.push(Version::White);
        let s = s.push(Version::Colosseum);
        let s = s.push(Version::XD);
        let s = s.push(Version::Black2);
        let s = s.push(Version::White2);
        s
    }

    fn values() -> (v: Vec<Version>) {
        let mut v: Vec<Version> = Vec::new();
        v.push(Version::Red);
        v.push(Version::Blue);
        v.push(Version::Yellow);
        v.push(Version::Gold);
        v.push(Version::Silver);
        v.push(Version::Crystal);
        v.push(Version::Ruby);
        v.push(Version::Sapphire);
        v.push(Version::Emerald);
        v.push(Version::Firered);
        v.push(Version::Leafgreen);
        v.push(Version::Diamond);
        v.push(Version::Pearl);
        v.push(Version::Platinum);
        v.push(Version::Heartgold);
        v.push(Version::Soulsilver);
        v.push(Version::Black);
        v.push(Version::White);
        v.push(Version::Colosseum);
        v.push(Version::XD);
        v.push(Version::Black2);
        v.push(Version::White2);
        v
    }
    open spec fn spec_repr(self) -> i32 {
        match self {
            Version::Red => 0,
            Version::Blue => 1,
            Version::Yellow => 2,
            Version::Gold => 3,
            Version::Silver => 4,
            Version::Crystal => 5,
            Version::Ruby => 6,
            Version::Sapphire => 7,
            Version::Emerald => 8,
            Version::Firered => 9,
            Version::Leafgreen => 10,
            Version::Diamond => 11,
            Version::Pearl => 12,
            Version::Platinum => 13,
            Version::Heartgold => 14,
            Version::Soulsilver => 15,
            Version::Black => 16,
            Version::White => 17,
            Version::Colosseum => 18,
            Version::XD => 19,
            Version::Black2 => 20,
            Version::White2 => 21,
        }
    }

    open spec fn spec_from_repr(code: i32) -> Option<Version> {
        match code {
            0 => Some(Version::Red),
            1 => Some(Version::Blue),
            2 => Some(Version::Yellow),
            3 => Some(Version::Gold),
            4 => Some(Version::Silver),
            5 => Some(Version::Crystal),
            6 => Some(Version::Ruby),
            7 => Some(Version::Sapphire),
            8 => Some(Version::Emerald),
            9 => Some(Version::Firered),
            10 => Some(Version::Leafgreen),
            11 => Some(Version::Diamond),
            12 => Some(Version::Pearl),
            13 => Some(Version::Platinum),
            14 => Some(Version::Heartgold),
            15 => Some(Version::Soulsilver),
            16 => Some(Version::Black),
            17 => Some(Version::White),
            18 => Some(Version::Colosseum),
            19 => Some(Version::XD),
            20 => Some(Version::Black2),
            21 => Some(Version::White2),
            _ => None,
        }
    }

    open spec fn spec_count() -> int {
        22
    }

    fn repr(self) -> (c: i32) {
        match self {
            Version::Red => 0,
            Version::Blue => 1,
            Version::Yellow => 2,
            Version::Gold => 3,
            Version::Silver => 4,
            Version::Crystal => 5,
            Version::Ruby => 6,
            Version::Sapphire => 7,
            Version::Emerald => 8,
            Version::Firered => 9,
            Version::Leafgreen => 10,
            Version::Diamond => 11,
            Version::Pearl => 12,
            Version::Platinum => 13,
            Version::Heartgold => 14,
            Version::Soulsilver => 15,
            Version::Black => 16,
            Version::White => 17,
            Version::Colosseum => 18,
            Version::XD => 19,
            Version::Black2 => 20,
            Version::White2 => 21,
        }
    }

    fn from_repr(code: i32) -> (r: Option<Version>) {
        match code {
            0 => Some(Version::Red),
            1 => Some(Version::Blue),
            2 => Some(Version::Yellow),
            3 => Some(Version::Gold),
            4 => Some(Version::Silver),
            5 => Some(Version::Crystal),
            6 => Some(Version::Ruby),
            7 => Some(Version::Sapphire),
            8 => Some(Version::Emerald),
            9 => Some(Version::Firered),
            10 => Some(Version::Leafgreen),
            11 => Some(Version::Diamond),
            12 => Some(Version::Pearl),
            13 => Some(Version::Platinum),
            14 => Some(Version::Heartgold),
            15 => Some(Version::Soulsilver),
            16 => Some(Version::Black),
            17 => Some(Version::White),
            18 => Some(Version::Colosseum),
            19 => Some(Version::XD),
            20 => Some(Version::Black2),
            21 => Some(Version::White2),
            _ => None,
        }
    }

    fn count() -> (n: usize) {
        22
    }

    proof fn lemma_values_count() {
    }

    proof fn lemma_round_trip(self) {
    }
}

impl FromVeekun for Version {
    type Intermediate = u8;

    open spec fn spec_from_veekun(value: u8) -> Option<Self> {
        Self::spec_from_repr(((value - 1)) as i32)
    }

    fn from_veekun(value: u8) -> (r: Option<Self>) {
        Self::from_repr(value as i32 - 1)
    }
}
/// Versions released together and sharing mechanics.
#[derive(Clone, Copy, Debug, PartialEq, Eq, Structural, Hash)]
pub enum VersionGroup {
    RedBlue,
    Yellow,
    GoldSilver,
    Crystal,
    RubySapphire,
    Emerald,
    FireredLeafgreen,
    DiamondPearl,
    Platinum,
    HeartgoldSoulsilver,
    BlackWhite,
    Colosseum,
    XD,
    BlackWhite2,
}

impl Enum for VersionGroup {
    open spec fn spec_values() -> Seq<VersionGroup> {
        let s = Seq::<VersionGroup>::empty();
        let s = s.push(VersionGroup::RedBlue);
        let s = s.push(VersionGroup::Yellow);
        let s = s.push(VersionGroup::GoldSilver);
        let s = s.push(VersionGroup::Crystal);
        let s = s.push(VersionGroup::RubySapphire);
        let s = s.push(VersionGroup::Emerald);
        let s = s.push(VersionGroup::FireredLeafgreen);
        let s = s.push(VersionGroup::DiamondPearl);
        let s = s.push(VersionGroup::Platinum);
        let s = s.push(VersionGroup::HeartgoldSoulsilver);
        let s = s.push(VersionGroup::BlackWhite);
        let s = s.push(VersionGroup::Colosseum);
        let s = s.push(VersionGroup::XD);
        let s = s.push(VersionGroup::BlackWhite2);
        s
    }

    fn values() -> (v: Vec<VersionGroup>) {
        let mut v: Vec<VersionGroup> = Vec::new();
        v.push(VersionGroup::RedBlue);
        v.push(VersionGroup::Yellow);
        v.push(VersionGroup::GoldSilver);
        v.push(VersionGroup::Crystal);
        v.push(VersionGroup::RubySapphire);
        v.push(VersionGroup::Emerald);
        v.push(VersionGroup::FireredLeafgreen);
        v.push(VersionGroup::DiamondPearl);
        v.push(VersionGroup::Platinum);
        v.push(VersionGroup::HeartgoldSoulsilver);
        v.push(VersionGroup::BlackWhite);
        v.push(VersionGroup::Colosseum);
        v.push(VersionGroup::XD);
        v.push(VersionGroup::BlackWhite2);
        v
    }
    open spec fn spec_repr(self) -> i32 {
        match self {
            VersionGroup::RedBlue => 0,
            VersionGroup::Yellow => 1,
            VersionGroup::GoldSilver => 2,
            VersionGroup::Crystal => 3,
            VersionGroup::RubySapphire => 4,
            VersionGroup::Emerald => 5,
            VersionGroup::FireredLeafgreen => 6,
            VersionGroup::DiamondPearl => 7,
            VersionGroup::Platinum => 8,
            VersionGroup::HeartgoldSoulsilver => 9,
            VersionGroup::BlackWhite => 10,
            VersionGroup::Colosseum => 11,
            VersionGroup::XD => 12,
            VersionGroup::BlackWhite2 => 13,
        }
    }

    open spec fn spec_from_repr(code: i32) -> Option<VersionGroup> {
        match code {
            0 => Some(VersionGroup::RedBlue),
            1 => Some(VersionGroup::Yellow),
            2 => Some(VersionGroup::GoldSilver),
            3 => Some(VersionGroup::Crystal),
            4 => Some(VersionGroup::RubySapphire),
            5 => Some(VersionGroup::Emerald),
            6 => Some(VersionGroup::FireredLeafgreen),
            7 => Some(VersionGroup::DiamondPearl),
            8 => Some(VersionGroup::Platinum),
            9 => Some(VersionGroup::HeartgoldSoulsilver),
            10 => Some(VersionGroup::BlackWhite),
            11 => Some(VersionGroup::Colosseum),
            12 => Some(VersionGroup::XD),
            13 => Some(VersionGroup::BlackWhite2),
            _ => None,
        }
    }

    open spec fn spec_count() -> int {
        14
    }

    fn repr(self) -> (c: i32) {
        match self {
            VersionGroup::RedBlue => 0,
            VersionGroup::Yellow => 1,
            VersionGroup::GoldSilver => 2,
            VersionGroup::Crystal => 3,
            VersionGroup::RubySapphire => 4,
            VersionGroup::Emerald => 5,
            VersionGroup::FireredLeafgreen => 6,
            VersionGroup::DiamondPearl => 7,
            VersionGroup::Platinum => 8,
            VersionGroup::HeartgoldSoulsilver => 9,
            VersionGroup::BlackWhite => 10,
            VersionGroup::Colosseum => 11,
            VersionGroup::XD => 12,
            VersionGroup::BlackWhite2 => 13,
        }
    }

    fn from_repr(code: i32) -> (r: Option<VersionGroup>) {
        match code {
            0 => Some(VersionGroup::RedBlue),
            1 => Some(VersionGroup::Yellow),
            2 => Some(VersionGroup::GoldSilver),
            3 => Some(VersionGroup::Crystal),
            4 => Some(VersionGroup::RubySapphire),
            5 => Some(VersionGroup::Emerald),
            6 => Some(VersionGroup::FireredLeafgreen),
            7 => Some(VersionGroup::DiamondPearl),
            8 => Some(VersionGroup::Platinum),
            9 => Some(VersionGroup::HeartgoldSoulsilver),
            10 => Some(VersionGroup::BlackWhite),
            11 => Some(VersionGroup::Colosseum),
            12 => Some(VersionGroup::XD),
            13 => Some(VersionGroup::BlackWhite2),
            _ => None,
        }
    }

    fn count() -> (n: usize) {
        14
    }

    proof fn lemma_values_count() {
    }

    proof fn lemma_round_trip(self) {
    }
}

impl FromVeekun for VersionGroup {
    type Intermediate = u8;

    open spec fn spec_from_veekun(value: u8) -> Option<Self> {
        Self::spec_from_repr(((value - 1)) as i32)
    }

    fn from_veekun(value: u8) -> (r: Option<Self>) {
        Self::from_repr(value as i32 - 1)
    }
}

impl Version {
    /// The version group a version belongs to.
    pub open spec fn spec_group(self) -> VersionGroup {
        match self {
            Version::Red | Version::Blue => VersionGroup::RedBlue,
            Version::Yellow => VersionGroup::Yellow,
            Version::Gold | Version::Silver => VersionGroup::GoldSilver,
            Version::Crystal => VersionGroup::Crystal,
            Version::Ruby | Version::Sapphire => VersionGroup::RubySapphire,
            Version::Emerald => VersionGroup::Emerald,
            Version::Firered | Version::Leafgreen => VersionGroup::FireredLeafgreen,
            Version::Diamond | Version::Pearl => VersionGroup::DiamondPearl,
            Version::Platinum => VersionGroup::Platinum,
            Version::Heartgold | Version::Soulsilver => VersionGroup::HeartgoldSoulsilver,
            Version::Black | Version::White => VersionGroup::BlackWhite,
            Version::Colosseum => VersionGroup::Colosseum,
            Version::XD => VersionGroup::XD,
            Version::Black2 | Version::White2 => VersionGroup::BlackWhite2,
        }
    }

    /// The version group a version belongs to.
    pub fn group(self) -> (r: VersionGroup)
        ensures
            r == self.spec_group(),
    {
        match self {
            Version::Red | Version::Blue => VersionGroup::RedBlue,
            Version::Yellow => VersionGroup::Yellow,
            Version::Gold | Version::Silver => VersionGroup::GoldSilver,
            Version::Crystal => VersionGroup::Crystal,
            Version::Ruby | Version::Sapphire => VersionGroup::RubySapphire,
            Version::Emerald => VersionGroup::Emerald,
            Version::Firered | Version::Leafgreen => VersionGroup::FireredLeafgreen,
            Version::Diamond | Version::Pearl => VersionGroup::DiamondPearl,
            Version::Platinum => VersionGroup::Platinum,
            Version::Heartgold | Version::Soulsilver => VersionGroup::HeartgoldSoulsilver,
            Version::Black | Version::White => VersionGroup::BlackWhite,
            Version::Colosseum => VersionGroup::Colosseum,
            Version::XD => VersionGroup::XD,
            Version::Black2 | Version::White2 => VersionGroup::BlackWhite2,
        }
    }

    /// The generation a version belongs to.
    pub fn generation(self) -> (r: Generation)
        ensures
            r == self.spec_group().spec_generation(),
    {
        self.group().generation()
    }
}

impl VersionGroup {
    /// The generation a version group belongs to.
    pub open spec fn spec_generation(self) -> Generation {
        match self {
            VersionGroup::RedBlue | VersionGroup::Yellow => Generation::I,
            VersionGroup::GoldSilver | VersionGroup::Crystal => Generation::II,
            VersionGroup::RubySapphire | VersionGroup::Emerald | VersionGroup::FireredLeafgreen
                | VersionGroup::Colosseum | VersionGroup::XD => Generation::III,
            VersionGroup::DiamondPearl | VersionGroup::Platinum
                | VersionGroup::HeartgoldSoulsilver => Generation::IV,
            VersionGroup::BlackWhite | VersionGroup::BlackWhite2 => Generation::V,
        }
    }

    /// The generation a version group belongs to.
    pub fn generation(self) -> (r: Generation)
        ensures
            r == self.spec_generation(),
    {
        match self {
            VersionGroup::RedBlue | VersionGroup::Yellow => Generation::I,
            VersionGroup::GoldSilver | VersionGroup::Crystal => Generation::II,
            VersionGroup::RubySapphire | VersionGroup::Emerald | VersionGroup::FireredLeafgreen
                | VersionGroup::Colosseum | VersionGroup::XD => Generation::III,
            VersionGroup::DiamondPearl | VersionGroup::Platinum
                | VersionGroup::HeartgoldSoulsilver => Generation::IV,
            VersionGroup::BlackWhite | VersionGroup::BlackWhite2 => Generation::V,
        }
    }
}

} // verus!
