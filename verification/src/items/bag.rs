//! Item categories and bag pockets.

use vstd::prelude::*;
use crate::enums::Enum;
use crate::repr::FromVeekun;

verus! {

/// Broad item category, used for organization.
#[derive(Clone, Copy, Debug, PartialEq, Eq, Structural, Hash)]
pub enum Category {
    StatBoosts,
    EffortDrop,
    Medicine,
    Other,
    InAPinch,
    PickyHealing,
    TypeProtection,
    BakingOnly,
    Collectibles,
    Evolution,
    Spelunking,
    HeldItems,
    Choice,
    EffortTraining,
    BadHeldItems,
    Training,
    Plates,
    SpeciesSpecific,
    TypeEnhancement,
    EventItems,
    Gameplay,
    PlotAdvancement,
    Unused,
    Loot,
    Mail,
    Vitamins,
    Healing,
    PPRecovery,
    Revival,
    StatusCures,
    Mulch,
    SpecialBalls,
    StandardBalls,
    DexCompletion,
    Scarves,
    Machines,
    Flutes,
    ApricornBalls,
    ApricornBox,
    DataCards,
    Jewels,
    MiracleShooter,
}

impl Enum for Category {
    open spec fn spec_values() -> Seq<Category> {
        let s = Seq::<Category>::empty();
        let s = s.push(Category::StatBoosts);
        let s = s.push(Category::EffortDrop);
        let s = s.push(Category::Medicine);
        let s = s.push(Category::Other);
        let s = s.push(Category::InAPinch);
        let s = s.push(Category::PickyHealing);
        let s = s.push(Category::TypeProtection);
        let s = s.push(Category::BakingOnly);
        let s = s.push(Category::Collectibles);
        let s = s.push(Category::Evolution);
        let s = s.push(Category::Spelunking);
        let s = s.push(Category::HeldItems);
        let s = s.push(Category::Choice);
        let s = s.push(Category::EffortTraining);
        let s = s.push(Category::BadHeldItems);
        let s = s.push(Category::Training);
        let s = s.push(Category::Plates);
        let s = s.push(Category::SpeciesSpecific);
        let s = s.push(Category::TypeEnhancement);
        let s = s.push(Category::EventItems);
        let s = s.push(Category::Gameplay);
        let s = s.push(Category::PlotAdvancement);
        let s = s.push(Category::Unused);
        let s = s.push(Category::Loot);
        let s = s.push(Category::Mail);
        let s = s.push(Category::Vitamins);
        let s = s.push(Category::Healing);
        let s = s.push(Category::PPRecovery);
        let s = s.push(Category::Revival);
        let s = s.push(Category::StatusCures);
        let s = s.push(Category::Mulch);
        let s = s.push(Category::SpecialBalls);
        let s = s.push(Category::StandardBalls);
        let s = s.push(Category::DexCompletion);
        let s = s.push(Category::Scarves);
        let s = s.push(Category::Machines);
        let s = s.push(Category::Flutes);
        let s = s.push(Category::ApricornBalls);
        let s = s.push(Category::ApricornBox);
        let s = s.push(Category::DataCards);
        let s = s.push(Category::Jewels);
        let s = s.push(Category::MiracleShooter);
        s
    }

    fn values() -> (v: Vec<Category>) {
        let mut v: Vec<Category> = Vec::new();
        v.push(Category::StatBoosts);
        v.push(Category::EffortDrop);
        v.push(Category::Medicine);
        v.push(Category::Other);
        v.push(Category::InAPinch);
        v.push(Category::PickyHealing);
        v.push(Category::TypeProtection);
        v.push(Category::BakingOnly);
        v.push(Category::Collectibles);
        v.push(Category::Evolution);
        v.push(Category::Spelunking);
        v.push(Category::HeldItems);
        v.push(Category::Choice);
        v.push(Category::EffortTraining);
        v.push(Category::BadHeldItems);
        v.push(Category::Training);
        v.push(Category::Plates);
        v.push(Category::SpeciesSpecific);
        v.push(Category::TypeEnhancement);
        v.push(Category::EventItems);
        v.push(Category::Gameplay);
        v.push(Category::PlotAdvancement);
        v.push(Category::Unused);
        v.push(Category::Loot);
        v.push(Category::Mail);
        v.push(Category::Vitamins);
        v.push(Category::Healing);
        v.push(Category::PPRecovery);
        v.push(Category::Revival);
        v.push(Category::StatusCures);
        v.push(Category::Mulch);
        v.push(Category::SpecialBalls);
        v.push(Category::StandardBalls);
        v.push(Category::DexCompletion);
        v.push(Category::Scarves);
        v.push(Category::Machines);
        v.push(Category::Flutes);
        v.push(Category::ApricornBalls);
        v.push(Category::ApricornBox);
        v.push(Category::DataCards);
        v.push(Category::Jewels);
        v.push(Category::MiracleShooter);
        v
    }
    open spec fn spec_repr(self) -> i32 {
        match self {
            Category::StatBoosts => 1,
            Category::EffortDrop => 2,
            Category::Medicine => 3,
            Category::Other => 4,
            Category::InAPinch => 5,
            Category::PickyHealing => 6,
            Category::TypeProtection => 7,
            Category::BakingOnly => 8,
            Category::Collectibles => 9,
            Category::Evolution => 10,
            Category::Spelunking => 11,
            Category::HeldItems => 12,
            Category::Choice => 13,
            Category::EffortTraining => 14,
            Category::BadHeldItems => 15,
            Category::Training => 16,
            Category::Plates => 17,
            Category::SpeciesSpecific => 18,
            Category::TypeEnhancement => 19,
            Category::EventItems => 20,
            Category::Gameplay => 21,
            Category::PlotAdvancement => 22,
            Category::Unused => 23,
            Category::Loot => 24,
            Category::Mail => 25,
            Category::Vitamins => 26,
            Category::Healing => 27,
            Category::PPRecovery => 28,
            Category::Revival => 29,
            Category::StatusCures => 30,
            Category::Mulch => 32,
            Category::SpecialBalls => 33,
            Category::StandardBalls => 34,
            Category::DexCompletion => 35,
            Category::Scarves => 36,
            Category::Machines => 37,
            Category::Flutes => 38,
            Category::ApricornBalls => 39,
            Category::ApricornBox => 40,
            Category::DataCards => 41,
            Category::Jewels => 42,
            Category::MiracleShooter => 43,
        }
    }

    open spec fn spec_from_repr(code: i32) -> Option<Category> {
        match code {
            1 => Some(Category::StatBoosts),
            2 => Some(Category::EffortDrop),
            3 => Some(Category::Medicine),
            4 => Some(Category::Other),
            5 => Some(Category::InAPinch),
            6 => Some(Category::PickyHealing),
            7 => Some(Category::TypeProtection),
            8 => Some(Category::BakingOnly),
            9 => Some(Category::Collectibles),
            10 => Some(Category::Evolution),
            11 => Some(Category::Spelunking),
            12 => Some(Category::HeldItems),
            13 => Some(Category::Choice),
            14 => Some(Category::EffortTraining),
            15 => Some(Category::BadHeldItems),
            16 => Some(Category::Training),
            17 => Some(Category::Plates),
            18 => Some(Category::SpeciesSpecific),
            19 => Some(Category::TypeEnhancement),
            20 => Some(Category::EventItems),
            21 => Some(Category::Gameplay),
            22 => Some(Category::PlotAdvancement),
            23 => Some(Category::Unused),
            24 => Some(Category::Loot),
            25 => Some(Category::Mail),
            26 => Some(Category::Vitamins),
            27 => Some(Category::Healing),
            28 => Some(Category::PPRecovery),
            29 => Some(Category::Revival),
            30 => Some(Category::StatusCures),
            32 => Some(Category::Mulch),
            33 => Some(Category::SpecialBalls),
            34 => Some(Category::StandardBalls),
            35 => Some(Category::DexCompletion),
            36 => Some(Category::Scarves),
            37 => Some(Category::Machines),
            38 => Some(Category::Flutes),
            39 => Some(Category::ApricornBalls),
            40 => Some(Category::ApricornBox),
            41 => Some(Category::DataCards),
            42 => Some(Category::Jewels),
            43 => Some(Category::MiracleShooter),
            _ => None,
        }
    }

    open spec fn spec_count() -> int {
        42
    }

    fn repr(self) -> (c: i32) {
        match self {
            Category::StatBoosts => 1,
            Category::EffortDrop => 2,
            Category::Medicine => 3,
            Category::Other => 4,
            Category::InAPinch => 5,
            Category::PickyHealing => 6,
            Category::TypeProtection => 7,
            Category::BakingOnly => 8,
            Category::Collectibles => 9,
            Category::Evolution => 10,
            Category::Spelunking => 11,
            Category::HeldItems => 12,
            Category::Choice => 13,
            Category::EffortTraining => 14,
            Category::BadHeldItems => 15,
            Category::Training => 16,
            Category::Plates => 17,
            Category::SpeciesSpecific => 18,
            Category::TypeEnhancement => 19,
            Category::EventItems => 20,
            Category::Gameplay => 21,
            Category::PlotAdvancement => 22,
            Category::Unused => 23,
            Category::Loot => 24,
            Category::Mail => 25,
            Category::Vitamins => 26,
            Category::Healing => 27,
            Category::PPRecovery => 28,
            Category::Revival => 29,
            Category::StatusCures => 30,
            Category::Mulch => 32,
            Category::SpecialBalls => 33,
            Category::StandardBalls => 34,
            Category::DexCompletion => 35,
            Category::Scarves => 36,
            Category::Machines => 37,
            Category::Flutes => 38,
            Category::ApricornBalls => 39,
            Category::ApricornBox => 40,
            Category::DataCards => 41,
            Category::Jewels => 42,
            Category::MiracleShooter => 43,
        }
    }

    fn from_repr(code: i32) -> (r: Option<Category>) {
        match code {
            1 => Some(Category::StatBoosts),
            2 => Some(Category::EffortDrop),
            3 => Some(Category::Medicine),
            4 => Some(Category::Other),
            5 => Some(Category::InAPinch),
            6 => Some(Category::PickyHealing),
            7 => Some(Category::TypeProtection),
            8 => Some(Category::BakingOnly),
            9 => Some(Category::Collectibles),
            10 => Some(Category::Evolution),
            11 => Some(Category::Spelunking),
            12 => Some(Category::HeldItems),
            13 => Some(Category::Choice),
            14 => Some(Category::EffortTraining),
            15 => Some(Category::BadHeldItems),
            16 => Some(Category::Training),
            17 => Some(Category::Plates),
            18 => Some(Category::SpeciesSpecific),
            19 => Some(Category::TypeEnhancement),
            20 => Some(Category::EventItems),
            21 => Some(Category::Gameplay),
            22 => Some(Category::PlotAdvancement),
            23 => Some(Category::Unused),
            24 => Some(Category::Loot),
            25 => Some(Category::Mail),
            26 => Some(Category::Vitamins),
            27 => Some(Category::Healing),
            28 => Some(Category::PPRecovery),
            29 => Some(Category::Revival),
            30 => Some(Category::StatusCures),
            32 => Some(Category::Mulch),
            33 => Some(Category::SpecialBalls),
            34 => Some(Category::StandardBalls),
            35 => Some(Category::DexCompletion),
            36 => Some(Category::Scarves),
            37 => Some(Category::Machines),
            38 => Some(Category::Flutes),
            39 => Some(Category::ApricornBalls),
            40 => Some(Category::ApricornBox),
            41 => Some(Category::DataCards),
            42 => Some(Category::Jewels),
            43 => Some(Category::MiracleShooter),
            _ => None,
        }
    }

    fn count() -> (n: usize) {
        42
    }

    proof fn lemma_values_count() {
    }

    proof fn lemma_round_trip(self) {
    }
}

impl Default for Category {
    fn default() -> (r: Self)
        ensures
            r == Category::Unused,
    {
        Category::Unused
    }
}

impl FromVeekun for Category {
    type Intermediate = u8;

    open spec fn spec_from_veekun(value: u8) -> Option<Self> {
        Self::spec_from_repr(value as i32)
    }

    fn from_veekun(value: u8) -> (r: Option<Self>) {
        Self::from_repr(value as i32)
    }
}
/// Bag pocket in which items are stored.
#[derive(Clone, Copy, Debug, PartialEq, Eq, Structural, Hash)]
pub enum Pocket {
    Misc,
    Medicine,
    Pokeballs,
    Machines,
    Berries,
    Mail,
    Battle,
    Key,
}

impl Enum for Pocket {
    open spec fn spec_values() -> Seq<Pocket> {
        let s = Seq::<Pocket>::empty();
        let s = s.push(Pocket::Misc);
        let s = s.push(Pocket::Medicine);
        let s = s.push(Pocket::Pokeballs);
        let s = s.push(Pocket::Machines);
        let s = s.push(Pocket::Berries);
        let s = s.push(Pocket::Mail);
        let s = s.push(Pocket::Battle);
        let s = s.push(Pocket::Key);
        s
    }

    fn values() -> (v: Vec<Pocket>) {
        let mut v: Vec<Pocket> = Vec::new();
        v.push(Pocket::Misc);
        v.push(Pocket::Medicine);
        v.push(Pocket::Pokeballs);
        v.push(Pocket::Machines);
        v.push(Pocket::Berries);
        v.push(Pocket::Mail);
        v.push(Pocket::Battle);
        v.push(Pocket::Key);
        v
    }
    open spec fn spec_repr(self) -> i32 {
        match self {
            Pocket::Misc => 0,
            Pocket::Medicine => 1,
            Pocket::Pokeballs => 2,
            Pocket::Machines => 3,
            Pocket::Berries => 4,
            Pocket::Mail => 5,
            Pocket::Battle => 6,
            Pocket::Key => 7,
        }
    }

    open spec fn spec_from_repr(code: i32) -> Option<Pocket> {
        match code {
            0 => Some(Pocket::Misc),
            1 => Some(Pocket::Medicine),
            2 => Some(Pocket::Pokeballs),
            3 => Some(Pocket::Machines),
            4 => Some(Pocket::Berries),
            5 => Some(Pocket::Mail),
            6 => Some(Pocket::Battle),
            7 => Some(Pocket::Key),
            _ => None,
        }
    }

    open spec fn spec_count() -> int {
        8
    }

    fn repr(self) -> (c: i32) {
        match self {
            Pocket::Misc => 0,
            Pocket::Medicine => 1,
            Pocket::Pokeballs => 2,
            Pocket::Machines => 3,
            Pocket::Berries => 4,
            Pocket::Mail => 5,
            Pocket::Battle => 6,
            Pocket::Key => 7,
        }
    }

    fn from_repr(code: i32) -> (r: Option<Pocket>) {
        match code {
            0 => Some(Pocket::Misc),
            1 => Some(Pocket::Medicine),
            2 => Some(Pocket::Pokeballs),
            3 => Some(Pocket::Machines),
            4 => Some(Pocket::Berries),
            5 => Some(Pocket::Mail),
            6 => Some(Pocket::Battle),
            7 => Some(Pocket::Key),
            _ => None,
        }
    }

    fn count() -> (n: usize) {
        8
    }

    proof fn lemma_values_count() {
    }

    proof fn lemma_round_trip(self) {
    }
}

impl Default for Pocket {
    fn default() -> (r: Self)
        ensures
            r == Pocket::Misc,
    {
        Pocket::Misc
    }
}

impl FromVeekun for Pocket {
    type Intermediate = u8;

    open spec fn spec_from_veekun(value: u8) -> Option<Self> {
        Self::spec_from_repr(((value - 1)) as i32)
    }

    fn from_veekun(value: u8) -> (r: Option<Self>) {
        Self::from_repr(value as i32 - 1)
    }
}

impl Category {
    /// True if the items in this category have no use in battle simulation.
    pub open spec fn spec_unused(self) -> bool {
        let x = self.spec_repr();
        x == 2 || x == 8 || x == 9 || x == 11 || x == 14 || x == 16 || (20 <= x <= 26) || (32 <= x
            <= 34) || x == 36 || (39 <= x <= 41) || x == 43
    }

    /// True if the items in this category have no use in battle simulation.
    pub fn unused(self) -> (r: bool)
        ensures
            r == self.spec_unused(),
    {
        let x = self.repr();
        x == 2 || x == 8 || x == 9 || x == 11 || x == 14 || x == 16 || (20 <= x && x <= 26) || (32
            <= x && x <= 34) || x == 36 || (39 <= x && x <= 41) || x == 43
    }

    /// The bag pocket in which items of this category are stored.
    pub open spec fn spec_pocket(self) -> Pocket {
        let x = self.spec_repr();
        if (9 <= x <= 19) || x == 24 || x == 32 || x == 35 || x == 36 || x == 42 {
            Pocket::Misc
        } else if 26 <= x <= 30 {
            Pocket::Medicine
        } else if x == 33 || x == 34 || x == 39 {
            Pocket::Pokeballs
        } else if x == 37 {
            Pocket::Machines
        } else if 2 <= x <= 8 {
            Pocket::Berries
        } else if x == 25 {
            Pocket::Mail
        } else if 20 <= x <= 23 || x == 40 || x == 41 {
            Pocket::Key
        } else {
            Pocket::Battle
        }
    }

    /// The bag pocket in which items of this category are stored.
    pub fn pocket(self) -> (r: Pocket)
        ensures
            r == self.spec_pocket(),
    {
        let x = self.repr();
        if (9 <= x && x <= 19) || x == 24 || x == 32 || x == 35 || x == 36 || x == 42 {
            Pocket::Misc
        } else if 26 <= x && x <= 30 {
            Pocket::Medicine
        } else if x == 33 || x == 34 || x == 39 {
            Pocket::Pokeballs
        } else if x == 37 {
            Pocket::Machines
        } else if 2 <= x && x <= 8 {
            Pocket::Berries
        } else if x == 25 {
            Pocket::Mail
        } else if (20 <= x && x <= 23) || x == 40 || x == 41 {
            Pocket::Key
        } else {
            Pocket::Battle
        }
    }
}

} // verus!
