//! Status ailments caused by moves.

use vstd::prelude::*;
use crate::enums::Enum;
use crate::repr::FromVeekun;

verus! {

/// A status condition that a move can inflict.
#[derive(Clone, Copy, Debug, PartialEq, Eq, Structural, Hash)]
pub enum Ailment {
    Unknown,
    NoAilment,
    Paralysis,
    Sleep,
    Freeze,
    Burn,
    Poison,
    Confusion,
    Infatuation,
    Trap,
    Nightmare,
    Torment,
    Disable,
    Yawn,
    HealBlock,
    NoTypeImmunity,
    LeechSeed,
    Embargo,
    PerishSong,
    Ingrain,
}

impl Enum for Ailment {
    open spec fn spec_values() -> Seq<Ailment> {
        let s = Seq::<Ailment>::empty();
        let s = s.push(Ailment::Unknown);
        let s = s.push(Ailment::NoAilment);
        let s = s.push(Ailment::Paralysis);
        let s = s.push(Ailment::Sleep);
        let s = s.push(Ailment::Freeze);
        let s = s.push(Ailment::Burn);
        let s = s.push(Ailment::Poison);
        let s = s.push(Ailment::Confusion);
        let s = s.push(Ailment::Infatuation);
        let s = s.push(Ailment::Trap);
        let s = s.push(Ailment::Nightmare);
        let s = s.push(Ailment::Torment);
        let s = s.push(Ailment::Disable);
        let s = s.push(Ailment::Yawn);
        let s = s.push(Ailment::HealBlock);
        let s = s.push(Ailment::NoTypeImmunity);
        let s = s.push(Ailment::LeechSeed);
        let s = s.push(Ailment::Embargo);
        let s = s.push(Ailment::PerishSong);
        let s = s.push(Ailment::Ingrain);
        s
    }

    fn values() -> (v: Vec<Ailment>) {
        let mut v: Vec<Ailment> = Vec::new();
        v.push(Ailment::Unknown);
        v.push(Ailment::NoAilment);
        v.push(Ailment::Paralysis);
        v.push(Ailment::Sleep);
        v.push(Ailment::Freeze);
        v.push(Ailment::Burn);
        v.push(Ailment::Poison);
        v.push(Ailment::Confusion);
        v.push(Ailment::Infatuation);
        v.push(Ailment::Trap);
        v.push(Ailment::Nightmare);
        v.push(Ailment::Torment);
        v.push(Ailment::Disable);
        v.push(Ailment::Yawn);
        v.push(Ailment::HealBlock);
        v.push(Ailment::NoTypeImmunity);
        v.push(Ailment::LeechSeed);
        v.push(Ailment::Embargo);
        v.push(Ailment::PerishSong);
        v.push(Ailment::Ingrain);
        v
    }
    open spec fn spec_repr(self) -> i32 {
        match self {
            Ailment::Unknown => (-1) as i32,
            Ailment::NoAilment => 0,
            Ailment::Paralysis => 1,
            Ailment::Sleep => 2,
            Ailment::Freeze => 3,
            Ailment::Burn => 4,
            Ailment::Poison => 5,
            Ailment::Confusion => 6,
            Ailment::Infatuation => 7,
            Ailment::Trap => 8,
            Ailment::Nightmare => 9,
            Ailment::Torment => 12,
            Ailment::Disable => 13,
            Ailment::Yawn => 14,
            Ailment::HealBlock => 15,
            Ailment::NoTypeImmunity => 17,
            Ailment::LeechSeed => 18,
            Ailment::Embargo => 19,
            Ailment::PerishSong => 20,
            Ailment::Ingrain => 21,
        }
    }

    open spec fn spec_from_repr(code: i32) -> Option<Ailment> {
        match code {
            -1 => Some(Ailment::Unknown),
            0 => Some(Ailment::NoAilment),
            1 => Some(Ailment::Paralysis),
            2 => Some(Ailment::Sleep),
            3 => Some(Ailment::Freeze),
            4 => Some(Ailment::Burn),
            5 => Some(Ailment::Poison),
            6 => Some(Ailment::Confusion),
            7 => Some(Ailment::Infatuation),
            8 => Some(Ailment::Trap),
            9 => Some(Ailment::Nightmare),
            12 => Some(Ailment::Torment),
            13 => Some(Ailment::Disable),
            14 => Some(Ailment::Yawn),
            15 => Some(Ailment::HealBlock),
            17 => Some(Ailment::NoTypeImmunity),
            18 => Some(Ailment::LeechSeed),
            19 => Some(Ailment::Embargo),
            20 => Some(Ailment::PerishSong),
            21 => Some(Ailment::Ingrain),
            _ => None,
        }
    }

    open spec fn spec_count() -> int {
        20
    }

    fn repr(self) -> (c: i32) {
        match self {
            Ailment::Unknown => -1,
            Ailment::NoAilment => 0,
            Ailment::Paralysis => 1,
            Ailment::Sleep => 2,
            Ailment::Freeze => 3,
            Ailment::Burn => 4,
            Ailment::Poison => 5,
            Ailment::Confusion => 6,
            Ailment::Infatuation => 7,
            Ailment::Trap => 8,
            Ailment::Nightmare => 9,
            Ailment::Torment => 12,
            Ailment::Disable => 13,
            Ailment::Yawn => 14,
            Ailment::HealBlock => 15,
            Ailment::NoTypeImmunity => 17,
            Ailment::LeechSeed => 18,
            Ailment::Embargo => 19,
            Ailment::PerishSong => 20,
            Ailment::Ingrain => 21,
        }
    }

    fn from_repr(code: i32) -> (r: Option<Ailment>) {
        match code {
            -1 => Some(Ailment::Unknown),
            0 => Some(Ailment::NoAilment),
            1 => Some(Ailment::Paralysis),
            2 => Some(Ailment::Sleep),
            3 => Some(Ailment::Freeze),
            4 => Some(Ailment::Burn),
            5 => Some(Ailment::Poison),
            6 => Some(Ailment::Confusion),
            7 => Some(Ailment::Infatuation),
            8 => Some(Ailment::Trap),
            9 => Some(Ailment::Nightmare),
            12 => Some(Ailment::Torment),
            13 => Some(Ailment::Disable),
            14 => Some(Ailment::Yawn),
            15 => Some(Ailment::HealBlock),
            17 => Some(Ailment::NoTypeImmunity),
            18 => Some(Ailment::LeechSeed),
            19 => Some(Ailment::Embargo),
            20 => Some(Ailment::PerishSong),
            21 => Some(Ailment::Ingrain),
            _ => None,
        }
    }

    fn count() -> (n: usize) {
        20
    }

    proof fn lemma_values_count() {
    }

    proof fn lemma_round_trip(self) {
    }
}

impl Default for Ailment {
    fn default() -> (r: Self)
        ensures
            r == Ailment::Unknown,
    {
        Ailment::Unknown
    }
}

impl FromVeekun for Ailment {
    type Intermediate = i8;

    open spec fn spec_from_veekun(value: i8) -> Option<Self> {
        Self::spec_from_repr(value as i32)
    }

    fn from_veekun(value: i8) -> (r: Option<Self>) {
        Self::from_repr(value as i32)
    }
}

impl Ailment {
    /// True if the ailment does not persist on switching out.
    pub open spec fn spec_volatile(self) -> bool {
        !(1 <= self.spec_repr() <= 5)
    }

    /// True if the ailment does not persist on switching out.
    pub fn volatile(self) -> (r: bool)
        ensures
            r == self.spec_volatile(),
    {
        let x = self.repr();
        !(1 <= x && x <= 5)
    }
}

} // verus!
