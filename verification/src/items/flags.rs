//! Miscellaneous bitflags for items.

use vstd::prelude::*;
use std::collections::HashMap;
use crate::csv::{Error, FromCsvIncremental, Record, RecordView};
use crate::repr::{spec_from_field, from_field, FromVeekun};
use crate::items::ItemId;

verus! {

broadcast use vstd::std_specs::hash::group_hash_axioms;

/// Miscellaneous bitflags for items, one bit per property.
#[derive(Clone, Copy, Debug, PartialEq, Eq, Structural)]
pub struct Flags(pub u8);

impl Flags {
    /// No flags set.
    pub fn empty() -> (r: Flags)
        ensures
            r.0 == 0,
    {
        Flags(0)
    }

    /// The union of two flag sets.
    pub fn union(self, other: Flags) -> (r: Flags)
        ensures
            r.0 == self.0 | other.0,
    {
        Flags(self.0 | other.0)
    }

    /// True if every flag of `other` is set in `self`.
    pub fn contains(self, other: Flags) -> (r: bool)
        ensures
            r == (self.0 & other.0 == other.0),
    {
        self.0 & other.0 == other.0
    }
}

impl Default for Flags {
    fn default() -> (r: Self)
        ensures
            r.0 == 0,
    {
        Flags(0)
    }
}


impl FromVeekun for Flags {
    type Intermediate = u8;

    open spec fn spec_from_veekun(value: u8) -> Option<Self> {
        if 1 <= value <= 8 {
            Some(Flags(1u8 << ((value - 1) as u8)))
        } else {
            None
        }
    }

    fn from_veekun(value: u8) -> (r: Option<Self>) {
        if 1 <= value && value <= 8 {
            Some(Flags(1u8 << (value - 1)))
        } else {
            None
        }
    }
}

/// Per-item flags accumulated from repeated rows: each row contributes
/// one flag, and repeated contributions for a key are merged by
/// bitwise OR.
pub struct FlagTable(pub HashMap<u16, Flags>);

impl View for FlagTable {
    type V = Map<u16, Flags>;

    open spec fn view(&self) -> Map<u16, Flags> {
        self.0@
    }
}

impl FlagTable {
    /// A fresh table maps no key.
    pub fn new() -> (r: Self)
        ensures
            r@ == Self::spec_empty(),
    {
        Self::from_empty_csv()
    }

    /// The accumulated flags for an item, or none if no row contributed.
    pub fn get(&self, id: ItemId) -> (r: Option<Flags>)
        ensures
            r == if self@.contains_key(id.0) {
                Some(self@[id.0])
            } else {
                None::<Flags>
            },
    {
        match self.0.get(&id.0) {
            Some(f) => Some(*f),
            None => None,
        }
    }
}

impl FromCsvIncremental for FlagTable {
    open spec fn spec_empty() -> Map<u16, Flags> {
        Map::empty()
    }

    open spec fn wf_state(v: Map<u16, Flags>) -> bool {
        true
    }

    open spec fn spec_load(state: Map<u16, Flags>, rec: RecordView) -> (Map<u16, Flags>, Option<
        Error,
    >) {
        match spec_from_field::<ItemId>(rec, 0) {
            Err(e) => (state, Some(e)),
            Ok(id) => match spec_from_field::<Flags>(rec, 1) {
                Err(e) => (state, Some(e)),
                Ok(flag) => {
                    let merged = if state.contains_key(id.0) {
                        Flags(state[id.0].0 | flag.0)
                    } else {
                        flag
                    };
                    (state.insert(id.0, merged), None)
                },
            },
        }
    }

    fn from_empty_csv() -> (r: Self) {
        FlagTable(HashMap::new())
    }

    fn load_csv_record(&mut self, record: &Record) -> (r: Result<(), Error>) {
        let id: ItemId = match from_field::<ItemId>(record, 0) {
            Ok(t) => t,
            Err(e) => {
                return Err(e);
            },
        };
        let flag: Flags = match from_field::<Flags>(record, 1) {
            Ok(t) => t,
            Err(e) => {
                return Err(e);
            },
        };
        let merged: Flags = match self.0.get(&id.0) {
            Some(prev) => Flags(prev.0 | flag.0),
            None => flag,
        };
        self.0.insert(id.0, merged);
        Ok(())
    }
}


/// Applying two flag records in either order yields the same
/// accumulated flags for every key: per-key accumulation is a
/// commutative bitwise OR, so row order does not matter.
pub proof fn lemma_flag_rows_commute(state: Map<u16, Flags>, r1: RecordView, r2: RecordView)
    requires
        <FlagTable as FromCsvIncremental>::spec_load(state, r1).1 is None,
        <FlagTable as FromCsvIncremental>::spec_load(state, r2).1 is None,
    ensures
        <FlagTable as FromCsvIncremental>::spec_load(
            <FlagTable as FromCsvIncremental>::spec_load(state, r1).0,
            r2,
        ).0 =~= <FlagTable as FromCsvIncremental>::spec_load(
            <FlagTable as FromCsvIncremental>::spec_load(state, r2).0,
            r1,
        ).0,
{
    let id1 = spec_from_field::<ItemId>(r1, 0)->Ok_0;
    let f1 = spec_from_field::<Flags>(r1, 1)->Ok_0;
    let id2 = spec_from_field::<ItemId>(r2, 0)->Ok_0;
    let f2 = spec_from_field::<Flags>(r2, 1)->Ok_0;
    let a: u8 = f1.0;
    let b: u8 = f2.0;
    if id1.0 == id2.0 {
        if state.contains_key(id1.0) {
            let s0: u8 = state[id1.0].0;
            assert((s0 | a) | b == (s0 | b) | a) by (bit_vector);
        } else {
            assert(a | b == b | a) by (bit_vector);
        }
    }
}

} // verus!
