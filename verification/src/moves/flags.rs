//! Miscellaneous bitflags for moves.

use vstd::prelude::*;
use std::collections::HashMap;
use crate::csv::{Error, FromCsvIncremental, Record, RecordView};
use crate::moves::MoveId;
use crate::repr::{spec_from_field, from_field, FromVeekun};

verus! {

broadcast use vstd::std_specs::hash::group_hash_axioms;

/// Miscellaneous bitflags for moves, one bit per property.
#[derive(Clone, Copy, Debug, PartialEq, Eq, Structural)]
pub struct Flags(pub u16);

impl Flags {
    /// No flags set.
    pub fn empty() -> (r: Flags)
        ensures
            r.0 == 0,
    {
        Flags(0)
    }

    /// The union of two flag sets.
    pub fn union(self, other: Flags) -> (r: Flags)
        ensures
            r.0 == self.0 | other.0,
    {
        Flags(self.0 | other.0)
    }

    /// True if every flag of `other` is set in `self`.
    pub fn contains(self, other: Flags) -> (r: bool)
        ensures
            r == (self.0 & other.0 == other.0),
    {
        self.0 & other.0 == other.0
    }
}

impl Default for Flags {
    fn default() -> (r: Self)
        ensures
            r.0 == 0,
    {
        Flags(0)
    }
}


impl FromVeekun for Flags {
    type Intermediate = u8;

    open spec fn spec_from_veekun(value: u8) -> Option<Self> {
        if 1 <= value <= 14 {
            Some(Flags(1u16 << ((value - 1) as u16)))
        } else {
            None
        }
    }

    fn from_veekun(value: u8) -> (r: Option<Self>) {
        if 1 <= value && value <= 14 {
            Some(Flags(1u16 << ((value - 1) as u16)))
        } else {
            None
        }
    }
}

/// The mathematical content of a move flag table: accumulated flags by
/// move index, and the indexes in first-insertion order.
#[verifier::ext_equal]
pub struct FlagTableView {
    pub flags: Map<u16, Flags>,
    pub ids: Seq<u16>,
}

/// Per-move flags accumulated from repeated rows by bitwise OR; `ids`
/// remembers every key once, in first-insertion order.
pub struct FlagTable {
    pub map: HashMap<u16, Flags>,
    pub ids: Vec<u16>,
}

impl View for FlagTable {
    type V = FlagTableView;

    open spec fn view(&self) -> FlagTableView {
        FlagTableView { flags: self.map@, ids: self.ids@ }
    }
}

impl FlagTable {
    /// The key list names exactly the keys of the map, each once, and
    /// every key is a dense move index.
    pub open spec fn spec_wf(v: FlagTableView) -> bool {
        v.ids.no_duplicates() && (forall|k: u16| #[trigger]
            v.flags.contains_key(k) <==> v.ids.contains(k)) && (forall|k: u16| #[trigger]
            v.flags.contains_key(k) ==> k < 559)
    }

    /// A fresh table maps no key.
    pub fn new() -> (r: Self)
        ensures
            r@ == Self::spec_empty(),
            Self::spec_wf(r@),
    {
        Self::from_empty_csv()
    }

    /// The accumulated flags for a move, or none if no row contributed.
    pub fn get(&self, id: MoveId) -> (r: Option<Flags>)
        ensures
            r == if self@.flags.contains_key(id.0) {
                Some(self@.flags[id.0])
            } else {
                None::<Flags>
            },
    {
        match self.map.get(&id.0) {
            Some(f) => Some(*f),
            None => None,
        }
    }
}

impl FromCsvIncremental for FlagTable {
    open spec fn spec_empty() -> FlagTableView {
        FlagTableView { flags: Map::empty(), ids: Seq::empty() }
    }

    open spec fn wf_state(v: FlagTableView) -> bool {
        Self::spec_wf(v)
    }

    open spec fn spec_load(state: FlagTableView, rec: RecordView) -> (FlagTableView, Option<
        Error,
    >) {
        match spec_from_field::<u16>(rec, 0) {
            Err(e) => (state, Some(e)),
            Ok(raw) => {
                if raw >= 10001 {
                    (state, None)
                } else {
                    match MoveId::spec_from_veekun(raw) {
                        None => (
                            state,
                            Some(
                                Error::Veekun {
                                    line: rec.line,
                                    field: 0,
                                    error: crate::csv::VeekunError::Value(raw as i64),
                                },
                            ),
                        ),
                        Some(id) => match spec_from_field::<Flags>(rec, 1) {
                            Err(e) => (state, Some(e)),
                            Ok(flag) => {
                                let merged = if state.flags.contains_key(id.0) {
                                    Flags(state.flags[id.0].0 | flag.0)
                                } else {
                                    flag
                                };
                                let ids = if state.flags.contains_key(id.0) {
                                    state.ids
                                } else {
                                    state.ids.push(id.0)
                                };
                                (
                                    FlagTableView { flags: state.flags.insert(id.0, merged), ids },
                                    None,
                                )
                            },
                        },
                    }
                }
            },
        }
    }

    fn from_empty_csv() -> (r: Self) {
        let r = FlagTable { map: HashMap::new(), ids: Vec::new() };
        proof {
            assert(r@.flags =~= Map::<u16, Flags>::empty());
        }
        r
    }

    fn load_csv_record(&mut self, record: &Record) -> (r: Result<(), Error>) {
        let raw: u16 = match from_field::<u16>(record, 0) {
            Ok(t) => t,
            Err(e) => {
                return Err(e);
            },
        };
        if raw >= 10001 {
            return Ok(());
        }
        let id: MoveId = match MoveId::from_veekun(raw) {
            Some(id) => id,
            None => {
                return Err(
                    Error::Veekun {
                        line: record.line,
                        field: 0,
                        error: crate::csv::VeekunError::Value(raw as i64),
                    },
                );
            },
        };
        let flag: Flags = match from_field::<Flags>(record, 1) {
            Ok(t) => t,
            Err(e) => {
                return Err(e);
            },
        };
        let merged: Flags = match self.map.get(&id.0) {
            Some(prev) => Flags(prev.0 | flag.0),
            None => flag,
        };
        if !self.map.contains_key(&id.0) {
            self.ids.push(id.0);
        }
        self.map.insert(id.0, merged);
        proof {
            let prev = old(self)@;
            assert forall|k: u16| #[trigger]
                self@.flags.contains_key(k) <==> self@.ids.contains(k) by {
                if k != id.0 {
                    if self@.ids.contains(k) {
                        let j = choose|j: int| 0 <= j < self@.ids.len() && self@.ids[j] == k;
                        if j < prev.ids.len() {
                            assert(prev.ids[j] == k);
                        }
                    }
                    if prev.ids.contains(k) {
                        let j = choose|j: int| 0 <= j < prev.ids.len() && prev.ids[j] == k;
                        assert(self@.ids[j] == k);
                    }
                } else {
                    if !prev.flags.contains_key(id.0) {
                        assert(self@.ids.last() == id.0);
                    } else {
                        assert(prev.ids.contains(k));
                        let j = choose|j: int| 0 <= j < prev.ids.len() && prev.ids[j] == k;
                        assert(self@.ids[j] == k);
                    }
                }
            }
            assert(self@.ids.no_duplicates()) by {
                if !prev.flags.contains_key(id.0) {
                    assert(!prev.ids.contains(id.0));
                }
            }
        }
        Ok(())
    }
}

} // verus!
