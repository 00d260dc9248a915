//! Move metadata: categories, stat changes, and assembled records.

use vstd::prelude::*;
use std::collections::HashMap;
use crate::csv::{Error, FromCsvIncremental, Record, RecordView, VeekunError};
use crate::enums::Enum;
use crate::moves::MoveId;
use crate::moves::ailments::Ailment;
use crate::moves::flags::{FlagTable, Flags};
use crate::natures::Stat;
use crate::repr::{
    spec_from_field,
    spec_from_veekun_option_field,
    from_field,
    from_veekun_option_field,
    FromVeekun,
    VeekunOption,
};

verus! {

broadcast use vstd::std_specs::hash::group_hash_axioms;

/// Broad move category.
#[derive(Clone, Copy, Debug, PartialEq, Eq, Structural, Hash)]
pub enum Category {
    Damage,
    Ailment,
    NetGoodStats,
    Heal,
    DamageAilment,
    Swagger,
    DamageLower,
    DamageRaise,
    DamageHeal,
    OneHitKO,
    WholeFieldEffect,
    FieldEffect,
    ForceSwitch,
    Unique,
}

impl Enum for Category {
    open spec fn spec_values() -> Seq<Category> {
        let s = Seq::<Category>::empty();
        let s = s.push(Category::Damage);
        let s = s.push(Category::Ailment);
        let s = s.push(Category::NetGoodStats);
        let s = s.push(Category::Heal);
        let s = s.push(Category::DamageAilment);
        let s = s.push(Category::Swagger);
        let s = s.push(Category::DamageLower);
        let s = s.push(Category::DamageRaise);
        let s = s.push(Category::DamageHeal);
        let s = s.push(Category::OneHitKO);
        let s = s.push(Category::WholeFieldEffect);
        let s = s.push(Category::FieldEffect);
        let s = s.push(Category::ForceSwitch);
        let s = s.push(Category::Unique);
        s
    }

    fn values() -> (v: Vec<Category>) {
        let mut v: Vec<Category> = Vec::new();
        v.push(Category::Damage);
        v.push(Category::Ailment);
        v.push(Category::NetGoodStats);
        v.push(Category::Heal);
        v.push(Category::DamageAilment);
        v.push(Category::Swagger);
        v.push(Category::DamageLower);
        v.push(Category::DamageRaise);
        v.push(Category::DamageHeal);
        v.push(Category::OneHitKO);
        v.push(Category::WholeFieldEffect);
        v.push(Category::FieldEffect);
        v.push(Category::ForceSwitch);
        v.push(Category::Unique);
        v
    }
    open spec fn spec_repr(self) -> i32 {
        match self {
            Category::Damage => 0,
            Category::Ailment => 1,
            Category::NetGoodStats => 2,
            Category::Heal => 3,
            Category::DamageAilment => 4,
            Category::Swagger => 5,
            Category::DamageLower => 6,
            Category::DamageRaise => 7,
            Category::DamageHeal => 8,
            Category::OneHitKO => 9,
            Category::WholeFieldEffect => 10,
            Category::FieldEffect => 11,
            Category::ForceSwitch => 12,
            Category::Unique => 13,
        }
    }

    open spec fn spec_from_repr(code: i32) -> Option<Category> {
        match code {
            0 => Some(Category::Damage),
            1 => Some(Category::Ailment),
            2 => Some(Category::NetGoodStats),
            3 => Some(Category::Heal),
            4 => Some(Category::DamageAilment),
            5 => Some(Category::Swagger),
            6 => Some(Category::DamageLower),
            7 => Some(Category::DamageRaise),
            8 => Some(Category::DamageHeal),
            9 => Some(Category::OneHitKO),
            10 => Some(Category::WholeFieldEffect),
            11 => Some(Category::FieldEffect),
            12 => Some(Category::ForceSwitch),
            13 => Some(Category::Unique),
            _ => None,
        }
    }

    open spec fn spec_count() -> int {
        14
    }

    fn repr(self) -> (c: i32) {
        match self {
            Category::Damage => 0,
            Category::Ailment => 1,
            Category::NetGoodStats => 2,
            Category::Heal => 3,
            Category::DamageAilment => 4,
            Category::Swagger => 5,
            Category::DamageLower => 6,
            Category::DamageRaise => 7,
            Category::DamageHeal => 8,
            Category::OneHitKO => 9,
            Category::WholeFieldEffect => 10,
            Category::FieldEffect => 11,
            Category::ForceSwitch => 12,
            Category::Unique => 13,
        }
    }

    fn from_repr(code: i32) -> (r: Option<Category>) {
        match code {
            0 => Some(Category::Damage),
            1 => Some(Category::Ailment),
            2 => Some(Category::NetGoodStats),
            3 => Some(Category::Heal),
            4 => Some(Category::DamageAilment),
            5 => Some(Category::Swagger),
            6 => Some(Category::DamageLower),
            7 => Some(Category::DamageRaise),
            8 => Some(Category::DamageHeal),
            9 => Some(Category::OneHitKO),
            10 => Some(Category::WholeFieldEffect),
            11 => Some(Category::FieldEffect),
            12 => Some(Category::ForceSwitch),
            13 => Some(Category::Unique),
            _ => None,
        }
    }

    fn count() -> (n: usize) {
        14
    }

    proof fn lemma_values_count() {
    }

    proof fn lemma_round_trip(self) {
    }
}

impl Default for Category {
    fn default() -> (r: Self)
        ensures
            r == Category::Unique,
    {
        Category::Unique
    }
}

impl FromVeekun for Category {
    type Intermediate = u8;

    open spec fn spec_from_veekun(value: u8) -> Option<Self> {
        Self::spec_from_repr(value as i32)
    }

    fn from_veekun(value: u8) -> (r: Option<Self>) {
        Self::from_repr(value as i32)
    }
}

/// The number of stats directly changeable by moves (all but HP).
pub const CHANGEABLE_STATS: usize = 7;

/// Per-stat change amounts for the stats a move can change.
#[derive(Clone, Copy, Debug, PartialEq, Eq, Structural)]
pub struct StatChanges {
    pub attack: i8,
    pub defense: i8,
    pub speed: i8,
    pub special_attack: i8,
    pub special_defense: i8,
    pub accuracy: i8,
    pub evasion: i8,
}

impl StatChanges {
    /// No stat changed.
    pub open spec fn spec_zero() -> StatChanges {
        StatChanges {
            attack: 0,
            defense: 0,
            speed: 0,
            special_attack: 0,
            special_defense: 0,
            accuracy: 0,
            evasion: 0,
        }
    }

    /// One changeable stat's amount replaced.
    pub open spec fn spec_with(self, stat: Stat, change: i8) -> StatChanges {
        match stat {
            Stat::HP => self,
            Stat::Attack => StatChanges { attack: change, ..self },
            Stat::Defense => StatChanges { defense: change, ..self },
            Stat::Speed => StatChanges { speed: change, ..self },
            Stat::SpecialAttack => StatChanges { special_attack: change, ..self },
            Stat::SpecialDefense => StatChanges { special_defense: change, ..self },
            Stat::Accuracy => StatChanges { accuracy: change, ..self },
            Stat::Evasion => StatChanges { evasion: change, ..self },
        }
    }

    /// Replace one changeable stat's amount.
    pub fn set(&mut self, stat: Stat, change: i8)
        requires
            stat != Stat::HP,
        ensures
            *final(self) == old(self).spec_with(stat, change),
    {
        match stat {
            Stat::HP => {},
            Stat::Attack => {
                self.attack = change;
            },
            Stat::Defense => {
                self.defense = change;
            },
            Stat::Speed => {
                self.speed = change;
            },
            Stat::SpecialAttack => {
                self.special_attack = change;
            },
            Stat::SpecialDefense => {
                self.special_defense = change;
            },
            Stat::Accuracy => {
                self.accuracy = change;
            },
            Stat::Evasion => {
                self.evasion = change;
            },
        }
    }
}

impl Default for StatChanges {
    fn default() -> (r: Self)
        ensures
            r == StatChanges::spec_zero(),
    {
        StatChanges {
            attack: 0,
            defense: 0,
            speed: 0,
            special_attack: 0,
            special_defense: 0,
            accuracy: 0,
            evasion: 0,
        }
    }
}

/// The mathematical content of a stat change table.
#[verifier::ext_equal]
pub struct StatChangeTableView {
    pub changes: Map<u16, StatChanges>,
    pub ids: Seq<u16>,
}

/// Per-move stat changes assembled from repeated rows, each row filling
/// in one stat; `ids` remembers every key once, in first-insertion
/// order.
pub struct StatChangeTable {
    pub map: HashMap<u16, StatChanges>,
    pub ids: Vec<u16>,
}

impl View for StatChangeTable {
    type V = StatChangeTableView;

    open spec fn view(&self) -> StatChangeTableView {
        StatChangeTableView { changes: self.map@, ids: self.ids@ }
    }
}

impl StatChangeTable {
    /// The key list names exactly the keys of the map, each once, and
    /// every key is a dense move index.
    pub open spec fn spec_wf(v: StatChangeTableView) -> bool {
        v.ids.no_duplicates() && (forall|k: u16| #[trigger]
            v.changes.contains_key(k) <==> v.ids.contains(k)) && (forall|k: u16| #[trigger]
            v.changes.contains_key(k) ==> k < 559)
    }

    /// A fresh table maps no key.
    pub fn new() -> (r: Self)
        ensures
            r@ == Self::spec_empty(),
            Self::spec_wf(r@),
    {
        Self::from_empty_csv()
    }
}

impl FromCsvIncremental for StatChangeTable {
    open spec fn spec_empty() -> StatChangeTableView {
        StatChangeTableView { changes: Map::empty(), ids: Seq::empty() }
    }

    open spec fn wf_state(v: StatChangeTableView) -> bool {
        Self::spec_wf(v)
    }

    open spec fn spec_load(state: StatChangeTableView, rec: RecordView) -> (StatChangeTableView,
        Option<Error>,
    ) {
        match spec_from_field::<u16>(rec, 0) {
            Err(e) => (state, Some(e)),
            Ok(raw) => {
                if raw >= 10001 {
                    (state, None)
                } else {
                    match MoveId::spec_from_veekun(raw) {
                        None => (
                            state,
                            Some(
                                Error::Veekun {
                                    line: rec.line,
                                    field: 0,
                                    error: VeekunError::Value(raw as i64),
                                },
                            ),
                        ),
                        Some(id) => match spec_from_field::<u8>(rec, 1) {
                            Err(e) => (state, Some(e)),
                            Ok(raw_stat) => match Stat::spec_from_veekun(raw_stat) {
                                None => (
                                    state,
                                    Some(
                                        Error::Veekun {
                                            line: rec.line,
                                            field: 1,
                                            error: VeekunError::Value(raw_stat as i64),
                                        },
                                    ),
                                ),
                                Some(Stat::HP) => (
                                    state,
                                    Some(
                                        Error::Veekun {
                                            line: rec.line,
                                            field: 1,
                                            error: VeekunError::Value(raw_stat as i64),
                                        },
                                    ),
                                ),
                                Some(stat) => match spec_from_field::<i8>(rec, 2) {
                                    Err(e) => (state, Some(e)),
                                    Ok(change) => {
                                        let base = if state.changes.contains_key(id.0) {
                                            state.changes[id.0]
                                        } else {
                                            StatChanges::spec_zero()
                                        };
                                        let ids = if state.changes.contains_key(id.0) {
                                            state.ids
                                        } else {
                                            state.ids.push(id.0)
                                        };
                                        (
                                            StatChangeTableView {
                                                changes: state.changes.insert(
                                                    id.0,
                                                    base.spec_with(stat, change),
                                                ),
                                                ids,
                                            },
                                            None,
                                        )
                                    },
                                },
                            },
                        },
                    }
                }
            },
        }
    }

    fn from_empty_csv() -> (r: Self) {
        let r = StatChangeTable { map: HashMap::new(), ids: Vec::new() };
        proof {
            assert(r@.changes =~= Map::<u16, StatChanges>::empty());
        }
        r
    }

    fn load_csv_record(&mut self, record: &Record) -> (r: Result<(), Error>) {
        let raw: u16 = match from_field::<u16>(record, 0) {
            Ok(t) => t,
            Err(e) => {
                return Err(e);
            },
        };
        if raw >= 10001 {
            return Ok(());
        }
        let id: MoveId = match MoveId::from_veekun(raw) {
            Some(id) => id,
            None => {
                return Err(
                    Error::Veekun {
                        line: record.line,
                        field: 0,
                        error: VeekunError::Value(raw as i64),
                    },
                );
            },
        };
        let raw_stat: u8 = match from_field::<u8>(record, 1) {
            Ok(t) => t,
            Err(e) => {
                return Err(e);
            },
        };
        let stat: Stat = match Stat::from_veekun(raw_stat) {
            Some(Stat::HP) | None => {
                return Err(
                    Error::Veekun {
                        line: record.line,
                        field: 1,
                        error: VeekunError::Value(raw_stat as i64),
                    },
                );
            },
            Some(stat) => stat,
        };
        let change: i8 = match from_field::<i8>(record, 2) {
            Ok(t) => t,
            Err(e) => {
                return Err(e);
            },
        };
        let mut base: StatChanges = match self.map.get(&id.0) {
            Some(c) => *c,
            None => StatChanges::default(),
        };
        base.set(stat, change);
        if !self.map.contains_key(&id.0) {
            self.ids.push(id.0);
        }
        self.map.insert(id.0, base);
        proof {
            let prev = old(self)@;
            assert forall|k: u16| #[trigger]
                self@.changes.contains_key(k) <==> self@.ids.contains(k) by {
                if k != id.0 {
                    if self@.ids.contains(k) {
                        let j = choose|j: int| 0 <= j < self@.ids.len() && self@.ids[j] == k;
                        if j < prev.ids.len() {
                            assert(prev.ids[j] == k);
                        }
                    }
                    if prev.ids.contains(k) {
                        let j = choose|j: int| 0 <= j < prev.ids.len() && prev.ids[j] == k;
                        assert(self@.ids[j] == k);
                    }
                } else {
                    if !prev.changes.contains_key(id.0) {
                        assert(self@.ids.last() == id.0);
                    } else {
                        assert(prev.ids.contains(k));
                        let j = choose|j: int| 0 <= j < prev.ids.len() && prev.ids[j] == k;
                        assert(self@.ids[j] == k);
                    }
                }
            }
            assert(self@.ids.no_duplicates()) by {
                if !prev.changes.contains_key(id.0) {
                    assert(!prev.ids.contains(id.0));
                }
            }
        }
        Ok(())
    }
}

/// Move data deemed "meta".
#[derive(Clone, Copy, Debug, PartialEq, Eq)]
pub struct Meta {
    /// The move category.
    pub category: Category,
    /// The status ailment caused by the move.
    pub ailment: Ailment,
    /// If the move hits multiple times in one turn, the inclusive range
    /// for the number of hits.
    pub hits: Option<(u8, u8)>,
    /// If the move has an effect over several turns, the inclusive
    /// range for the number of turns.
    pub turns: Option<(u8, u8)>,
    /// The percent of damage absorbed (positive) or recoiled
    /// (negative).
    pub recoil: i8,
    /// The percent of max HP recovered (positive) or lost (negative).
    pub healing: i8,
    /// The increase of the critical rate when using the move.
    pub critical_rate: i8,
    /// The chance the move has of inflicting its ailment if it hits.
    pub ailment_chance: u8,
    /// The chance the move has of causing the target to flinch.
    pub flinch_chance: u8,
    /// The chance the move has of changing stats.
    pub stat_chance: u8,
    /// The changes the move can make to stats.
    pub stat_changes: StatChanges,
    /// Move bitflags.
    pub flags: Flags,
}

impl Meta {
    /// The meta record with every field at its default.
    pub open spec fn spec_default() -> Meta {
        Meta {
            category: Category::Unique,
            ailment: Ailment::Unknown,
            hits: None,
            turns: None,
            recoil: 0,
            healing: 0,
            critical_rate: 0,
            ailment_chance: 0,
            flinch_chance: 0,
            stat_chance: 0,
            stat_changes: StatChanges::spec_zero(),
            flags: Flags(0),
        }
    }
}

impl Default for Meta {
    fn default() -> (r: Self)
        ensures
            r == Meta::spec_default(),
    {
        Meta {
            category: Category::Unique,
            ailment: Ailment::Unknown,
            hits: None,
            turns: None,
            recoil: 0,
            healing: 0,
            critical_rate: 0,
            ailment_chance: 0,
            flinch_chance: 0,
            stat_chance: 0,
            stat_changes: StatChanges {
                attack: 0,
                defense: 0,
                speed: 0,
                special_attack: 0,
                special_defense: 0,
                accuracy: 0,
                evasion: 0,
            },
            flags: Flags(0),
        }
    }
}

/// The dense table of per-move meta records, one slot per move.
pub struct MetaTable(pub Vec<Meta>);

impl View for MetaTable {
    type V = Seq<Meta>;

    open spec fn view(&self) -> Seq<Meta> {
        self.0@
    }
}

impl MetaTable {
    /// A dense meta table has exactly one slot per move.
    pub open spec fn spec_wf(v: Seq<Meta>) -> bool {
        v.len() == 559
    }

    /// Every slot of a fresh table holds the default meta record.
    pub fn new() -> (r: Self)
        ensures
            r@ == Self::spec_empty(),
            Self::spec_wf(r@),
    {
        Self::from_empty_csv()
    }

    /// The meta record of a move; in-range indexing never fails.
    pub fn get(&self, id: MoveId) -> (r: Meta)
        requires
            Self::spec_wf(self@),
            id.0 < 559,
        ensures
            r == self@[id.0 as int],
    {
        self.0[id.0 as usize]
    }

    /// Give every move the flags accumulated for it; moves no row
    /// contributed to keep the flags they had.
    pub fn set_flags(&mut self, flags: &FlagTable)
        requires
            Self::spec_wf(old(self)@),
            FlagTable::spec_wf(flags@),
        ensures
            Self::spec_wf(final(self)@),
            forall|i: int|
                0 <= i < 559 ==> final(self)@[i] == (Meta {
                    flags: if flags@.flags.contains_key(i as u16) {
                        flags@.flags[i as u16]
                    } else {
                        old(self)@[i].flags
                    },
                    ..old(self)@[i]
                }),
    {
        let ghost orig = self@;
        let n: usize = flags.ids.len();
        let mut i: usize = 0;
        proof {
            assert forall|j: int| 0 <= j < flags@.ids.len() implies flags@.ids[j] < 559 by {
                assert(flags@.ids.contains(flags@.ids[j]));
                assert(flags@.flags.contains_key(flags@.ids[j]));
            }
        }
        while i < n
            invariant
                Self::spec_wf(self@),
                FlagTable::spec_wf(flags@),
                n == flags@.ids.len(),
                i <= n,
                orig == old(self)@,
                orig.len() == 559,
                forall|j: int| 0 <= j < n ==> flags@.ids[j] < 559,
                forall|j: int|
                    0 <= j < i ==> self@[flags@.ids[j] as int] == (Meta {
                        flags: flags@.flags[flags@.ids[j]],
                        ..orig[flags@.ids[j] as int]
                    }),
                forall|k: int|
                    0 <= k < 559 && !flags@.ids.take(i as int).contains(k as u16) ==> self@[k]
                        == orig[k],
            decreases n - i,
        {
            let key: u16 = flags.ids[i];
            proof {
                assert(flags@.ids.contains(key));
                assert(flags@.flags.contains_key(key));
            }
            proof {
                assert(!flags@.ids.take(i as int).contains(key)) by {
                    if flags@.ids.take(i as int).contains(key) {
                        let j = choose|j: int|
                            0 <= j < i && flags@.ids.take(i as int)[j] == key;
                        assert(flags@.ids[j] == key);
                        assert(flags@.ids[i as int] == key);
                        assert(flags@.ids.no_duplicates());
                    }
                }
                assert(self@[key as int] == orig[key as int]);
            }
            let f: Flags = match flags.map.get(&key) {
                Some(f) => *f,
                None => Flags(0),
            };
            let slot = self.0[key as usize];
            self.0.set(
                key as usize,
                Meta {
                    category: slot.category,
                    ailment: slot.ailment,
                    hits: slot.hits,
                    turns: slot.turns,
                    recoil: slot.recoil,
                    healing: slot.healing,
                    critical_rate: slot.critical_rate,
                    ailment_chance: slot.ailment_chance,
                    flinch_chance: slot.flinch_chance,
                    stat_chance: slot.stat_chance,
                    stat_changes: slot.stat_changes,
                    flags: f,
                },
            );
            proof {
                assert forall|j: int| 0 <= j < i + 1 implies self@[flags@.ids[j] as int]
                    == (Meta { flags: flags@.flags[flags@.ids[j]], ..orig[flags@.ids[j] as int] })
                    by {
                    if j < i {
                        assert(flags@.ids[j] != key) by {
                            assert(flags@.ids.no_duplicates());
                        }
                    } else {
                        assert(self@[key as int] == (Meta {
                            flags: flags@.flags[key],
                            ..orig[key as int]
                        }));
                    }
                }
                assert forall|k: int|
                    0 <= k < 559 && !flags@.ids.take(i as int + 1).contains(k as u16)
                    implies (self@[k] == orig[k]) by {
                    assert(k != key as int) by {
                        assert(flags@.ids.take(i as int + 1)[i as int] == key);
                    }
                    assert(!flags@.ids.take(i as int).contains(k as u16)) by {
                        if flags@.ids.take(i as int).contains(k as u16) {
                            let j = choose|j: int|
                                0 <= j < i && flags@.ids.take(i as int)[j] == k as u16;
                            assert(flags@.ids.take(i as int + 1)[j] == k as u16);
                        }
                    }
                }
            }
            i = i + 1;
        }
        proof {
            assert forall|i2: int| 0 <= i2 < 559 implies self@[i2] == (Meta {
                flags: if flags@.flags.contains_key(i2 as u16) {
                    flags@.flags[i2 as u16]
                } else {
                    orig[i2].flags
                },
                ..orig[i2]
            }) by {
                if flags@.flags.contains_key(i2 as u16) {
                    assert(flags@.ids.contains(i2 as u16));
                    let j = choose|j: int|
                        0 <= j < flags@.ids.len() && flags@.ids[j] == i2 as u16;
                } else {
                    assert(!flags@.ids.take(n as int).contains(i2 as u16)) by {
                        if flags@.ids.take(n as int).contains(i2 as u16) {
                            let j = choose|j: int|
                                0 <= j < n && flags@.ids.take(n as int)[j] == i2 as u16;
                            assert(flags@.ids.contains(i2 as u16));
                        }
                    }
                    assert(self@[i2] == orig[i2]);
                }
            }
        }
    }

    /// Give every move the stat changes assembled for it; moves no row
    /// contributed to keep the changes they had.
    pub fn set_stat_changes(&mut self, changes: &StatChangeTable)
        requires
            Self::spec_wf(old(self)@),
            StatChangeTable::spec_wf(changes@),
        ensures
            Self::spec_wf(final(self)@),
            forall|i: int|
                0 <= i < 559 ==> final(self)@[i] == (Meta {
                    stat_changes: if changes@.changes.contains_key(i as u16) {
                        changes@.changes[i as u16]
                    } else {
                        old(self)@[i].stat_changes
                    },
                    ..old(self)@[i]
                }),
    {
        let ghost orig = self@;
        let n: usize = changes.ids.len();
        let mut i: usize = 0;
        proof {
            assert forall|j: int| 0 <= j < changes@.ids.len() implies changes@.ids[j] < 559 by {
                assert(changes@.ids.contains(changes@.ids[j]));
                assert(changes@.changes.contains_key(changes@.ids[j]));
            }
        }
        while i < n
            invariant
                Self::spec_wf(self@),
                StatChangeTable::spec_wf(changes@),
                n == changes@.ids.len(),
                i <= n,
                orig == old(self)@,
                orig.len() == 559,
                forall|j: int| 0 <= j < n ==> changes@.ids[j] < 559,
                forall|j: int|
                    0 <= j < i ==> self@[changes@.ids[j] as int] == (Meta {
                        stat_changes: changes@.changes[changes@.ids[j]],
                        ..orig[changes@.ids[j] as int]
                    }),
                forall|k: int|
                    0 <= k < 559 && !changes@.ids.take(i as int).contains(k as u16) ==> self@[k]
                        == orig[k],
            decreases n - i,
        {
            let key: u16 = changes.ids[i];
            proof {
                assert(changes@.ids.contains(key));
                assert(changes@.changes.contains_key(key));
            }
            proof {
                assert(!changes@.ids.take(i as int).contains(key)) by {
                    if changes@.ids.take(i as int).contains(key) {
                        let j = choose|j: int|
                            0 <= j < i && changes@.ids.take(i as int)[j] == key;
                        assert(changes@.ids[j] == key);
                        assert(changes@.ids[i as int] == key);
                        assert(changes@.ids.no_duplicates());
                    }
                }
                assert(self@[key as int] == orig[key as int]);
            }
            let c: StatChanges = match changes.map.get(&key) {
                Some(c) => *c,
                None => StatChanges::default(),
            };
            let slot = self.0[key as usize];
            self.0.set(
                key as usize,
                Meta {
                    category: slot.category,
                    ailment: slot.ailment,
                    hits: slot.hits,
                    turns: slot.turns,
                    recoil: slot.recoil,
                    healing: slot.healing,
                    critical_rate: slot.critical_rate,
                    ailment_chance: slot.ailment_chance,
                    flinch_chance: slot.flinch_chance,
                    stat_chance: slot.stat_chance,
                    stat_changes: c,
                    flags: slot.flags,
                },
            );
            proof {
                assert forall|j: int| 0 <= j < i + 1 implies self@[changes@.ids[j] as int]
                    == (Meta {
                    stat_changes: changes@.changes[changes@.ids[j]],
                    ..orig[changes@.ids[j] as int]
                }) by {
                    if j < i {
                        assert(changes@.ids[j] != key) by {
                            assert(changes@.ids.no_duplicates());
                        }
                    } else {
                        assert(self@[key as int] == (Meta {
                            stat_changes: changes@.changes[key],
                            ..orig[key as int]
                        }));
                    }
                }
                assert forall|k: int|
                    0 <= k < 559 && !changes@.ids.take(i as int + 1).contains(k as u16)
                    implies self@[k] == orig[k] by {
                    assert(k != key as int) by {
                        assert(changes@.ids.take(i as int + 1)[i as int] == key);
                    }
                    assert(!changes@.ids.take(i as int).contains(k as u16)) by {
                        if changes@.ids.take(i as int).contains(k as u16) {
                            let j = choose|j: int|
                                0 <= j < i && changes@.ids.take(i as int)[j] == k as u16;
                            assert(changes@.ids.take(i as int + 1)[j] == k as u16);
                        }
                    }
                }
            }
            i = i + 1;
        }
        proof {
            assert forall|i2: int| 0 <= i2 < 559 implies self@[i2] == (Meta {
                stat_changes: if changes@.changes.contains_key(i2 as u16) {
                    changes@.changes[i2 as u16]
                } else {
                    orig[i2].stat_changes
                },
                ..orig[i2]
            }) by {
                if changes@.changes.contains_key(i2 as u16) {
                    assert(changes@.ids.contains(i2 as u16));
                    let j = choose|j: int|
                        0 <= j < changes@.ids.len() && changes@.ids[j] == i2 as u16;
                } else {
                    assert(!changes@.ids.take(n as int).contains(i2 as u16)) by {
                        if changes@.ids.take(n as int).contains(i2 as u16) {
                            let j = choose|j: int|
                                0 <= j < n && changes@.ids.take(n as int)[j] == i2 as u16;
                            assert(changes@.ids.contains(i2 as u16));
                        }
                    }
                    assert(self@[i2] == orig[i2]);
                }
            }
        }
    }
}

impl FromCsvIncremental for MetaTable {
    open spec fn spec_empty() -> Seq<Meta> {
        Seq::new(559, |i: int| Meta::spec_default())
    }

    open spec fn wf_state(v: Seq<Meta>) -> bool {
        Self::spec_wf(v)
    }

    open spec fn spec_load(state: Seq<Meta>, rec: RecordView) -> (Seq<Meta>, Option<Error>) {
        match spec_from_field::<u16>(rec, 0) {
            Err(e) => (state, Some(e)),
            Ok(raw) => {
                if raw >= 10001 {
                    (state, None)
                } else {
                    match MoveId::spec_from_veekun(raw) {
                        None => (
                            state,
                            Some(
                                Error::Veekun {
                                    line: rec.line,
                                    field: 0,
                                    error: VeekunError::Value(raw as i64),
                                },
                            ),
                        ),
                        Some(id) => match spec_from_veekun_option_field::<u8>(rec, 3) {
                            Err(e) => (state, Some(e)),
                            Ok(min_hits) => match spec_from_veekun_option_field::<u8>(rec, 4) {
                                Err(e) => (state, Some(e)),
                                Ok(max_hits) => match spec_from_veekun_option_field::<u8>(
                                    rec,
                                    5,
                                ) {
                                    Err(e) => (state, Some(e)),
                                    Ok(min_turns) => match spec_from_veekun_option_field::<u8>(
                                        rec,
                                        6,
                                    ) {
                                        Err(e) => (state, Some(e)),
                                        Ok(max_turns) => match spec_from_field::<Category>(
                                            rec,
                                            1,
                                        ) {
                                            Err(e) => (state, Some(e)),
                                            Ok(category) => match spec_from_field::<Ailment>(
                                                rec,
                                                2,
                                            ) {
                                                Err(e) => (state, Some(e)),
                                                Ok(ailment) => match spec_from_field::<i8>(
                                                    rec,
                                                    7,
                                                ) {
                                                    Err(e) => (state, Some(e)),
                                                    Ok(recoil) => match spec_from_field::<i8>(
                                                        rec,
                                                        8,
                                                    ) {
                                                        Err(e) => (state, Some(e)),
                                                        Ok(healing) => match spec_from_field::<
                                                            i8,
                                                        >(rec, 9) {
                                                            Err(e) => (state, Some(e)),
                                                            Ok(critical_rate) => match spec_from_field::<
                                                                u8,
                                                            >(rec, 10) {
                                                                Err(e) => (state, Some(e)),
                                                                Ok(ailment_chance) => match spec_from_field::<
                                                                    u8,
                                                                >(rec, 11) {
                                                                    Err(e) => (state, Some(e)),
                                                                    Ok(flinch_chance) => match spec_from_field::<
                                                                        u8,
                                                                    >(rec, 12) {
                                                                        Err(e) => (
                                                                            state,
                                                                            Some(e),
                                                                        ),
                                                                        Ok(stat_chance) => {
                                                                            let hits = match min_hits.0 {
                                                                                Some(mn) => match max_hits.0 {
                                                                                    Some(mx) => Some(
                                                                                        (mn, mx),
                                                                                    ),
                                                                                    None => None,
                                                                                },
                                                                                None => None,
                                                                            };
                                                                            let turns = match min_turns.0 {
                                                                                Some(mn) => match max_turns.0 {
                                                                                    Some(mx) => Some(
                                                                                        (mn, mx),
                                                                                    ),
                                                                                    None => None,
                                                                                },
                                                                                None => None,
                                                                            };
                                                                            (
                                                                                state.update(
                                                                                    id.0 as int,
                                                                                    Meta {
                                                                                        category,
                                                                                        ailment,
                                                                                        hits,
                                                                                        turns,
                                                                                        recoil,
                                                                                        healing,
                                                                                        critical_rate,
                                                                                        ailment_chance,
                                                                                        flinch_chance,
                                                                                        stat_chance,
                                                                                        stat_changes: StatChanges::spec_zero(),
                                                                                        flags: Flags(
                                                                                            0,
                                                                                        ),
                                                                                    },
                                                                                ),
                                                                                None,
                                                                            )
                                                                        },
                                                                    },
                                                                },
                                                            },
                                                        },
                                                    },
                                                },
                                            },
                                        },
                                    },
                                },
                            },
                        },
                    }
                }
            },
        }
    }

    fn from_empty_csv() -> (r: Self) {
        let mut v: Vec<Meta> = Vec::new();
        let mut i: usize = 0;
        while i < 559
            invariant
                i <= 559,
                v@.len() == i,
                forall|j: int| 0 <= j < i ==> v@[j] == Meta::spec_default(),
            decreases 559 - i,
        {
            v.push(Meta::default());
            i = i + 1;
        }
        proof {
            assert(v@ =~= Self::spec_empty());
        }
        MetaTable(v)
    }

    fn load_csv_record(&mut self, record: &Record) -> (r: Result<(), Error>) {
        let raw: u16 = match from_field::<u16>(record, 0) {
            Ok(t) => t,
            Err(e) => {
                return Err(e);
            },
        };
        if raw >= 10001 {
            return Ok(());
        }
        let id: MoveId = match MoveId::from_veekun(raw) {
            Some(id) => id,
            None => {
                return Err(
                    Error::Veekun {
                        line: record.line,
                        field: 0,
                        error: VeekunError::Value(raw as i64),
                    },
                );
            },
        };
        let min_hits: VeekunOption<u8> = match from_veekun_option_field::<u8>(record, 3) {
            Ok(t) => t,
            Err(e) => {
                return Err(e);
            },
        };
        let max_hits: VeekunOption<u8> = match from_veekun_option_field::<u8>(record, 4) {
            Ok(t) => t,
            Err(e) => {
                return Err(e);
            },
        };
        let min_turns: VeekunOption<u8> = match from_veekun_option_field::<u8>(record, 5) {
            Ok(t) => t,
            Err(e) => {
                return Err(e);
            },
        };
        let max_turns: VeekunOption<u8> = match from_veekun_option_field::<u8>(record, 6) {
            Ok(t) => t,
            Err(e) => {
                return Err(e);
            },
        };
        let category: Category = match from_field::<Category>(record, 1) {
            Ok(t) => t,
            Err(e) => {
                return Err(e);
            },
        };
        let ailment: Ailment = match from_field::<Ailment>(record, 2) {
            Ok(t) => t,
            Err(e) => {
                return Err(e);
            },
        };
        let recoil: i8 = match from_field::<i8>(record, 7) {
            Ok(t) => t,
            Err(e) => {
                return Err(e);
            },
        };
        let healing: i8 = match from_field::<i8>(record, 8) {
            Ok(t) => t,
            Err(e) => {
                return Err(e);
            },
        };
        let critical_rate: i8 = match from_field::<i8>(record, 9) {
            Ok(t) => t,
            Err(e) => {
                return Err(e);
            },
        };
        let ailment_chance: u8 = match from_field::<u8>(record, 10) {
            Ok(t) => t,
            Err(e) => {
                return Err(e);
            },
        };
        let flinch_chance: u8 = match from_field::<u8>(record, 11) {
            Ok(t) => t,
            Err(e) => {
                return Err(e);
            },
        };
        let stat_chance: u8 = match from_field::<u8>(record, 12) {
            Ok(t) => t,
            Err(e) => {
                return Err(e);
            },
        };
        let hits: Option<(u8, u8)> = match min_hits.0 {
            Some(mn) => match max_hits.0 {
                Some(mx) => Some((mn, mx)),
                None => None,
            },
            None => None,
        };
        let turns: Option<(u8, u8)> = match min_turns.0 {
            Some(mn) => match max_turns.0 {
                Some(mx) => Some((mn, mx)),
                None => None,
            },
            None => None,
        };
        self.0.set(
            id.0 as usize,
            Meta {
                category,
                ailment,
                hits,
                turns,
                recoil,
                healing,
                critical_rate,
                ailment_chance,
                flinch_chance,
                stat_chance,
                stat_changes: StatChanges::default(),
                flags: Flags(0),
            },
        );
        Ok(())
    }
}

} // verus!
