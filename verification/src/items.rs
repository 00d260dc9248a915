//! Items and related data.

pub mod bag;
pub mod berries;
pub mod flags;

pub use self::bag::Category;
pub use self::berries::Berry;
pub use self::berries::BerryId;
pub use self::berries::BERRY_COUNT;
pub use self::bag::Pocket;
pub use self::berries::Flavor;
pub use self::flags::Flags;

use vstd::prelude::*;
use std::collections::HashMap;
use crate::csv::{Error, FromCsvIncremental, Record, RecordView};
use crate::enums::Enum;
use crate::repr::{
    spec_from_field,
    spec_from_option_field,
    spec_from_veekun_option_field,
    spec_pascal_case,
    from_field,
    from_option_field,
    from_veekun_option_field,
    to_pascal_case,
    FromVeekun,
    VeekunOption,
};
use self::berries::BerryTable;
use self::flags::FlagTable;

verus! {

broadcast use vstd::std_specs::hash::group_hash_axioms;

/// Extra effect when an item is thrown using Fling.
#[derive(Clone, Copy, Debug, PartialEq, Eq, Structural, Hash)]
pub enum FlingEffect {
    NoEffect,
    BadlyPoison,
    Burn,
    ActivateBerry,
    ActivateHerb,
    Paralyze,
    Poison,
    Flinch,
}

impl Enum for FlingEffect {
    open spec fn spec_values() -> Seq<FlingEffect> {
        let s = Seq::<FlingEffect>::empty();
        let s = s.push(FlingEffect::NoEffect);
        let s = s.push(FlingEffect::BadlyPoison);
        let s = s.push(FlingEffect::Burn);
        let s = s.push(FlingEffect::ActivateBerry);
        let s = s.push(FlingEffect::ActivateHerb);
        let s = s.push(FlingEffect::Paralyze);
        let s = s.push(FlingEffect::Poison);
        let s = s.push(FlingEffect::Flinch);
        s
    }

    fn values() -> (v: Vec<FlingEffect>) {
        let mut v: Vec<FlingEffect> = Vec::new();
        v.push(FlingEffect::NoEffect);
        v.push(FlingEffect::BadlyPoison);
        v.push(FlingEffect::Burn);
        v.push(FlingEffect::ActivateBerry);
        v.push(FlingEffect::ActivateHerb);
        v.push(FlingEffect::Paralyze);
        v.push(FlingEffect::Poison);
        v.push(FlingEffect::Flinch);
        v
    }
    open spec fn spec_repr(self) -> i32 {
        match self {
            FlingEffect::NoEffect => 0,
            FlingEffect::BadlyPoison => 1,
            FlingEffect::Burn => 2,
            FlingEffect::ActivateBerry => 3,
            FlingEffect::ActivateHerb => 4,
            FlingEffect::Paralyze => 5,
            FlingEffect::Poison => 6,
            FlingEffect::Flinch => 7,
        }
    }

    open spec fn spec_from_repr(code: i32) -> Option<FlingEffect> {
        match code {
            0 => Some(FlingEffect::NoEffect),
            1 => Some(FlingEffect::BadlyPoison),
            2 => Some(FlingEffect::Burn),
            3 => Some(FlingEffect::ActivateBerry),
            4 => Some(FlingEffect::ActivateHerb),
            5 => Some(FlingEffect::Paralyze),
            6 => Some(FlingEffect::Poison),
            7 => Some(FlingEffect::Flinch),
            _ => None,
        }
    }

    open spec fn spec_count() -> int {
        8
    }

    fn repr(self) -> (c: i32) {
        match self {
            FlingEffect::NoEffect => 0,
            FlingEffect::BadlyPoison => 1,
            FlingEffect::Burn => 2,
            FlingEffect::ActivateBerry => 3,
            FlingEffect::ActivateHerb => 4,
            FlingEffect::Paralyze => 5,
            FlingEffect::Poison => 6,
            FlingEffect::Flinch => 7,
        }
    }

    fn from_repr(code: i32) -> (r: Option<FlingEffect>) {
        match code {
            0 => Some(FlingEffect::NoEffect),
            1 => Some(FlingEffect::BadlyPoison),
            2 => Some(FlingEffect::Burn),
            3 => Some(FlingEffect::ActivateBerry),
            4 => Some(FlingEffect::ActivateHerb),
            5 => Some(FlingEffect::Paralyze),
            6 => Some(FlingEffect::Poison),
            7 => Some(FlingEffect::Flinch),
            _ => None,
        }
    }

    fn count() -> (n: usize) {
        8
    }

    proof fn lemma_values_count() {
    }

    proof fn lemma_round_trip(self) {
    }
}

impl Default for FlingEffect {
    fn default() -> (r: Self)
        ensures
            r == FlingEffect::NoEffect,
    {
        FlingEffect::NoEffect
    }
}

impl FromVeekun for FlingEffect {
    type Intermediate = u8;

    open spec fn spec_from_veekun(value: u8) -> Option<Self> {
        Self::spec_from_repr(value as i32)
    }

    fn from_veekun(value: u8) -> (r: Option<Self>) {
        Self::from_repr(value as i32)
    }
}

/// Identifier of an item, wrapping its nonzero raw id.
#[derive(Clone, Copy, Debug, PartialEq, Eq, Structural, Hash, PartialOrd, Ord)]
pub struct ItemId(pub u16);

impl Default for ItemId {
    fn default() -> (r: Self)
        ensures
            r.0 == 0,
    {
        ItemId(0)
    }
}

impl FromVeekun for ItemId {
    type Intermediate = u16;

    /// A raw value of zero is the "no item" sentinel and decodes to
    /// absent, never to a valid identifier.
    open spec fn spec_from_veekun(value: u16) -> Option<Self> {
        if value == 0 {
            None
        } else {
            Some(ItemId(value))
        }
    }

    fn from_veekun(value: u16) -> (r: Option<Self>) {
        if value == 0 {
            None
        } else {
            Some(ItemId(value))
        }
    }
}

/// A foreign-key field holding the zero sentinel decodes to absent,
/// and every other raw value decodes to the identifier wrapping it.
pub proof fn lemma_item_id_sentinel(value: u16)
    ensures
        value == 0 ==> ItemId::spec_from_veekun(value) is None,
        value != 0 ==> ItemId::spec_from_veekun(value) == Some(ItemId(value)),
{
}


/// A bag item.
#[derive(Debug)]
pub struct Item {
    /// The identifier of the item.
    pub id: ItemId,
    /// The PascalCase name of the item.
    pub name: String,
    /// The item's category.
    pub category: Category,
    /// The cost to buy the item.
    pub cost: u16,
    /// The power of Fling with this item, or `None` if it cannot be
    /// flung.
    pub fling_power: Option<u8>,
    /// The effect of Fling with this item.
    pub fling_effect: FlingEffect,
    /// Item bitflags.
    pub flags: Flags,
    /// Berry properties, or `None` if the item is not a berry.
    pub berry: Option<Berry>,
}

/// The mathematical content of an item.
#[verifier::ext_equal]
pub struct ItemView {
    pub id: ItemId,
    pub name: Seq<char>,
    pub category: Category,
    pub cost: u16,
    pub fling_power: Option<u8>,
    pub fling_effect: FlingEffect,
    pub flags: Flags,
    pub berry: Option<Berry>,
}

impl View for Item {
    type V = ItemView;

    open spec fn view(&self) -> ItemView {
        ItemView {
            id: self.id,
            name: self.name@,
            category: self.category,
            cost: self.cost,
            fling_power: self.fling_power,
            fling_effect: self.fling_effect,
            flags: self.flags,
            berry: self.berry,
        }
    }
}

/// The mathematical content of an item table: the items by raw
/// identifier, and the identifiers in first-insertion order.
#[verifier::ext_equal]
pub struct ItemTableView {
    pub items: Map<u16, ItemView>,
    pub ids: Seq<u16>,
}

/// The sparse table of items, keyed by raw item identifier; `ids`
/// remembers every key once, in first-insertion order.
pub struct ItemTable {
    pub map: HashMap<u16, Item>,
    pub ids: Vec<u16>,
}

impl View for ItemTable {
    type V = ItemTableView;

    open spec fn view(&self) -> ItemTableView {
        ItemTableView { items: self.map@.map_values(|it: Item| it@), ids: self.ids@ }
    }
}

/// Berries folded into the item table, in berry order: each berry is
/// attached to the item it names, and items no berry names keep what
/// they had.
pub open spec fn spec_set_berries(m: Map<u16, ItemView>, bs: Seq<Berry>) -> Map<u16, ItemView>
    decreases bs.len(),
{
    if bs.len() == 0 {
        m
    } else {
        let prev = spec_set_berries(m, bs.drop_last());
        let b = bs.last();
        if prev.contains_key(b.item.0) {
            prev.insert(b.item.0, ItemView { berry: Some(b), ..prev[b.item.0] })
        } else {
            prev
        }
    }
}

impl ItemTable {
    /// The key list names exactly the keys of the map, each once.
    pub open spec fn spec_wf(v: ItemTableView) -> bool {
        v.ids.no_duplicates() && forall|k: u16| #[trigger]
            v.items.contains_key(k) <==> v.ids.contains(k)
    }

    /// A fresh table holds no items.
    pub fn new() -> (r: Self)
        ensures
            r@ == Self::spec_empty(),
            Self::spec_wf(r@),
    {
        Self::from_empty_csv()
    }

    /// The item with an identifier, if the table holds one.
    pub fn get(&self, id: ItemId) -> (r: Option<&Item>)
        ensures
            self@.items.contains_key(id.0) ==> (r matches Some(it) && it@ == self@.items[id.0]),
            !self@.items.contains_key(id.0) ==> r is None,
    {
        self.map.get(&id.0)
    }

    /// Attach each berry to the item it names; items no berry names are
    /// left as they are.
    pub fn set_berries(&mut self, berries: &BerryTable)
        requires
            BerryTable::spec_wf(berries@),
            Self::spec_wf(old(self)@),
        ensures
            Self::spec_wf(final(self)@),
            final(self)@.ids == old(self)@.ids,
            final(self)@.items == spec_set_berries(old(self)@.items, berries@),
    {
        let ghost orig = self@.items;
        let mut i: usize = 0;
        proof {
            assert(berries@.take(0) =~= Seq::<Berry>::empty());
        }
        while i < 64
            invariant
                BerryTable::spec_wf(berries@),
                Self::spec_wf(self@),
                i <= 64,
                self@.ids == old(self)@.ids,
                self@.items == spec_set_berries(orig, berries@.take(i as int)),
                orig == old(self)@.items,
            decreases 64 - i,
        {
            let b = berries.0[i];
            proof {
                assert(berries@.take(i + 1).drop_last() =~= berries@.take(i as int));
                assert(berries@.take(i + 1).last() == berries@[i as int]);
            }
            let key: u16 = b.item.0;
            let updated: Option<Item> = match self.map.get(&key) {
                Some(it) => Some(
                    Item {
                        id: it.id,
                        name: it.name.clone(),
                        category: it.category,
                        cost: it.cost,
                        fling_power: it.fling_power,
                        fling_effect: it.fling_effect,
                        flags: it.flags,
                        berry: Some(b),
                    },
                ),
                None => None,
            };
            match updated {
                Some(it) => {
                    proof {
                        assert(self@.items.contains_key(key));
                    }
                    self.map.insert(key, it);
                    proof {
                        assert(self@.items =~= spec_set_berries(orig, berries@.take(i + 1)));
                        assert(self@.ids == old(self)@.ids);
                    }
                },
                None => {
                    proof {
                        assert(!self@.items.contains_key(key));
                        assert(self@.items =~= spec_set_berries(orig, berries@.take(i + 1)));
                    }
                },
            }
            i = i + 1;
        }
        proof {
            assert(berries@.take(64) =~= berries@);
        }
    }

    /// Give every item the flags accumulated for it, or empty flags
    /// where no row contributed.
    pub fn set_flags(&mut self, flags: &FlagTable)
        requires
            Self::spec_wf(old(self)@),
        ensures
            Self::spec_wf(final(self)@),
            final(self)@.ids == old(self)@.ids,
            final(self)@.items.dom() == old(self)@.items.dom(),
            forall|k: u16| #[trigger]
                old(self)@.items.contains_key(k) ==> final(self)@.items[k] == (ItemView {
                    flags: if flags@.contains_key(k) {
                        flags@[k]
                    } else {
                        Flags(0)
                    },
                    ..old(self)@.items[k]
                }),
    {
        let ghost orig = self@;
        let n: usize = self.ids.len();
        let mut i: usize = 0;
        while i < n
            invariant
                Self::spec_wf(self@),
                n == orig.ids.len(),
                i <= n,
                self@.ids == orig.ids,
                orig == old(self)@,
                self@.items.dom() == orig.items.dom(),
                forall|j: int|
                    0 <= j < i ==> self@.items[orig.ids[j]] == (ItemView {
                        flags: if flags@.contains_key(orig.ids[j]) {
                            flags@[orig.ids[j]]
                        } else {
                            Flags(0)
                        },
                        ..orig.items[orig.ids[j]]
                    }),
                forall|k: u16| #[trigger]
                    orig.items.contains_key(k) && !orig.ids.take(i as int).contains(k)
                        ==> self@.items[k] == orig.items[k],
            decreases n - i,
        {
            let key: u16 = self.ids[i];
            proof {
                assert(orig.ids.contains(key));
                assert(self@.items.contains_key(key));
            }
            let new_flags: Flags = match flags.0.get(&key) {
                Some(f) => *f,
                None => Flags(0),
            };
            let updated: Item = match self.map.get(&key) {
                Some(it) => Item {
                    id: it.id,
                    name: it.name.clone(),
                    category: it.category,
                    cost: it.cost,
                    fling_power: it.fling_power,
                    fling_effect: it.fling_effect,
                    flags: new_flags,
                    berry: it.berry,
                },
                None => {
                    proof {
                        assert(false);
                    }
                    unreached()
                },
            };
            self.map.insert(key, updated);
            proof {
                assert(self@.items.dom() =~= orig.items.dom());
                assert forall|j: int| 0 <= j < i + 1 implies self@.items[orig.ids[j]]
                    == (ItemView {
                    flags: if flags@.contains_key(orig.ids[j]) {
                        flags@[orig.ids[j]]
                    } else {
                        Flags(0)
                    },
                    ..orig.items[orig.ids[j]]
                }) by {
                    if j < i {
                        assert(orig.ids[j] != key) by {
                            assert(orig.ids.no_duplicates());
                        }
                    }
                }
                assert forall|k: u16| #[trigger]
                    orig.items.contains_key(k) && !orig.ids.take(i as int + 1).contains(k)
                    implies self@.items[k] == orig.items[k] by {
                    assert(k != key) by {
                        assert(orig.ids.take(i as int + 1)[i as int] == key);
                    }
                    assert(!orig.ids.take(i as int).contains(k)) by {
                        if orig.ids.take(i as int).contains(k) {
                            let j = choose|j: int|
                                0 <= j < i && orig.ids.take(i as int)[j] == k;
                            assert(orig.ids.take(i as int + 1)[j] == k);
                        }
                    }
                }
            }
            i = i + 1;
        }
        proof {
            assert forall|k: u16| #[trigger] orig.items.contains_key(k) implies self@.items[k]
                == (ItemView {
                flags: if flags@.contains_key(k) {
                    flags@[k]
                } else {
                    Flags(0)
                },
                ..orig.items[k]
            }) by {
                assert(orig.ids.contains(k));
                let j = choose|j: int| 0 <= j < orig.ids.len() && orig.ids[j] == k;
            }
        }
    }
}

impl FromCsvIncremental for ItemTable {
    open spec fn spec_empty() -> ItemTableView {
        ItemTableView { items: Map::empty(), ids: Seq::empty() }
    }

    open spec fn wf_state(v: ItemTableView) -> bool {
        Self::spec_wf(v)
    }

    open spec fn spec_load(state: ItemTableView, rec: RecordView) -> (ItemTableView, Option<
        Error,
    >) {
        match spec_from_field::<ItemId>(rec, 0) {
            Err(e) => (state, Some(e)),
            Ok(id) => match spec_from_veekun_option_field::<u8>(rec, 4) {
                Err(e) => (state, Some(e)),
                Ok(fling_power) => {
                    if rec.fields.len() <= 1 {
                        (state, Some(Error::RecordLength { line: rec.line, index: 1 }))
                    } else {
                        match spec_from_field::<Category>(rec, 2) {
                            Err(e) => (state, Some(e)),
                            Ok(category) => match spec_from_field::<u16>(rec, 3) {
                                Err(e) => (state, Some(e)),
                                Ok(cost) => match spec_from_option_field::<FlingEffect>(
                                    rec,
                                    5,
                                    FlingEffect::NoEffect,
                                ) {
                                    Err(e) => (state, Some(e)),
                                    Ok(fling_effect) => {
                                        let item = ItemView {
                                            id,
                                            name: spec_pascal_case(rec.fields[1]),
                                            category,
                                            cost,
                                            fling_power: fling_power.0,
                                            fling_effect,
                                            flags: Flags(0),
                                            berry: None,
                                        };
                                        let ids = if state.items.contains_key(id.0) {
                                            state.ids
                                        } else {
                                            state.ids.push(id.0)
                                        };
                                        (
                                            ItemTableView {
                                                items: state.items.insert(id.0, item),
                                                ids,
                                            },
                                            None,
                                        )
                                    },
                                },
                            },
                        }
                    }
                },
            },
        }
    }

    fn from_empty_csv() -> (r: Self) {
        let r = ItemTable { map: HashMap::new(), ids: Vec::new() };
        proof {
            assert(r@.items =~= Map::<u16, ItemView>::empty());
        }
        r
    }

    fn load_csv_record(&mut self, record: &Record) -> (r: Result<(), Error>) {
        let id: ItemId = match from_field::<ItemId>(record, 0) {
            Ok(t) => t,
            Err(e) => {
                return Err(e);
            },
        };
        let fling_power: VeekunOption<u8> = match from_veekun_option_field::<u8>(record, 4) {
            Ok(t) => t,
            Err(e) => {
                return Err(e);
            },
        };
        let raw_name: &str = match crate::csv::get_field(record, 1) {
            Ok(t) => t,
            Err(e) => {
                return Err(e);
            },
        };
        let name: String = to_pascal_case(raw_name);
        let category: Category = match from_field::<Category>(record, 2) {
            Ok(t) => t,
            Err(e) => {
                return Err(e);
            },
        };
        let cost: u16 = match from_field::<u16>(record, 3) {
            Ok(t) => t,
            Err(e) => {
                return Err(e);
            },
        };
        let fling_effect: FlingEffect = match from_option_field::<FlingEffect>(
            record,
            5,
            FlingEffect::NoEffect,
        ) {
            Ok(t) => t,
            Err(e) => {
                return Err(e);
            },
        };
        let item = Item {
            id,
            name,
            category,
            cost,
            fling_power: fling_power.0,
            fling_effect,
            flags: Flags(0),
            berry: None,
        };
        if !self.map.contains_key(&id.0) {
            self.ids.push(id.0);
        }
        self.map.insert(id.0, item);
        proof {
            assert(self@.items =~= Self::spec_load(old(self)@, record@).0.items);
            assert forall|k: u16| #[trigger]
                self@.items.contains_key(k) <==> self@.ids.contains(k) by {
                if k != id.0 {
                    assert(old(self)@.items.contains_key(k) <==> old(self)@.ids.contains(k));
                    if self@.ids.contains(k) {
                        let j = choose|j: int| 0 <= j < self@.ids.len() && self@.ids[j] == k;
                        if j < old(self)@.ids.len() {
                            assert(old(self)@.ids[j] == k);
                        }
                    }
                    if old(self)@.ids.contains(k) {
                        let j = choose|j: int|
                            0 <= j < old(self)@.ids.len() && old(self)@.ids[j] == k;
                        assert(self@.ids[j] == k);
                    }
                } else {
                    if !old(self)@.items.contains_key(id.0) {
                        assert(self@.ids.last() == id.0);
                    } else {
                        assert(old(self)@.ids.contains(k));
                        let j = choose|j: int|
                            0 <= j < old(self)@.ids.len() && old(self)@.ids[j] == k;
                        assert(self@.ids[j] == k);
                    }
                }
            }
            assert(self@.ids.no_duplicates()) by {
                if !old(self)@.items.contains_key(id.0) {
                    assert(!old(self)@.ids.contains(id.0));
                }
            }
        }
        Ok(())
    }
}

} // verus!
