//! Berries and their flavors.

use vstd::prelude::*;
use crate::aggregate::{dominant_index, is_dominant, lemma_dominant_unique};
use vstd::std_specs::convert::FromSpec;
use crate::csv::{Error, FromCsvIncremental, Record, RecordView};
use crate::enums::Enum;
use crate::items::ItemId;
use crate::repr::{spec_from_field, from_field, FromVeekun};
use crate::types::Type;

verus! {

/// The "type" of moves in contests, associated with berry flavors.
#[derive(Clone, Copy, Debug, PartialEq, Eq, Structural, Hash)]
pub enum ContestType {
    Cool,
    Tough,
    Cute,
    Beauty,
    Smart,
}

impl Enum for ContestType {
    open spec fn spec_values() -> Seq<ContestType> {
        let s = Seq::<ContestType>::empty();
        let s = s.push(ContestType::Cool);
        let s = s.push(ContestType::Tough);
        let s = s.push(ContestType::Cute);
        let s = s.push(ContestType::Beauty);
        let s = s.push(ContestType::Smart);
        s
    }

    fn values() -> (v: Vec<ContestType>) {
        let mut v: Vec<ContestType> = Vec::new();
        v.push(ContestType::Cool);
        v.push(ContestType::Tough);
        v.push(ContestType::Cute);
        v.push(ContestType::Beauty);
        v.push(ContestType::Smart);
        v
    }
    open spec fn spec_repr(self) -> i32 {
        match self {
            ContestType::Cool => 0,
            ContestType::Tough => 1,
            ContestType::Cute => 2,
            ContestType::Beauty => 3,
            ContestType::Smart => 4,
        }
    }

    open spec fn spec_from_repr(code: i32) -> Option<ContestType> {
        match code {
            0 => Some(ContestType::Cool),
            1 => Some(ContestType::Tough),
            2 => Some(ContestType::Cute),
            3 => Some(ContestType::Beauty),
            4 => Some(ContestType::Smart),
            _ => None,
        }
    }

    open spec fn spec_count() -> int {
        5
    }

    fn repr(self) -> (c: i32) {
        match self {
            ContestType::Cool => 0,
            ContestType::Tough => 1,
            ContestType::Cute => 2,
            ContestType::Beauty => 3,
            ContestType::Smart => 4,
        }
    }

    fn from_repr(code: i32) -> (r: Option<ContestType>) {
        match code {
            0 => Some(ContestType::Cool),
            1 => Some(ContestType::Tough),
            2 => Some(ContestType::Cute),
            3 => Some(ContestType::Beauty),
            4 => Some(ContestType::Smart),
            _ => None,
        }
    }

    fn count() -> (n: usize) {
        5
    }

    proof fn lemma_values_count() {
    }

    proof fn lemma_round_trip(self) {
    }
}
impl FromVeekun for ContestType {
    type Intermediate = u8;

    open spec fn spec_from_veekun(value: u8) -> Option<Self> {
        match value {
            1 => Some(ContestType::Cool),
            2 => Some(ContestType::Beauty),
            3 => Some(ContestType::Cute),
            4 => Some(ContestType::Smart),
            5 => Some(ContestType::Tough),
            _ => None,
        }
    }

    fn from_veekun(value: u8) -> (r: Option<Self>) {
        match value {
            1 => Some(ContestType::Cool),
            2 => Some(ContestType::Beauty),
            3 => Some(ContestType::Cute),
            4 => Some(ContestType::Smart),
            5 => Some(ContestType::Tough),
            _ => None,
        }
    }
}
/// Berry flavor, which a Pokémon may like or dislike.
#[derive(Clone, Copy, Debug, PartialEq, Eq, Structural, Hash)]
pub enum Flavor {
    Spicy,
    Sour,
    Sweet,
    Dry,
    Bitter,
}

impl Enum for Flavor {
    open spec fn spec_values() -> Seq<Flavor> {
        let s = Seq::<Flavor>::empty();
        let s = s.push(Flavor::Spicy);
        let s = s.push(Flavor::Sour);
        let s = s.push(Flavor::Sweet);
        let s = s.push(Flavor::Dry);
        let s = s.push(Flavor::Bitter);
        s
    }

    fn values() -> (v: Vec<Flavor>) {
        let mut v: Vec<Flavor> = Vec::new();
        v.push(Flavor::Spicy);
        v.push(Flavor::Sour);
        v.push(Flavor::Sweet);
        v.push(Flavor::Dry);
        v.push(Flavor::Bitter);
        v
    }
    open spec fn spec_repr(self) -> i32 {
        match self {
            Flavor::Spicy => 0,
            Flavor::Sour => 1,
            Flavor::Sweet => 2,
            Flavor::Dry => 3,
            Flavor::Bitter => 4,
        }
    }

    open spec fn spec_from_repr(code: i32) -> Option<Flavor> {
        match code {
            0 => Some(Flavor::Spicy),
            1 => Some(Flavor::Sour),
            2 => Some(Flavor::Sweet),
            3 => Some(Flavor::Dry),
            4 => Some(Flavor::Bitter),
            _ => None,
        }
    }

    open spec fn spec_count() -> int {
        5
    }

    fn repr(self) -> (c: i32) {
        match self {
            Flavor::Spicy => 0,
            Flavor::Sour => 1,
            Flavor::Sweet => 2,
            Flavor::Dry => 3,
            Flavor::Bitter => 4,
        }
    }

    fn from_repr(code: i32) -> (r: Option<Flavor>) {
        match code {
            0 => Some(Flavor::Spicy),
            1 => Some(Flavor::Sour),
            2 => Some(Flavor::Sweet),
            3 => Some(Flavor::Dry),
            4 => Some(Flavor::Bitter),
            _ => None,
        }
    }

    fn count() -> (n: usize) {
        5
    }

    proof fn lemma_values_count() {
    }

    proof fn lemma_round_trip(self) {
    }
}
impl FromVeekun for Flavor {
    type Intermediate = u8;

    open spec fn spec_from_veekun(value: u8) -> Option<Self> {
        match value {
            1 => Some(Flavor::Spicy),
            2 => Some(Flavor::Dry),
            3 => Some(Flavor::Sweet),
            4 => Some(Flavor::Bitter),
            5 => Some(Flavor::Sour),
            _ => None,
        }
    }

    fn from_veekun(value: u8) -> (r: Option<Self>) {
        match value {
            1 => Some(Flavor::Spicy),
            2 => Some(Flavor::Dry),
            3 => Some(Flavor::Sweet),
            4 => Some(Flavor::Bitter),
            5 => Some(Flavor::Sour),
            _ => None,
        }
    }
}

impl From<ContestType> for Flavor {
    /// The flavor associated with a contest type: both number their
    /// values identically.
    fn from(contest: ContestType) -> (r: Flavor) {
        match contest {
            ContestType::Cool => Flavor::Spicy,
            ContestType::Tough => Flavor::Sour,
            ContestType::Cute => Flavor::Sweet,
            ContestType::Beauty => Flavor::Dry,
            ContestType::Smart => Flavor::Bitter,
        }
    }
}

impl vstd::std_specs::convert::FromSpecImpl<ContestType> for Flavor {
    open spec fn obeys_from_spec() -> bool {
        true
    }

    open spec fn from_spec(contest: ContestType) -> Flavor {
        match contest {
            ContestType::Cool => Flavor::Spicy,
            ContestType::Tough => Flavor::Sour,
            ContestType::Cute => Flavor::Sweet,
            ContestType::Beauty => Flavor::Dry,
            ContestType::Smart => Flavor::Bitter,
        }
    }
}

impl From<Flavor> for ContestType {
    /// The contest type associated with a flavor.
    fn from(flavor: Flavor) -> (r: ContestType) {
        match flavor {
            Flavor::Spicy => ContestType::Cool,
            Flavor::Sour => ContestType::Tough,
            Flavor::Sweet => ContestType::Cute,
            Flavor::Dry => ContestType::Beauty,
            Flavor::Bitter => ContestType::Smart,
        }
    }
}

impl vstd::std_specs::convert::FromSpecImpl<Flavor> for ContestType {
    open spec fn obeys_from_spec() -> bool {
        true
    }

    open spec fn from_spec(flavor: Flavor) -> ContestType {
        match flavor {
            Flavor::Spicy => ContestType::Cool,
            Flavor::Sour => ContestType::Tough,
            Flavor::Sweet => ContestType::Cute,
            Flavor::Dry => ContestType::Beauty,
            Flavor::Bitter => ContestType::Smart,
        }
    }
}

/// The total number of berries.
pub const BERRY_COUNT: usize = 64;

/// Identifier of a berry: a dense index below the berry count.
#[derive(Clone, Copy, Debug, PartialEq, Eq, Structural, Hash)]
pub struct BerryId(pub u8);

impl Default for BerryId {
    fn default() -> (r: Self)
        ensures
            r.0 == 255,
    {
        BerryId(255)
    }
}

impl FromVeekun for BerryId {
    type Intermediate = u8;

    /// Raw berry ids count from one. A raw zero is the "no berry"
    /// sentinel and decodes to absent, never to a valid identifier;
    /// anything past the table range is rejected too.
    open spec fn spec_from_veekun(value: u8) -> Option<Self> {
        if 1 <= value <= 64 {
            Some(BerryId((value - 1) as u8))
        } else {
            None
        }
    }

    fn from_veekun(value: u8) -> (r: Option<Self>) {
        if 1 <= value && value <= 64 {
            Some(BerryId(value - 1))
        } else {
            None
        }
    }
}

/// The zero sentinel never decodes to a valid berry identifier.
pub proof fn lemma_berry_id_sentinel()
    ensures
        BerryId::spec_from_veekun(0) is None,
{
}

/// A held item that a Pokémon can use in battle.
#[derive(Clone, Copy, Debug, PartialEq, Eq, Structural)]
pub struct Berry {
    /// The item this berry is, in the item table.
    pub item: ItemId,
    /// The power of Natural Gift when used with this berry.
    pub natural_gift_power: u8,
    /// The type of Natural Gift when used with this berry.
    pub natural_gift_type: Type,
    /// The dominant flavor, or none on a tie.
    pub flavor: Option<Flavor>,
}

impl Default for Berry {
    fn default() -> (r: Self)
        ensures
            r == (Berry {
                item: ItemId(0),
                natural_gift_power: 0,
                natural_gift_type: Type::Normal,
                flavor: None::<Flavor>,
            }),
    {
        Berry {
            item: ItemId(0),
            natural_gift_power: 0,
            natural_gift_type: Type::Normal,
            flavor: None,
        }
    }
}

/// The dense table of berries, one slot per berry identifier.
pub struct BerryTable(pub Vec<Berry>);

impl View for BerryTable {
    type V = Seq<Berry>;

    open spec fn view(&self) -> Seq<Berry> {
        self.0@
    }
}

/// The mathematical content of a berry flavor table.
#[verifier::ext_equal]
pub struct BerryFlavorView {
    pub spicy: Seq<u8>,
    pub sour: Seq<u8>,
    pub sweet: Seq<u8>,
    pub dry: Seq<u8>,
    pub bitter: Seq<u8>,
}

/// Per-berry flavor weights, one dense column per flavor.
pub struct BerryFlavorTable {
    pub spicy: Vec<u8>,
    pub sour: Vec<u8>,
    pub sweet: Vec<u8>,
    pub dry: Vec<u8>,
    pub bitter: Vec<u8>,
}

impl View for BerryFlavorTable {
    type V = BerryFlavorView;

    open spec fn view(&self) -> BerryFlavorView {
        BerryFlavorView {
            spicy: self.spicy@,
            sour: self.sour@,
            sweet: self.sweet@,
            dry: self.dry@,
            bitter: self.bitter@,
        }
    }
}

/// The five flavor weights of one berry, in flavor code order.
pub open spec fn spec_weights(v: BerryFlavorView, i: int) -> Seq<u8> {
    seq![v.spicy[i], v.sour[i], v.sweet[i], v.dry[i], v.bitter[i]]
}

/// The flavor whose weight strictly outweighs every other, if any: a
/// tie for the greatest weight, or all weights zero, yields none.
pub open spec fn spec_flavor_choice(w: Seq<u8>) -> Option<Flavor> {
    if exists|j: int| is_dominant(w, j) {
        let j = choose|j: int| is_dominant(w, j);
        Flavor::spec_from_repr(j as i32)
    } else {
        None
    }
}

impl BerryTable {
    /// A dense berry table has one slot per berry.
    pub open spec fn spec_wf(v: Seq<Berry>) -> bool {
        v.len() == 64
    }

    /// Every slot of a fresh table holds the default berry.
    pub fn new() -> (r: Self)
        ensures
            r@ == Self::spec_empty(),
            Self::spec_wf(r@),
    {
        Self::from_empty_csv()
    }

    /// The berry at an identifier; in-range indexing never fails.
    pub fn get(&self, id: BerryId) -> (r: Berry)
        requires
            Self::spec_wf(self@),
            id.0 < 64,
        ensures
            r == self@[id.0 as int],
    {
        self.0[id.0 as usize]
    }

    /// Give every berry the dominant flavor of its weights: the flavor
    /// strictly outweighing all others, or none on a tie.
    pub fn set_flavors(&mut self, flavors: &BerryFlavorTable)
        requires
            Self::spec_wf(old(self)@),
            BerryFlavorTable::spec_wf(flavors@),
        ensures
            Self::spec_wf(final(self)@),
            forall|i: int|
                0 <= i < 64 ==> final(self)@[i] == (Berry {
                    flavor: spec_flavor_choice(spec_weights(flavors@, i)),
                    ..old(self)@[i]
                }),
    {
        let mut id: usize = 0;
        while id < 64
            invariant
                Self::spec_wf(self@),
                BerryFlavorTable::spec_wf(flavors@),
                id <= 64,
                forall|i: int|
                    0 <= i < id ==> self@[i] == (Berry {
                        flavor: spec_flavor_choice(spec_weights(flavors@, i)),
                        ..old(self)@[i]
                    }),
                forall|i: int| id <= i < 64 ==> self@[i] == old(self)@[i],
            decreases 64 - id,
        {
            let mut w: Vec<u8> = Vec::new();
            w.push(flavors.spicy[id]);
            w.push(flavors.sour[id]);
            w.push(flavors.sweet[id]);
            w.push(flavors.dry[id]);
            w.push(flavors.bitter[id]);
            proof {
                assert(w@ =~= spec_weights(flavors@, id as int));
            }
            let flavor: Option<Flavor> = match dominant_index(&w) {
                Some(j) => {
                    proof {
                        let k = choose|k: int| is_dominant(w@, k);
                        lemma_dominant_unique(w@, k, j as int);
                    }
                    Flavor::from_repr(j as i32)
                },
                None => None,
            };
            let old_berry = self.0[id];
            self.0.set(
                id,
                Berry {
                    item: old_berry.item,
                    natural_gift_power: old_berry.natural_gift_power,
                    natural_gift_type: old_berry.natural_gift_type,
                    flavor,
                },
            );
            id = id + 1;
        }
    }
}

impl FromCsvIncremental for BerryTable {
    open spec fn spec_empty() -> Seq<Berry> {
        Seq::new(
            64,
            |i: int|
                Berry {
                    item: ItemId(0),
                    natural_gift_power: 0,
                    natural_gift_type: Type::Normal,
                    flavor: None,
                },
        )
    }

    open spec fn wf_state(v: Seq<Berry>) -> bool {
        Self::spec_wf(v)
    }

    open spec fn spec_load(state: Seq<Berry>, rec: RecordView) -> (Seq<Berry>, Option<Error>) {
        match spec_from_field::<BerryId>(rec, 0) {
            Err(e) => (state, Some(e)),
            Ok(id) => match spec_from_field::<ItemId>(rec, 1) {
                Err(e) => (state, Some(e)),
                Ok(item) => match spec_from_field::<u8>(rec, 3) {
                    Err(e) => (state, Some(e)),
                    Ok(power) => match spec_from_field::<Type>(rec, 4) {
                        Err(e) => (state, Some(e)),
                        Ok(typ) => (
                            state.update(
                                id.0 as int,
                                Berry {
                                    item,
                                    natural_gift_power: power,
                                    natural_gift_type: typ,
                                    flavor: None,
                                },
                            ),
                            None,
                        ),
                    },
                },
            },
        }
    }

    fn from_empty_csv() -> (r: Self) {
        let mut v: Vec<Berry> = Vec::new();
        let mut i: usize = 0;
        while i < 64
            invariant
                i <= 64,
                v@.len() == i,
                forall|j: int|
                    0 <= j < i ==> v@[j] == (Berry {
                        item: ItemId(0),
                        natural_gift_power: 0u8,
                        natural_gift_type: Type::Normal,
                        flavor: None::<Flavor>,
                    }),
            decreases 64 - i,
        {
            v.push(
                Berry {
                    item: ItemId(0),
                    natural_gift_power: 0,
                    natural_gift_type: Type::Normal,
                    flavor: None,
                },
            );
            i = i + 1;
        }
        proof {
            assert(v@ =~= Self::spec_empty());
        }
        BerryTable(v)
    }

    fn load_csv_record(&mut self, record: &Record) -> (r: Result<(), Error>) {
        let id: BerryId = match from_field::<BerryId>(record, 0) {
            Ok(t) => t,
            Err(e) => {
                return Err(e);
            },
        };
        let item: ItemId = match from_field::<ItemId>(record, 1) {
            Ok(t) => t,
            Err(e) => {
                return Err(e);
            },
        };
        let power: u8 = match from_field::<u8>(record, 3) {
            Ok(t) => t,
            Err(e) => {
                return Err(e);
            },
        };
        let typ: Type = match from_field::<Type>(record, 4) {
            Ok(t) => t,
            Err(e) => {
                return Err(e);
            },
        };
        self.0.set(
            id.0 as usize,
            Berry { item, natural_gift_power: power, natural_gift_type: typ, flavor: None },
        );
        Ok(())
    }
}

impl BerryFlavorTable {
    /// Each flavor column is dense over the berries.
    pub open spec fn spec_wf(v: BerryFlavorView) -> bool {
        v.spicy.len() == 64 && v.sour.len() == 64 && v.sweet.len() == 64 && v.dry.len() == 64
            && v.bitter.len() == 64
    }

    /// Every weight of a fresh table is zero.
    pub fn new() -> (r: Self)
        ensures
            r@ == Self::spec_empty(),
            Self::spec_wf(r@),
    {
        Self::from_empty_csv()
    }
}

/// A vector of one zero weight per berry.
fn zero_column() -> (r: Vec<u8>)
    ensures
        r@ == Seq::new(64, |i: int| 0u8),
{
    let mut v: Vec<u8> = Vec::new();
    let mut i: usize = 0;
    while i < 64
        invariant
            i <= 64,
            v@.len() == i,
            forall|j: int| 0 <= j < i ==> v@[j] == 0u8,
        decreases 64 - i,
    {
        v.push(0);
        i = i + 1;
    }
    proof {
        assert(v@ =~= Seq::new(64, |i: int| 0u8));
    }
    v
}

/// One flavor column updated at one berry slot.
pub open spec fn spec_update_weight(v: BerryFlavorView, f: Flavor, i: int, value: u8)
    -> BerryFlavorView {
    match f {
        Flavor::Spicy => BerryFlavorView { spicy: v.spicy.update(i, value), ..v },
        Flavor::Sour => BerryFlavorView { sour: v.sour.update(i, value), ..v },
        Flavor::Sweet => BerryFlavorView { sweet: v.sweet.update(i, value), ..v },
        Flavor::Dry => BerryFlavorView { dry: v.dry.update(i, value), ..v },
        Flavor::Bitter => BerryFlavorView { bitter: v.bitter.update(i, value), ..v },
    }
}

impl FromCsvIncremental for BerryFlavorTable {
    open spec fn spec_empty() -> BerryFlavorView {
        BerryFlavorView {
            spicy: Seq::new(64, |i: int| 0u8),
            sour: Seq::new(64, |i: int| 0u8),
            sweet: Seq::new(64, |i: int| 0u8),
            dry: Seq::new(64, |i: int| 0u8),
            bitter: Seq::new(64, |i: int| 0u8),
        }
    }

    open spec fn wf_state(v: BerryFlavorView) -> bool {
        Self::spec_wf(v)
    }

    open spec fn spec_load(state: BerryFlavorView, rec: RecordView) -> (BerryFlavorView, Option<
        Error,
    >) {
        match spec_from_field::<BerryId>(rec, 0) {
            Err(e) => (state, Some(e)),
            Ok(id) => match spec_from_field::<ContestType>(rec, 1) {
                Err(e) => (state, Some(e)),
                Ok(contest) => match spec_from_field::<u8>(rec, 2) {
                    Err(e) => (state, Some(e)),
                    Ok(value) => (
                        spec_update_weight(
                            state,
                            Flavor::from_spec(contest),
                            id.0 as int,
                            value,
                        ),
                        None,
                    ),
                },
            },
        }
    }

    fn from_empty_csv() -> (r: Self) {
        BerryFlavorTable {
            spicy: zero_column(),
            sour: zero_column(),
            sweet: zero_column(),
            dry: zero_column(),
            bitter: zero_column(),
        }
    }

    fn load_csv_record(&mut self, record: &Record) -> (r: Result<(), Error>) {
        let id: BerryId = match from_field::<BerryId>(record, 0) {
            Ok(t) => t,
            Err(e) => {
                return Err(e);
            },
        };
        let contest: ContestType = match from_field::<ContestType>(record, 1) {
            Ok(t) => t,
            Err(e) => {
                return Err(e);
            },
        };
        let value: u8 = match from_field::<u8>(record, 2) {
            Ok(t) => t,
            Err(e) => {
                return Err(e);
            },
        };
        let flavor = Flavor::from(contest);
        match flavor {
            Flavor::Spicy => self.spicy.set(id.0 as usize, value),
            Flavor::Sour => self.sour.set(id.0 as usize, value),
            Flavor::Sweet => self.sweet.set(id.0 as usize, value),
            Flavor::Dry => self.dry.set(id.0 as usize, value),
            Flavor::Bitter => self.bitter.set(id.0 as usize, value),
        }
        Ok(())
    }
}

} // verus!
