//! A strongly-typed, cross-referenced Pokédex assembled from flat,
//! comma-delimited table text.
//!
//! Raw table text is split into records, each record's fields are decoded
//! into typed values, and the resulting tables are joined, in a fixed
//! dependency order, into immutable in-memory stores indexed by small
//! integer identifiers. Construction either fully succeeds or stops at
//! the first located error.

use vstd::prelude::*;

pub mod abilities;
pub mod aggregate;
pub mod csv;
pub mod enums;
pub mod items;
pub mod moves;
pub mod natures;
pub mod pokemon;
pub mod repr;
pub mod types;
pub mod versions;

pub use self::abilities::Ability;
pub use self::enums::Enum;
pub use self::natures::Nature;
pub use self::natures::Stat;
pub use self::natures::HalfPalaceTable;
pub use self::natures::PalaceTable;
pub use self::types::Efficacy;
pub use self::types::EfficacyTable;
pub use self::types::Type;
pub use self::repr::to_pascal_case;
pub use self::repr::FromVeekun;
pub use self::repr::VeekunOption;
pub use self::repr::VeekunString;

use crate::csv::{spec_from_csv, from_csv_data, Error, FromCsvIncremental};
use crate::items::berries::{
    spec_flavor_choice,
    spec_weights,
    Berry,
    BerryFlavorTable,
    BerryTable,
};
use crate::items::{spec_set_berries, ItemTable, ItemTableView, ItemView};
use crate::moves::meta::{Meta, MetaTable, StatChangeTable};
use crate::moves::{MoveTable, MoveView};
use crate::natures::PalaceView;
use crate::pokemon::{
    spec_apply_abilities,
    spec_apply_egg_groups,
    spec_apply_evolution,
    spec_apply_forms,
    spec_apply_moves,
    spec_apply_pokemon,
    spec_apply_stats,
    spec_apply_types,
    AbilityTable,
    EggGroupTable,
    EvolutionTable,
    FormTable,
    PokemonMoveTable,
    PokemonTable,
    PokemonView,
    SpeciesTable,
    SpeciesView,
    StatTable,
    TypeTable,
};

verus! {

/// The raw text of every table a Pokédex is assembled from.
pub struct PokedexData {
    pub efficacy: String,
    pub items: String,
    pub berries: String,
    pub berry_flavors: String,
    pub item_flags: String,
    pub moves: String,
    pub move_meta: String,
    pub move_flags: String,
    pub move_stat_changes: String,
    pub palace: String,
    pub species: String,
    pub pokemon: String,
    pub abilities: String,
    pub forms: String,
    pub pokemon_moves: String,
    pub types: String,
    pub stats: String,
    pub egg_groups: String,
    pub evolution: String,
}

/// The mathematical content of the raw table texts.
#[verifier::ext_equal]
pub struct PokedexDataView {
    pub efficacy: Seq<char>,
    pub items: Seq<char>,
    pub berries: Seq<char>,
    pub berry_flavors: Seq<char>,
    pub item_flags: Seq<char>,
    pub moves: Seq<char>,
    pub move_meta: Seq<char>,
    pub move_flags: Seq<char>,
    pub move_stat_changes: Seq<char>,
    pub palace: Seq<char>,
    pub species: Seq<char>,
    pub pokemon: Seq<char>,
    pub abilities: Seq<char>,
    pub forms: Seq<char>,
    pub pokemon_moves: Seq<char>,
    pub types: Seq<char>,
    pub stats: Seq<char>,
    pub egg_groups: Seq<char>,
    pub evolution: Seq<char>,
}

impl View for PokedexData {
    type V = PokedexDataView;

    open spec fn view(&self) -> PokedexDataView {
        PokedexDataView {
            efficacy: self.efficacy@,
            items: self.items@,
            berries: self.berries@,
            berry_flavors: self.berry_flavors@,
            item_flags: self.item_flags@,
            moves: self.moves@,
            move_meta: self.move_meta@,
            move_flags: self.move_flags@,
            move_stat_changes: self.move_stat_changes@,
            palace: self.palace@,
            species: self.species@,
            pokemon: self.pokemon@,
            abilities: self.abilities@,
            forms: self.forms@,
            pokemon_moves: self.pokemon_moves@,
            types: self.types@,
            stats: self.stats@,
            egg_groups: self.egg_groups@,
            evolution: self.evolution@,
        }
    }
}

/// All the data of an assembled Pokédex.
pub struct Pokedex {
    pub efficacy: EfficacyTable,
    pub items: ItemTable,
    pub moves: MoveTable,
    pub palace: PalaceTable,
    pub species: SpeciesTable,
}

/// The mathematical content of an assembled Pokédex.
#[verifier::ext_equal]
pub struct PokedexView {
    pub efficacy: Seq<Efficacy>,
    pub items: ItemTableView,
    pub moves: Seq<MoveView>,
    pub palace: PalaceView,
    pub species: Seq<SpeciesView>,
}

impl View for Pokedex {
    type V = PokedexView;

    open spec fn view(&self) -> PokedexView {
        PokedexView {
            efficacy: self.efficacy@,
            items: self.items@,
            moves: self.moves@,
            palace: self.palace@,
            species: self.species@,
        }
    }
}

/// One loaded table, or the first error of its text.
pub open spec fn spec_table<T: FromCsvIncremental>(text: Seq<char>) -> Result<T::V, Error> {
    match spec_from_csv::<T>(text) {
        (v, None) => Ok(v),
        (_, Some(e)) => Err(e),
    }
}

/// Berries with their dominant flavors filled in.
pub open spec fn spec_flavored_berries(b: Seq<Berry>, f: <BerryFlavorTable as View>::V) -> Seq<
    Berry,
> {
    Seq::new(64, |i: int| Berry { flavor: spec_flavor_choice(spec_weights(f, i)), ..b[i] })
}

/// Items with their accumulated flags filled in; items no row
/// contributed to get empty flags.
pub open spec fn spec_flagged_items(
    m: Map<u16, ItemView>,
    fl: Map<u16, crate::items::Flags>,
) -> Map<u16, ItemView> {
    Map::new(
        |k: u16| m.contains_key(k),
        |k: u16|
            ItemView {
                flags: if fl.contains_key(k) {
                    fl[k]
                } else {
                    crate::items::Flags(0)
                },
                ..m[k]
            },
    )
}

/// Meta records with their accumulated flags filled in.
pub open spec fn spec_meta_with_flags(
    m: Seq<Meta>,
    fl: <crate::moves::flags::FlagTable as View>::V,
) -> Seq<Meta> {
    Seq::new(
        559,
        |i: int|
            Meta {
                flags: if fl.flags.contains_key(i as u16) {
                    fl.flags[i as u16]
                } else {
                    m[i].flags
                },
                ..m[i]
            },
    )
}

/// Meta records with their assembled stat changes filled in.
pub open spec fn spec_meta_with_changes(m: Seq<Meta>, ch: <StatChangeTable as View>::V) -> Seq<
    Meta,
> {
    Seq::new(
        559,
        |i: int|
            Meta {
                stat_changes: if ch.changes.contains_key(i as u16) {
                    ch.changes[i as u16]
                } else {
                    m[i].stat_changes
                },
                ..m[i]
            },
    )
}

/// Moves with their meta records filled in.
pub open spec fn spec_moves_with_meta(mv: Seq<MoveView>, meta: Seq<Meta>) -> Seq<MoveView> {
    Seq::new(559, |i: int| MoveView { meta: meta[i], ..mv[i] })
}

/// One per-Pokémon join applied to every Pokémon of every species.
pub open spec fn spec_join_pokemon<A>(
    t: Seq<Seq<PokemonView>>,
    aux: A,
    f: spec_fn(PokemonView, A) -> PokemonView,
) -> Seq<Seq<PokemonView>> {
    Seq::new(649, |s: int| Seq::new(t[s].len(), |j: int| f(t[s][j], aux)))
}

/// One per-species join applied to every species.
pub open spec fn spec_join_species<A>(
    t: Seq<SpeciesView>,
    aux: A,
    f: spec_fn(SpeciesView, int, A) -> SpeciesView,
) -> Seq<SpeciesView> {
    Seq::new(649, |i: int| f(t[i], i, aux))
}

/// The fully denormalized Pokémon table: the grouped base rows with
/// abilities, forms, moves, types, and stats folded in, in that order.
pub open spec fn spec_assembled_pokemon(d: PokedexDataView) -> Result<
    Seq<Seq<PokemonView>>,
    Error,
> {
    match spec_table::<PokemonTable>(d.pokemon) {
        Err(e) => Err(e),
        Ok(base) => match spec_table::<AbilityTable>(d.abilities) {
            Err(e) => Err(e),
            Ok(ab) => match spec_table::<FormTable>(d.forms) {
                Err(e) => Err(e),
                Ok(fo) => match spec_table::<PokemonMoveTable>(d.pokemon_moves) {
                    Err(e) => Err(e),
                    Ok(pm) => match spec_table::<TypeTable>(d.types) {
                        Err(e) => Err(e),
                        Ok(ty) => match spec_table::<StatTable>(d.stats) {
                            Err(e) => Err(e),
                            Ok(st) => Ok(
                                spec_join_pokemon(
                                    spec_join_pokemon(
                                        spec_join_pokemon(
                                            spec_join_pokemon(
                                                spec_join_pokemon(
                                                    base,
                                                    ab,
                                                    |p: PokemonView, a: Seq<
                                                        crate::pokemon::PokemonAbilities,
                                                    >| spec_apply_abilities(p, a),
                                                ),
                                                fo,
                                                |p: PokemonView, a: Seq<
                                                    Seq<crate::pokemon::FormView>,
                                                >| spec_apply_forms(p, a),
                                            ),
                                            pm,
                                            |p: PokemonView, a: Seq<
                                                Seq<Seq<crate::pokemon::PokemonMove>>,
                                            >| spec_apply_moves(p, a),
                                        ),
                                        ty,
                                        |p: PokemonView, a: Seq<crate::pokemon::TypeSlots>|
                                            spec_apply_types(p, a),
                                    ),
                                    st,
                                    |p: PokemonView, a: Seq<crate::pokemon::BaseStats>|
                                        spec_apply_stats(p, a),
                                ),
                            ),
                        },
                    },
                },
            },
        },
    }
}

/// The fully denormalized species table.
pub open spec fn spec_assembled_species(d: PokedexDataView) -> Result<Seq<SpeciesView>, Error> {
    match spec_table::<SpeciesTable>(d.species) {
        Err(e) => Err(e),
        Ok(base) => match spec_assembled_pokemon(d) {
            Err(e) => Err(e),
            Ok(pk) => match spec_table::<EggGroupTable>(d.egg_groups) {
                Err(e) => Err(e),
                Ok(eg) => match spec_table::<EvolutionTable>(d.evolution) {
                    Err(e) => Err(e),
                    Ok(ev) => Ok(
                        spec_join_species(
                            spec_join_species(
                                spec_join_species(
                                    base,
                                    pk,
                                    |sp: SpeciesView, i: int, a: Seq<Seq<PokemonView>>|
                                        spec_apply_pokemon(sp, i, a),
                                ),
                                eg,
                                |sp: SpeciesView, i: int, a: Seq<Seq<crate::pokemon::EggGroup>>|
                                    spec_apply_egg_groups(sp, i, a),
                            ),
                            ev,
                            |sp: SpeciesView, i: int, a: Map<u16, crate::pokemon::EvolvesFrom>|
                                spec_apply_evolution(sp, i, a),
                        ),
                    ),
                },
            },
        },
    }
}

/// What assembling a whole Pokédex yields: each table loaded and
/// joined in the fixed dependency order, or the first error met.
pub open spec fn spec_pokedex(d: PokedexDataView) -> Result<PokedexView, Error> {
    match spec_table::<EfficacyTable>(d.efficacy) {
        Err(e) => Err(e),
        Ok(efficacy) => match spec_table::<ItemTable>(d.items) {
            Err(e) => Err(e),
            Ok(items0) => match spec_table::<BerryTable>(d.berries) {
                Err(e) => Err(e),
                Ok(berries0) => match spec_table::<BerryFlavorTable>(d.berry_flavors) {
                    Err(e) => Err(e),
                    Ok(flavors) => match spec_table::<crate::items::flags::FlagTable>(
                        d.item_flags,
                    ) {
                        Err(e) => Err(e),
                        Ok(iflags) => match spec_table::<MoveTable>(d.moves) {
                            Err(e) => Err(e),
                            Ok(moves0) => match spec_table::<MetaTable>(d.move_meta) {
                                Err(e) => Err(e),
                                Ok(meta0) => match spec_table::<crate::moves::flags::FlagTable>(
                                    d.move_flags,
                                ) {
                                    Err(e) => Err(e),
                                    Ok(mflags) => match spec_table::<StatChangeTable>(
                                        d.move_stat_changes,
                                    ) {
                                        Err(e) => Err(e),
                                        Ok(changes) => match spec_table::<PalaceTable>(d.palace) {
                                            Err(e) => Err(e),
                                            Ok(palace) => match spec_assembled_species(d) {
                                                Err(e) => Err(e),
                                                Ok(species) => {
                                                    let berries = spec_flavored_berries(
                                                        berries0,
                                                        flavors,
                                                    );
                                                    let merged = spec_set_berries(
                                                        items0.items,
                                                        berries,
                                                    );
                                                    let items = ItemTableView {
                                                        items: spec_flagged_items(merged, iflags),
                                                        ids: items0.ids,
                                                    };
                                                    let meta = spec_meta_with_changes(
                                                        spec_meta_with_flags(meta0, mflags),
                                                        changes,
                                                    );
                                                    Ok(
                                                        PokedexView {
                                                            efficacy,
                                                            items,
                                                            moves: spec_moves_with_meta(
                                                                moves0,
                                                                meta,
                                                            ),
                                                            palace,
                                                            species,
                                                        },
                                                    )
                                                },
                                            },
                                        },
                                    },
                                },
                            },
                        },
                    },
                },
            },
        },
    }
}

impl Pokedex {
    /// Assemble the whole dataset from raw table text: every table is
    /// loaded, auxiliary tables are folded into their primary tables in
    /// the fixed dependency order, and the first error met stops the
    /// whole assembly.
    #[verifier::rlimit(100)]
    pub fn new(data: &PokedexData) -> (r: Result<Pokedex, Error>)
        ensures
            spec_pokedex(data@) matches Ok(v) ==> (r matches Ok(dex) && dex@ == v),
            spec_pokedex(data@) matches Err(e) ==> r == Err::<Pokedex, Error>(e),
    {
        let efficacy: EfficacyTable = match from_csv_data::<EfficacyTable>(data.efficacy.as_str()) {
            Ok(t) => t,
            Err(e) => {
                return Err(e);
            },
        };
        let mut items: ItemTable = match from_csv_data::<ItemTable>(data.items.as_str()) {
            Ok(t) => t,
            Err(e) => {
                return Err(e);
            },
        };
        let mut berries: BerryTable = match from_csv_data::<BerryTable>(data.berries.as_str()) {
            Ok(t) => t,
            Err(e) => {
                return Err(e);
            },
        };
        let flavors: BerryFlavorTable = match from_csv_data::<BerryFlavorTable>(data.berry_flavors.as_str()) {
            Ok(t) => t,
            Err(e) => {
                return Err(e);
            },
        };
        let item_flags: crate::items::flags::FlagTable = match from_csv_data::<crate::items::flags::FlagTable>(data.item_flags.as_str()) {
            Ok(t) => t,
            Err(e) => {
                return Err(e);
            },
        };
        let mut moves_table: MoveTable = match from_csv_data::<MoveTable>(data.moves.as_str()) {
            Ok(t) => t,
            Err(e) => {
                return Err(e);
            },
        };
        let mut meta: MetaTable = match from_csv_data::<MetaTable>(data.move_meta.as_str()) {
            Ok(t) => t,
            Err(e) => {
                return Err(e);
            },
        };
        let move_flags: crate::moves::flags::FlagTable = match from_csv_data::<crate::moves::flags::FlagTable>(data.move_flags.as_str()) {
            Ok(t) => t,
            Err(e) => {
                return Err(e);
            },
        };
        let changes: StatChangeTable = match from_csv_data::<StatChangeTable>(data.move_stat_changes.as_str()) {
            Ok(t) => t,
            Err(e) => {
                return Err(e);
            },
        };
        let palace: PalaceTable = match from_csv_data::<PalaceTable>(data.palace.as_str()) {
            Ok(t) => t,
            Err(e) => {
                return Err(e);
            },
        };
        let mut species: SpeciesTable = match from_csv_data::<SpeciesTable>(data.species.as_str()) {
            Ok(t) => t,
            Err(e) => {
                return Err(e);
            },
        };
        let mut pokemon_table: PokemonTable = match from_csv_data::<PokemonTable>(data.pokemon.as_str()) {
            Ok(t) => t,
            Err(e) => {
                return Err(e);
            },
        };
        let ability_table: AbilityTable = match from_csv_data::<AbilityTable>(data.abilities.as_str()) {
            Ok(t) => t,
            Err(e) => {
                return Err(e);
            },
        };
        let form_table: FormTable = match from_csv_data::<FormTable>(data.forms.as_str()) {
            Ok(t) => t,
            Err(e) => {
                return Err(e);
            },
        };
        let pm_table: PokemonMoveTable = match from_csv_data::<PokemonMoveTable>(data.pokemon_moves.as_str()) {
            Ok(t) => t,
            Err(e) => {
                return Err(e);
            },
        };
        let type_table: TypeTable = match from_csv_data::<TypeTable>(data.types.as_str()) {
            Ok(t) => t,
            Err(e) => {
                return Err(e);
            },
        };
        let stat_table: StatTable = match from_csv_data::<StatTable>(data.stats.as_str()) {
            Ok(t) => t,
            Err(e) => {
                return Err(e);
            },
        };
        let egg_table: EggGroupTable = match from_csv_data::<EggGroupTable>(data.egg_groups.as_str()) {
            Ok(t) => t,
            Err(e) => {
                return Err(e);
            },
        };
        let evolution_table: EvolutionTable = match from_csv_data::<EvolutionTable>(data.evolution.as_str()) {
            Ok(t) => t,
            Err(e) => {
                return Err(e);
            },
        };
        berries.set_flavors(&flavors);
        proof {
            assert(berries@ =~= spec_flavored_berries(
                spec_table::<BerryTable>(data@.berries)->Ok_0,
                flavors@,
            ));
        }
        items.set_berries(&berries);
        items.set_flags(&item_flags);
        proof {
            let items0 = spec_table::<ItemTable>(data@.items)->Ok_0;
            let merged = spec_set_berries(items0.items, berries@);
            assert(items@.items =~~= spec_flagged_items(merged, item_flags@));
            assert(items@.ids == items0.ids);
        }
        meta.set_flags(&move_flags);
        proof {
            assert(meta@ =~= spec_meta_with_flags(
                spec_table::<MetaTable>(data@.move_meta)->Ok_0,
                move_flags@,
            ));
        }
        let ghost meta_flagged = meta@;
        meta.set_stat_changes(&changes);
        proof {
            assert(meta@ =~= spec_meta_with_changes(meta_flagged, changes@));
        }
        moves_table.set_meta(&meta);
        proof {
            assert(moves_table@ =~= spec_moves_with_meta(
                spec_table::<MoveTable>(data@.moves)->Ok_0,
                meta@,
            ));
        }
        let ghost pk0 = pokemon_table@;
        pokemon_table.set_abilities(&ability_table);
        proof {
            assert(pokemon_table@ =~~= spec_join_pokemon(
                pk0,
                ability_table@,
                |p: PokemonView, a: Seq<crate::pokemon::PokemonAbilities>| spec_apply_abilities(
                    p,
                    a,
                ),
            ));
        }
        let ghost pk1 = pokemon_table@;
        pokemon_table.set_forms(&form_table);
        proof {
            assert(pokemon_table@ =~~= spec_join_pokemon(
                pk1,
                form_table@,
                |p: PokemonView, a: Seq<Seq<crate::pokemon::FormView>>| spec_apply_forms(p, a),
            ));
        }
        let ghost pk2 = pokemon_table@;
        pokemon_table.set_moves(&pm_table);
        proof {
            assert(pokemon_table@ =~~= spec_join_pokemon(
                pk2,
                pm_table@,
                |p: PokemonView, a: Seq<Seq<Seq<crate::pokemon::PokemonMove>>>| spec_apply_moves(
                    p,
                    a,
                ),
            ));
        }
        let ghost pk3 = pokemon_table@;
        pokemon_table.set_types(&type_table);
        proof {
            assert(pokemon_table@ =~~= spec_join_pokemon(
                pk3,
                type_table@,
                |p: PokemonView, a: Seq<crate::pokemon::TypeSlots>| spec_apply_types(p, a),
            ));
        }
        let ghost pk4 = pokemon_table@;
        pokemon_table.set_stats(&stat_table);
        proof {
            assert(pokemon_table@ =~~= spec_join_pokemon(
                pk4,
                stat_table@,
                |p: PokemonView, a: Seq<crate::pokemon::BaseStats>| spec_apply_stats(p, a),
            ));
            assert(pokemon_table@ == spec_assembled_pokemon(data@)->Ok_0);
        }
        let ghost sp0 = species@;
        species.set_pokemon(&pokemon_table);
        proof {
            assert(species@ =~~= spec_join_species(
                sp0,
                pokemon_table@,
                |sp: SpeciesView, i: int, a: Seq<Seq<PokemonView>>| spec_apply_pokemon(sp, i, a),
            ));
        }
        let ghost sp1 = species@;
        species.set_egg_groups(&egg_table);
        proof {
            assert(species@ =~~= spec_join_species(
                sp1,
                egg_table@,
                |sp: SpeciesView, i: int, a: Seq<Seq<crate::pokemon::EggGroup>>|
                    spec_apply_egg_groups(sp, i, a),
            ));
        }
        let ghost sp2 = species@;
        species.set_evolutions(&evolution_table);
        proof {
            assert(species@ =~~= spec_join_species(
                sp2,
                evolution_table@,
                |sp: SpeciesView, i: int, a: Map<u16, crate::pokemon::EvolvesFrom>|
                    spec_apply_evolution(sp, i, a),
            ));
            assert(species@ == spec_assembled_species(data@)->Ok_0);
        }
        let dex = Pokedex { efficacy, items, moves: moves_table, palace, species };
        proof {
            assert(spec_pokedex(data@) matches Ok(v) && dex@ =~= v);
        }
        Ok(dex)
    }
}

} // verus!
