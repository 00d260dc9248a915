//! Assembling a whole Pokédex from a small, consistent set of raw
//! tables, and checking the denormalized results.

use vdex::items::{Flags, FlingEffect, ItemId};
use vdex::moves::{BattleStyle, DamageClass, Effect, LearnMethod, MoveId, Target};
use vdex::pokemon::{EggGroup, Gender, OneOrTwo, PokemonId, SpeciesId};
use vdex::{Ability, Efficacy, Nature, Pokedex, PokedexData, Type};

fn sample_data() -> PokedexData {
    PokedexData {
        efficacy: "10,12,200\n".to_string(),
        items: "101,oran-berry,3,100,,\n17,potion,27,300,30,\n".to_string(),
        berries: "1,101,x,60,11\n".to_string(),
        berry_flavors: "1,1,10\n1,5,0\n".to_string(),
        item_flags: "101,1\n101,2\n".to_string(),
        moves: "33,tackle,1,1,50,35,100,0,10,2,1,\n45,growl,1,1,0,40,100,0,11,1,19,\n"
            .to_string(),
        move_meta: "33,0,0,,,,,0,0,0,0,0,0\n".to_string(),
        move_flags: "33,1\n33,4\n".to_string(),
        move_stat_changes: "45,2,-1\n".to_string(),
        palace: "1,1,30,20\n1,2,30,20\n1,3,40,60\n".to_string(),
        species: "1,bulbasaur,1,,,,,,1\n2,ivysaur,1,1,,,,,1\n".to_string(),
        pokemon: "1,1\n2,2\n".to_string(),
        abilities: "1,65,x,1\n1,34,x,3\n".to_string(),
        forms: "1,,1,x,x,0\n".to_string(),
        pokemon_moves: "1,1,33,1,7\n".to_string(),
        types: "1,12,1\n1,4,2\n".to_string(),
        stats: "1,1,45\n1,2,49\n".to_string(),
        egg_groups: "1,1\n1,7\n".to_string(),
        evolution: "1,2,1,,16,,,,,,,,\n".to_string(),
    }
}

#[test]
fn assembles_and_joins_every_table() {
    let dex = match Pokedex::new(&sample_data()) {
        Ok(d) => d,
        Err(e) => panic!("assembly failed: {:?}", e),
    };

    // Efficacy: one loaded pair, everything else regular.
    assert_eq!(dex.efficacy.efficacy(Type::Fire, Type::Grass), Efficacy::Super);
    assert_eq!(dex.efficacy.efficacy(Type::Fire, Type::Water), Efficacy::Regular);

    // Items: berry and flags denormalized in.
    let oran = dex.items.get(ItemId(101)).unwrap();
    assert_eq!(oran.name, "OranBerry");
    assert_eq!(oran.cost, 100);
    assert_eq!(oran.fling_power, None);
    assert_eq!(oran.fling_effect, FlingEffect::NoEffect);
    assert_eq!(oran.flags, Flags(0b11));
    let berry = oran.berry.unwrap();
    assert_eq!(berry.item, ItemId(101));
    assert_eq!(berry.natural_gift_power, 60);
    assert_eq!(berry.natural_gift_type, Type::Water);
    assert_eq!(berry.flavor, Some(vdex::items::Flavor::Spicy));
    let potion = dex.items.get(ItemId(17)).unwrap();
    assert_eq!(potion.name, "Potion");
    assert_eq!(potion.fling_power, Some(30));
    assert_eq!(potion.flags, Flags(0));
    assert!(potion.berry.is_none());
    assert!(dex.items.get(ItemId(1)).is_none());

    // Moves: meta, flags, and stat changes denormalized in.
    let tackle = dex.moves.get(MoveId(32));
    assert_eq!(tackle.name, "Tackle");
    assert_eq!(tackle.typ, Type::Normal);
    assert_eq!(tackle.power, 50);
    assert_eq!(tackle.pp, 35);
    assert_eq!(tackle.accuracy, Some(100));
    assert_eq!(tackle.priority, 0);
    assert_eq!(tackle.target, Target::SelectedPokemon);
    assert_eq!(tackle.damage_class, DamageClass::Physical);
    assert_eq!(tackle.effect, Effect::RegularDamage);
    assert_eq!(tackle.meta.category, vdex::moves::Category::Damage);
    assert_eq!(tackle.meta.ailment, vdex::moves::Ailment::NoAilment);
    assert_eq!(tackle.meta.flags, vdex::moves::Flags(0b1001));
    assert_eq!(tackle.meta.hits, None);
    let growl = dex.moves.get(MoveId(44));
    assert_eq!(growl.name, "Growl");
    assert_eq!(growl.meta.stat_changes.attack, -1);
    assert_eq!(growl.meta.stat_changes.defense, 0);

    // Palace: weighted style selection for the one loaded nature.
    assert_eq!(dex.palace.low.pick_style(10, Nature::Hardy), BattleStyle::Attack);
    assert_eq!(dex.palace.high.pick_style(30, Nature::Hardy), BattleStyle::Defense);

    // Species: the full denormalized entity.
    let bulba = dex.species.get(SpeciesId(0));
    assert_eq!(bulba.name, "Bulbasaur");
    assert_eq!(bulba.gender_rate, 1);
    assert!(matches!(
        bulba.egg_groups,
        OneOrTwo::Two(EggGroup::Monster, EggGroup::Plant)
    ));
    assert!(bulba.evolves_from.is_none());
    assert_eq!(bulba.pokemon.len(), 1);
    let p = &bulba.pokemon[0];
    assert_eq!(p.id, PokemonId(0));
    assert!(matches!(p.abilities, OneOrTwo::One(Ability::Overgrow)));
    assert_eq!(p.hidden_ability, Some(Ability::Chlorophyll));
    assert!(matches!(p.types, OneOrTwo::Two(Type::Grass, Type::Poison)));
    assert_eq!(p.stats.hp, 45);
    assert_eq!(p.stats.attack, 49);
    assert_eq!(p.forms.len(), 1);
    assert_eq!(p.forms[0].id, 1);
    assert_eq!(p.forms[0].name, None);
    assert!(!p.forms[0].battle_only);
    // Version group 1 is the first slot; the one learned move is there.
    assert_eq!(p.moves[0].len(), 1);
    assert_eq!(p.moves[0][0].move_id, MoveId(32));
    assert_eq!(p.moves[0][0].learn_method, LearnMethod::LevelUp);
    assert_eq!(p.moves[0][0].level, 7);
    assert!(p.moves[1].is_empty());

    let ivy = dex.species.get(SpeciesId(1));
    assert_eq!(ivy.name, "Ivysaur");
    let evo = ivy.evolves_from.unwrap();
    assert_eq!(evo.from_id, SpeciesId(0));
    assert_eq!(evo.trigger, vdex::pokemon::EvolutionTrigger::LevelUp);
    assert_eq!(evo.level, 16);
    assert_eq!(evo.gender, Gender::Genderless);
    assert_eq!(evo.relative_physical_stats, None);
    // A species with no Pokémon rows owns an empty list.
    assert!(dex.species.get(SpeciesId(5)).pokemon.is_empty());
}

#[test]
fn assembly_stops_at_the_first_error() {
    let mut data = sample_data();
    data.moves = "33,tackle,1,1,50,35,100,0,10,2,999,\n".to_string();
    let err = match Pokedex::new(&data) {
        Ok(_) => panic!("assembly should have stopped"),
        Err(e) => e,
    };
    assert_eq!(
        err,
        vdex::csv::Error::Veekun {
            line: Some(1),
            field: 10,
            error: vdex::csv::VeekunError::Value(999),
        }
    );
}

#[test]
fn zero_evolves_from_means_no_predecessor() {
    let mut data = sample_data();
    data.species = "1,bulbasaur,1,,,,,,1\n2,ivysaur,1,0,,,,,1\n".to_string();
    let dex = match Pokedex::new(&data) {
        Ok(d) => d,
        Err(e) => panic!("assembly failed: {:?}", e),
    };
    // The zero sentinel decodes to absent: no back-reference is made.
    assert!(dex.species.get(SpeciesId(1)).evolves_from.is_none());
}

#[test]
fn out_of_domain_move_rows_are_skipped() {
    let mut data = sample_data();
    data.moves =
        "33,tackle,1,1,50,35,100,0,10,2,1,\n10001,shadow-rush,1,1,55,,,0,10,2,1,\n".to_string();
    let dex = match Pokedex::new(&data) {
        Ok(d) => d,
        Err(e) => panic!("assembly failed: {:?}", e),
    };
    assert_eq!(dex.moves.get(MoveId(32)).name, "Tackle");
}
