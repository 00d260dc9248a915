//! Sanity checks of the enumerated types' integer codes, and the
//! lossless round trip between values and codes.

use vdex::items;
use vdex::items::Flavor;
use vdex::moves;
use vdex::pokemon;
use vdex::versions;
use vdex::versions::{Generation, Version, VersionGroup};
use vdex::Ability;
use vdex::Efficacy;
use vdex::Enum;
use vdex::Nature;
use vdex::Stat;
use vdex::Type;

#[test]
fn assert_sanity() {
    assert_eq!(Ability::Teravolt.repr(), 164);
    assert_eq!(Efficacy::Super.repr(), 1);
    assert_eq!(Nature::Quirky.repr(), 24);
    assert_eq!(Type::Dark.repr(), 16);
    assert_eq!(Stat::Evasion.repr(), 6);
    assert_eq!(items::Category::StatusCures.repr(), 30);
    assert_eq!(items::Category::MiracleShooter.repr(), 43);
    assert_eq!(items::Flavor::Bitter.repr(), 4);
    assert_eq!(items::FlingEffect::Flinch.repr(), 7);
    assert_eq!(items::Pocket::Key.repr(), 7);
    assert_eq!(moves::Ailment::Nightmare.repr(), 9);
    assert_eq!(moves::Ailment::HealBlock.repr(), 15);
    assert_eq!(moves::Ailment::Ingrain.repr(), 21);
    assert_eq!(moves::BattleStyle::Support.repr(), 2);
    assert_eq!(moves::Category::Unique.repr(), 13);
    assert_eq!(moves::DamageClass::Special.repr(), 2);
    assert_eq!(moves::Effect::RaiseUserDefense.repr(), 12);
    assert_eq!(moves::Effect::LowerTargetSpeed.repr(), 21);
    assert_eq!(moves::Effect::RaiseUserSpecialDefense2.repr(), 55);
    assert_eq!(moves::Effect::LowerTargetSpeed2.repr(), 61);
    assert_eq!(moves::Effect::ChanceLowerTargetAccuracy.repr(), 74);
    assert_eq!(moves::Effect::Sketch.repr(), 96);
    assert_eq!(moves::Effect::Curse.repr(), 110);
    assert_eq!(moves::Effect::Sonicboom.repr(), 131);
    assert_eq!(moves::Effect::ChanceRaiseUserAllStats.repr(), 141);
    assert_eq!(moves::Effect::DefenseCurl.repr(), 157);
    assert_eq!(moves::Effect::Swallow.repr(), 163);
    assert_eq!(moves::Effect::Bounce.repr(), 264);
    assert_eq!(moves::Effect::IceBurn.repr(), 333);
    assert_eq!(moves::Effect::Hurricane.repr(), 338);
    assert_eq!(moves::LearnMethod::FormChange.repr(), 9);
    assert_eq!(moves::Target::EntireField.repr(), 11);
    assert_eq!(pokemon::EggGroup::NoEggs.repr(), 15);
    assert_eq!(pokemon::EvolutionTrigger::Shed.repr(), 4);
    assert_eq!(pokemon::Gender::Genderless.repr(), 3);
    assert_eq!(versions::Generation::V.repr(), 4);
    assert_eq!(versions::Version::White2.repr(), 21);
    assert_eq!(versions::VersionGroup::BlackWhite2.repr(), 13);
}

#[test]
fn enum_code_round_trips() {
    assert_eq!(Type::from_repr(Type::Dark.repr()), Some(Type::Dark));
    assert_eq!(Efficacy::from_repr(Efficacy::Not.repr()), Some(Efficacy::Not));
    assert_eq!(Stat::from_repr(Stat::HP.repr()), Some(Stat::HP));
    assert_eq!(
        moves::Effect::from_repr(moves::Effect::Hurricane.repr()),
        Some(moves::Effect::Hurricane)
    );
    assert_eq!(Ability::from_repr(Ability::Teravolt.repr()), Some(Ability::Teravolt));
    assert_eq!(Nature::from_repr(25), None);
    assert_eq!(Type::from_repr(17), None);
    assert_eq!(Type::from_repr(-1), None);
}

#[test]
fn enum_counts() {
    assert_eq!(Type::count(), 17);
    assert_eq!(Nature::count(), 25);
    assert_eq!(items::Flavor::count(), 5);
    assert_eq!(versions::VersionGroup::count(), 14);
    assert_eq!(Ability::count(), 164);
}

#[test]
fn version_groups_and_generations() {
    assert_eq!(Version::Yellow.group(), VersionGroup::Yellow);
    assert_eq!(Version::Emerald.group(), VersionGroup::Emerald);
    assert_eq!(Version::XD.generation(), Generation::III);
    assert_eq!(Version::White2.generation(), Generation::V);
    assert_eq!(VersionGroup::Crystal.generation(), Generation::II);
}

#[test]
fn nature_flavor_and_stats() {
    assert_eq!(Nature::Hardy.disliked(), None);
    assert_eq!(Nature::Hardy.increased(), None);
    assert_eq!(Nature::Hardy.decreased(), None);
    // Lonely raises Attack and lowers Defense, so it dislikes the
    // lowered stat's flavor: Sour.
    assert_eq!(Nature::Lonely.disliked(), Some(Flavor::Sour));
    assert_eq!(Nature::Lonely.increased(), Some(Stat::Attack));
    assert_eq!(Nature::Lonely.decreased(), Some(Stat::Defense));
    // Adamant raises Attack and lowers Special Attack; it dislikes Dry.
    assert_eq!(Nature::Adamant.disliked(), Some(Flavor::Dry));
    assert_eq!(Nature::Adamant.increased(), Some(Stat::Attack));
    assert_eq!(Nature::Adamant.decreased(), Some(Stat::SpecialAttack));
    assert_eq!(Nature::Quirky.disliked(), None);
}

#[test]
fn enum_values_enumerate_in_declaration_order() {
    assert_eq!(
        Flavor::values(),
        vec![Flavor::Spicy, Flavor::Sour, Flavor::Sweet, Flavor::Dry, Flavor::Bitter]
    );
    let types = Type::values();
    assert_eq!(types.len(), 17);
    assert_eq!(types[0], Type::Normal);
    assert_eq!(types[16], Type::Dark);
    assert_eq!(moves::Effect::values().len(), 317);
    assert_eq!(Ability::values().len(), 164);
    assert_eq!(Ability::values()[163], Ability::Teravolt);
}

#[test]
fn category_pockets() {
    assert_eq!(items::Category::Healing.pocket(), items::Pocket::Medicine);
    assert_eq!(items::Category::Machines.pocket(), items::Pocket::Machines);
    assert_eq!(items::Category::StatBoosts.pocket(), items::Pocket::Battle);
    assert!(items::Category::Loot.unused());
    assert!(!items::Category::Healing.unused());
}

#[test]
fn ailment_volatility() {
    assert!(!moves::Ailment::Paralysis.volatile());
    assert!(!moves::Ailment::Burn.volatile());
    assert!(moves::Ailment::Confusion.volatile());
    assert!(moves::Ailment::NoAilment.volatile());
}
