//! Table stores and aggregation rules: dense construction, bitflag
//! accumulation, dominant-flavor selection, percentage-sum validation,
//! and grouped append.

use vdex::aggregate::dominant_index;
use vdex::csv::{from_csv_data, Error, MiscError, VeekunError};
use vdex::items::berries::{BerryFlavorTable, BerryTable};
use vdex::items::{Flags, ItemId};
use vdex::moves::MoveId;
use vdex::pokemon::{AbilityTable, FormTable, PokemonId, SpeciesId, StatTable};
use vdex::items::Flavor;
use vdex::moves::BattleStyle;
use vdex::FromVeekun;
use vdex::Efficacy;
use vdex::EfficacyTable;
use vdex::PalaceTable;
use vdex::Nature;
use vdex::Type;

#[test]
fn efficacy_table_is_dense_and_defaults_to_regular() {
    // damage 9 (Fire), target 11 (Grass), efficacy 200 (double damage).
    let table: EfficacyTable = from_csv_data("10,12,200\n4,9,0\n").unwrap();
    assert_eq!(table.0.len(), 17 * 17);
    assert_eq!(table.efficacy(Type::Fire, Type::Grass), Efficacy::Super);
    assert_eq!(table.efficacy(Type::Poison, Type::Steel), Efficacy::Not);
    assert_eq!(table.efficacy(Type::Water, Type::Water), Efficacy::Regular);
}

#[test]
fn flag_accumulation_is_commutative_and_idempotent() {
    // The same flag rows in two different orders, one flag repeated.
    let a: vdex::items::flags::FlagTable = from_csv_data("5,1\n5,3\n5,1\n9,2\n").unwrap();
    let b: vdex::items::flags::FlagTable = from_csv_data("9,2\n5,3\n5,1\n").unwrap();
    assert_eq!(a.get(ItemId(5)), Some(Flags(0b101)));
    assert_eq!(b.get(ItemId(5)), Some(Flags(0b101)));
    assert_eq!(a.get(ItemId(9)), Some(Flags(0b10)));
    assert_eq!(a.get(ItemId(1)), None);
}

#[test]
fn move_flag_accumulation_matches() {
    let t: vdex::moves::flags::FlagTable = from_csv_data("33,14\n33,1\n").unwrap();
    assert_eq!(t.get(MoveId(32)), Some(vdex::moves::Flags(0x2001)));
}

#[test]
fn dominant_selection_ties_to_none() {
    // Two candidates with weights (50, 50) tie: no dominant category.
    assert_eq!(dominant_index(&vec![50, 50]), None);
    // Weights (60, 40) pick the first.
    assert_eq!(dominant_index(&vec![60, 40]), Some(0));
    // Nothing contributed: no winner.
    assert_eq!(dominant_index(&vec![0, 0, 0]), None);
    assert_eq!(dominant_index(&vec![0, 10, 10, 0, 5]), None);
    assert_eq!(dominant_index(&vec![0, 10, 20, 0, 5]), Some(2));
}

#[test]
fn berry_flavors_pick_the_dominant_flavor() {
    // Berry 1 (slot 0): spicy (contest 1) 60, sour (contest 5) 40.
    // Berry 2 (slot 1): spicy 50, sour 50 - a tie, so no flavor.
    let flavors: BerryFlavorTable =
        from_csv_data("1,1,60\n1,5,40\n2,1,50\n2,5,50\n").unwrap();
    let mut berries: BerryTable = from_csv_data("1,101,x,10,2\n2,102,x,20,3\n").unwrap();
    berries.set_flavors(&flavors);
    assert_eq!(berries.0[0].flavor, Some(Flavor::Spicy));
    assert_eq!(berries.0[1].flavor, None);
    assert_eq!(berries.0[0].item, ItemId(101));
    assert_eq!(berries.0[0].natural_gift_power, 10);
    // Raw type 2 is one-based: it decodes to the second type code.
    assert_eq!(berries.0[0].natural_gift_type, Type::Fighting);
}

#[test]
fn palace_sums_that_reach_hundred_succeed() {
    // Nature 1 (Hardy): attack rows give (low 30, high 20), defense rows
    // (low 30, high 20); the closing support row supplies (40, 60).
    let text = "1,1,30,20\n1,2,30,20\n1,3,40,60\n";
    let table: PalaceTable = from_csv_data(text).unwrap();
    assert_eq!(table.low.attack[0], 30);
    assert_eq!(table.low.defense[0], 30);
    assert_eq!(table.high.attack[0], 20);
    assert_eq!(table.high.defense[0], 20);
}

#[test]
fn palace_sum_of_ninety_nine_fails_low_context() {
    let text = "1,1,30,20\n1,2,30,20\n1,3,39,60\n";
    let r: Result<PalaceTable, Error> = from_csv_data(text);
    let err = match r {
        Ok(_) => panic!("validation should have failed"),
        Err(e) => e,
    };
    assert_eq!(
        err,
        Error::Veekun {
            line: Some(3),
            field: 2,
            error: VeekunError::Misc(MiscError("Preferences must sum to 100.")),
        }
    );
}

#[test]
fn palace_sum_of_hundred_one_fails_high_context() {
    let text = "1,1,30,20\n1,2,30,20\n1,3,40,61\n";
    let r: Result<PalaceTable, Error> = from_csv_data(text);
    let err = match r {
        Ok(_) => panic!("validation should have failed"),
        Err(e) => e,
    };
    assert_eq!(
        err,
        Error::Veekun {
            line: Some(3),
            field: 3,
            error: VeekunError::Misc(MiscError("Preferences must sum to 100.")),
        }
    );
}

#[test]
fn palace_picks_style_by_weights() {
    let table: PalaceTable = from_csv_data("1,1,30,20\n1,2,30,20\n1,3,40,60\n").unwrap();
    assert_eq!(table.low.pick_style(0, Nature::Hardy), BattleStyle::Attack);
    assert_eq!(table.low.pick_style(29, Nature::Hardy), BattleStyle::Attack);
    assert_eq!(table.low.pick_style(30, Nature::Hardy), BattleStyle::Defense);
    assert_eq!(table.low.pick_style(59, Nature::Hardy), BattleStyle::Defense);
    assert_eq!(table.low.pick_style(60, Nature::Hardy), BattleStyle::Support);
    assert_eq!(table.high.pick_style(50, Nature::Hardy), BattleStyle::Support);
}

#[test]
fn grouped_append_keeps_insertion_order() {
    // Child rows name parents by raw id: raw 4 is slot 3, raw 8 slot 7.
    // Fields: form id, name, parent, (unused), (unused), battle-only.
    let text = "21,alpha,4,x,x,0\n22,beta,4,x,x,1\n23,gamma,8,x,x,0\n";
    let forms: FormTable = from_csv_data(text).unwrap();
    assert_eq!(forms.0[3].len(), 2);
    assert_eq!(forms.0[3][0].id, 21);
    assert_eq!(forms.0[3][0].name.as_deref(), Some("alpha"));
    assert!(!forms.0[3][0].battle_only);
    assert_eq!(forms.0[3][1].id, 22);
    assert!(forms.0[3][1].battle_only);
    assert_eq!(forms.0[7].len(), 1);
    assert_eq!(forms.0[7][0].name.as_deref(), Some("gamma"));
    // A parent with no child rows owns an empty sequence, not an error.
    assert_eq!(forms.0[0].len(), 0);
    assert_eq!(forms.0.len(), 673);
}

#[test]
fn dense_identifiers_round_trip() {
    // Decoding a raw identifier and re-encoding it yields the raw value.
    for raw in [1u16, 2, 100, 559] {
        let id = MoveId::from_veekun(raw).unwrap();
        assert_eq!(id.0 + 1, raw);
    }
    assert_eq!(MoveId::from_veekun(560), None);
    assert_eq!(PokemonId::from_veekun(673), Some(PokemonId(672)));
    assert_eq!(PokemonId::from_veekun(674), None);
    assert_eq!(SpeciesId::from_veekun(649), Some(SpeciesId(648)));
    assert_eq!(SpeciesId::from_veekun(650), None);
    // The zero sentinel decodes to absent for every identifier kind,
    // never to the first entity.
    assert_eq!(MoveId::from_veekun(0), None);
    assert_eq!(PokemonId::from_veekun(0), None);
    assert_eq!(SpeciesId::from_veekun(0), None);
    assert_eq!(vdex::items::BerryId::from_veekun(0), None);
    assert_eq!(ItemId::from_veekun(0), None);
}

#[test]
fn ability_slot_out_of_range_is_a_validation_error() {
    let r: Result<AbilityTable, Error> = from_csv_data("1,65,x,4\n");
    let err = match r {
        Ok(_) => panic!("slot 4 should be rejected"),
        Err(e) => e,
    };
    assert_eq!(
        err,
        Error::Veekun {
            line: Some(1),
            field: 3,
            error: VeekunError::Misc(MiscError("Invalid slot number")),
        }
    );
}

#[test]
fn battle_only_stat_rows_are_value_errors() {
    // Stat 7 (accuracy) exists, but is not a permanent stat.
    let r: Result<StatTable, Error> = from_csv_data("1,7,10\n");
    let err = match r {
        Ok(_) => panic!("accuracy rows should be rejected"),
        Err(e) => e,
    };
    assert_eq!(
        err,
        Error::Veekun { line: Some(1), field: 1, error: VeekunError::Value(7) }
    );
}

#[test]
fn later_rows_for_a_key_overwrite_earlier_ones() {
    // The same slot written twice: the last applicable row wins.
    let table: EfficacyTable = from_csv_data("10,12,50\n10,12,200\n").unwrap();
    assert_eq!(table.efficacy(Type::Fire, Type::Grass), Efficacy::Super);
}

#[test]
fn fresh_tables_are_empty() {
    let flags = vdex::items::flags::FlagTable::new();
    assert_eq!(flags.get(ItemId(1)), None);
    let berries = BerryTable::new();
    assert_eq!(berries.0.len(), 64);
    assert_eq!(berries.0[0].item, ItemId(0));
    let palace = PalaceTable::new();
    assert_eq!(palace.low.attack.len(), 25);
    assert_eq!(palace.low.attack[7], 0);
}
