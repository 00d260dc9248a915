//! Field decoding: parsing, domain projection, defaults, blanks, and
//! the error kinds with their provenance.

use vdex::csv::{parse_records, Error, MiscError, Record, VeekunError};
use vdex::repr::{from_field, from_option_field, from_veekun_option_field};
use vdex::items::ItemId;
use vdex::to_pascal_case;
use vdex::Efficacy;
use vdex::Type;
use vdex::repr::string_field;
use vdex::pokemon::SpeciesId;

fn record(fields: &[&str]) -> Record {
    Record {
        line: Some(7),
        fields: fields.iter().map(|f| f.to_string()).collect(),
    }
}

#[test]
fn check_pascal_case() {
    assert_eq!(to_pascal_case("master-ball"), "MasterBall");
}

#[test]
fn pascal_case_words() {
    assert_eq!(to_pascal_case("x"), "X");
    assert_eq!(to_pascal_case(""), "");
    assert_eq!(to_pascal_case("already-Upper"), "AlreadyUpper");
    assert_eq!(to_pascal_case("a-b-c"), "ABC");
}

#[test]
fn records_split_on_commas_and_lines() {
    let recs = parse_records("a,b,c\nd,e\n");
    assert_eq!(recs.len(), 2);
    assert_eq!(recs[0].fields, vec!["a", "b", "c"]);
    assert_eq!(recs[0].line, Some(1));
    assert_eq!(recs[1].fields, vec!["d", "e"]);
    assert_eq!(recs[1].line, Some(2));
    assert_eq!(parse_records("").len(), 0);
    let crlf = parse_records("x,y\r\nz\r\n");
    assert_eq!(crlf[0].fields, vec!["x", "y"]);
    assert_eq!(crlf[1].fields, vec!["z"]);
}

#[test]
fn parse_error_for_malformed_field() {
    let rec = record(&["nonsense"]);
    let r: Result<u8, Error> = from_field(&rec, 0);
    assert_eq!(
        r,
        Err(Error::Veekun { line: Some(7), field: 0, error: VeekunError::Parse })
    );
}

#[test]
fn value_error_for_unrecognized_code() {
    // 75 parses fine but is not a recognized efficacy level.
    let rec = record(&["75"]);
    let r: Result<Efficacy, Error> = from_field(&rec, 0);
    assert_eq!(
        r,
        Err(Error::Veekun { line: Some(7), field: 0, error: VeekunError::Value(75) })
    );
    assert_eq!(from_field::<Efficacy>(&record(&["200"]), 0), Ok(Efficacy::Super));
}

#[test]
fn record_length_error_for_short_record() {
    let rec = record(&["1"]);
    let r: Result<u8, Error> = from_field(&rec, 3);
    assert_eq!(r, Err(Error::RecordLength { line: Some(7), index: 3 }));
    assert_eq!(r.unwrap_err().line(), Some(7));
}

#[test]
fn blank_field_takes_default() {
    let rec = record(&["  "]);
    assert_eq!(from_option_field::<u8>(&rec, 0, 42), Ok(42));
    // A non-blank malformed field still fails even with a default.
    let bad = record(&["zzz"]);
    assert_eq!(
        from_option_field::<u8>(&bad, 0, 42),
        Err(Error::Veekun { line: Some(7), field: 0, error: VeekunError::Parse })
    );
}

#[test]
fn blank_field_is_domain_absent() {
    let rec = record(&[""]);
    let r = from_veekun_option_field::<u8>(&rec, 0).unwrap();
    assert_eq!(r.0, None);
    let filled = record(&["9"]);
    assert_eq!(from_veekun_option_field::<u8>(&filled, 0).unwrap().0, Some(9));
}

#[test]
fn zero_foreign_key_decodes_to_absent() {
    // The raw value 0 is the "no item" sentinel: through the optional
    // decoder it is domain absent (not a decode error, and never a
    // valid identifier); through the plain decoder it is a located
    // value error.
    let rec = record(&["0"]);
    assert_eq!(from_veekun_option_field::<ItemId>(&rec, 0).unwrap().0, None);
    assert_eq!(
        from_field::<ItemId>(&rec, 0),
        Err(Error::Veekun { line: Some(7), field: 0, error: VeekunError::Value(0) })
    );
    let blank = record(&[" "]);
    assert_eq!(from_veekun_option_field::<ItemId>(&blank, 0).unwrap().0, None);
    assert_eq!(from_field::<ItemId>(&record(&["12"]), 0), Ok(ItemId(12)));
    // An out-of-range foreign key is absent too, never a wrong entity.
    let far = record(&["700"]);
    assert_eq!(from_veekun_option_field::<SpeciesId>(&far, 0).unwrap().0, None);
}

#[test]
fn signed_fields_parse() {
    assert_eq!(from_field::<i8>(&record(&["-2"]), 0), Ok(-2));
    assert_eq!(from_field::<i8>(&record(&["-128"]), 0), Ok(-128));
    assert_eq!(from_field::<i8>(&record(&["127"]), 0), Ok(127));
    assert!(from_field::<i8>(&record(&["128"]), 0).is_err());
    assert!(from_field::<i8>(&record(&["-129"]), 0).is_err());
}

#[test]
fn type_decodes_shifted_by_one() {
    assert_eq!(from_field::<Type>(&record(&["1"]), 0), Ok(Type::Normal));
    assert_eq!(from_field::<Type>(&record(&["17"]), 0), Ok(Type::Dark));
    assert_eq!(
        from_field::<Type>(&record(&["18"]), 0),
        Err(Error::Veekun { line: Some(7), field: 0, error: VeekunError::Value(18) })
    );
}

#[test]
fn misc_error_wraps_its_text() {
    let e = MiscError("Preferences must sum to 100.");
    assert_eq!(e.0, "Preferences must sum to 100.");
}

#[test]
fn string_fields_are_read_verbatim() {
    let rec = record(&["cheri-berry", "  "]);
    let s = string_field(&rec, 0).unwrap();
    assert_eq!(s.as_str(), "cheri-berry");
    let blank = string_field(&rec, 1).unwrap();
    assert_eq!(blank.as_str(), "  ");
    assert!(string_field(&rec, 2).is_err());
}

#[test]
fn leading_plus_signs_parse() {
    assert_eq!(from_field::<u8>(&record(&["+42"]), 0), Ok(42));
    assert_eq!(from_field::<i8>(&record(&["+5"]), 0), Ok(5));
    assert!(from_field::<u8>(&record(&["+"]), 0).is_err());
    assert!(from_field::<i8>(&record(&["+-5"]), 0).is_err());
    assert!(from_field::<u8>(&record(&["++1"]), 0).is_err());
}

#[test]
fn unicode_whitespace_counts_as_blank() {
    // A no-break space field is blank: the default applies, and the
    // optional decoder reads it as absent.
    let rec = record(&["\u{a0}\u{2003}"]);
    assert_eq!(from_option_field::<u8>(&rec, 0, 9), Ok(9));
    assert_eq!(from_veekun_option_field::<u8>(&rec, 0).unwrap().0, None);
}
