//! The whole pipeline: a raw pair-list document decoded into the typed
//! record, and the failures it reports, with their full field paths.

use tomuss::error::{ErrorCategory, ErrorKind, PathSeg};
use tomuss::json::JsonValue;
use tomuss::record::TomussData;
use tomuss::tuples::Person;

fn s(x: &str) -> JsonValue {
    JsonValue::Str(x.to_string())
}

fn arr(v: Vec<JsonValue>) -> JsonValue {
    JsonValue::Arr(v)
}

fn obj(v: Vec<(&str, JsonValue)>) -> JsonValue {
    JsonValue::Obj(v.into_iter().map(|(k, x)| (k.to_string(), x)).collect())
}

fn prefs_obj() -> JsonValue {
    let flags = [
        "black_and_white",
        "can_bring_a_pc",
        "compact_suivi",
        "green_prst",
        "hide_civilite",
        "hide_picture",
        "highlight_grade",
        "private_suivi",
        "recursive_formula",
        "show_empty",
        "uniform_width",
        "color_value",
        "hide_right_column",
        "big_text",
        "no_teacher_color",
        "big_box",
        "hide_grade",
    ];
    let mut entries: Vec<(String, JsonValue)> = flags
        .iter()
        .map(|k| (k.to_string(), JsonValue::Int(0)))
        .collect();
    entries.push(("commute_time".to_string(), JsonValue::Int(30)));
    entries.push(("working_hours_per_week".to_string(), JsonValue::Int(35)));
    entries.push(("sunburst_hide_layers".to_string(), JsonValue::Int(0)));
    JsonValue::Obj(entries)
}

fn base_entries() -> Vec<(&'static str, JsonValue)> {
    vec![
        ("Explanation", s("")),
        ("Message", s("")),
        ("MoreOnSuivi", s("")),
        ("Logo", s("")),
        ("GoHome", JsonValue::Int(1)),
        ("GrpMessages", arr(vec![])),
        ("Advertising", JsonValue::Bool(false)),
        ("DA", arr(vec![])),
        ("Abjs", arr(vec![])),
        ("Login", s("jdoe")),
        ("RdV", s("")),
        ("Compte", s("")),
        ("Charte", s("")),
        ("Semesters", obj(vec![("2024-A", s("Autumn"))])),
        ("Signature", s("")),
        ("FST", arr(vec![])),
        ("BilanAPOGEE", s("")),
        ("SetReferent", s("")),
        ("Bilan", s("")),
        ("DateDeNaissance", s("2000-01-01")),
        ("EDT", s("")),
        ("PictureUpload", JsonValue::Bool(false)),
        ("Preferences", prefs_obj()),
        ("Civilite", s("")),
        ("Names", arr(vec![s("Ada"), s("Lovelace"), s("ada@example.com")])),
        (
            "MemberOf",
            obj(vec![("ldap_groups", arr(vec![])), ("other_groups", arr(vec![]))]),
        ),
        ("IA_scol", s("")),
        ("Tables", s("")),
        ("Notes", s("")),
        ("Students", s("")),
        ("FFSU", s("")),
        ("TT", s("")),
        ("RSS", s("")),
        ("RSSStream", arr(vec![])),
        ("Questionnaire", s("")),
        ("UETree", obj(vec![])),
        ("ReferentNP", s("")),
        ("Referent", JsonValue::Null),
        ("Mails", s("")),
        ("choix_TVL", s("")),
        ("IPAnnuelle", obj(vec![])),
        ("P_template", arr(vec![])),
        ("Grades", arr(vec![arr(vec![]), arr(vec![])])),
        ("Profiling", obj(vec![("load", JsonValue::Int(12))])),
    ]
}

fn doc_of(entries: Vec<(&'static str, JsonValue)>) -> JsonValue {
    JsonValue::Arr(
        entries
            .into_iter()
            .map(|(k, v)| JsonValue::Arr(vec![s(k), v]))
            .collect(),
    )
}

#[test]
fn minimal_document_decodes_with_its_fields() {
    let d = TomussData::new(&doc_of(base_entries())).unwrap();
    assert_eq!(d.go_home, true);
    assert_eq!(
        d.names,
        Person {
            name: "Ada".to_string(),
            surname: "Lovelace".to_string(),
            mail: "ada@example.com".to_string(),
        }
    );
    assert_eq!(d.login, "jdoe");
    assert_eq!(d.preferences.commute_time, 30);
    assert_eq!(d.preferences.black_and_white, false);
    assert_eq!(
        d.semesters,
        vec![("2024-A".to_string(), "Autumn".to_string())]
    );
    assert_eq!(d.profiling, vec![("load".to_string(), 12)]);
    assert_eq!(d.referent, JsonValue::Null);
    assert_eq!(d.grades.len(), 0);
}

#[test]
fn names_without_at_sign_fails_at_the_names_field() {
    let mut entries = base_entries();
    entries.push(("Names", arr(vec![s("Ada"), s("Lovelace"), s("adaexample.com")])));
    let e = TomussData::new(&doc_of(entries)).unwrap_err();
    assert_eq!(e.path, vec![PathSeg::Field("Names".to_string())]);
    assert_eq!(e.kind, ErrorKind::NoAtSign { value: "adaexample.com".to_string() });
    assert_eq!(e.category(), ErrorCategory::DomainViolation);
}

#[test]
fn decoding_the_same_document_twice_yields_identical_records() {
    let doc = doc_of(base_entries());
    let d1 = TomussData::new(&doc).unwrap();
    let d2 = TomussData::new(&doc).unwrap();
    assert_eq!(d1, d2);
}

#[test]
fn a_later_pair_overwrites_an_earlier_one() {
    let mut entries = base_entries();
    entries.push(("GoHome", JsonValue::Int(0)));
    let d = TomussData::new(&doc_of(entries)).unwrap();
    assert_eq!(d.go_home, false);
}

#[test]
fn a_flag_outside_zero_one_fails_naming_the_integer() {
    let mut entries = base_entries();
    entries.push(("GoHome", JsonValue::Int(2)));
    let e = TomussData::new(&doc_of(entries)).unwrap_err();
    assert_eq!(e.path, vec![PathSeg::Field("GoHome".to_string())]);
    assert_eq!(e.kind, ErrorKind::NotZeroOrOne { value: 2 });
    assert_eq!(e.category(), ErrorCategory::DomainViolation);
}

#[test]
fn a_missing_required_field_is_reported_by_name() {
    let mut entries = base_entries();
    entries.retain(|(k, _)| *k != "Login");
    let e = TomussData::new(&doc_of(entries)).unwrap_err();
    assert_eq!(e.path, vec![PathSeg::Field("Login".to_string())]);
    assert_eq!(e.kind, ErrorKind::Missing);
    assert_eq!(e.category(), ErrorCategory::MissingField);
}

#[test]
fn a_bad_preference_flag_carries_the_nested_path() {
    let mut entries = base_entries();
    if let JsonValue::Obj(ref mut p) = entries[22].1 {
        p.push(("hide_grade".to_string(), JsonValue::Int(3)));
    }
    assert_eq!(entries[22].0, "Preferences");
    let e = TomussData::new(&doc_of(entries)).unwrap_err();
    assert_eq!(
        e.path,
        vec![
            PathSeg::Field("Preferences".to_string()),
            PathSeg::Field("hide_grade".to_string()),
        ]
    );
    assert_eq!(e.kind, ErrorKind::NotZeroOrOne { value: 3 });
}

#[test]
fn a_bad_semester_value_names_field_and_key() {
    let mut entries = base_entries();
    entries.push(("Semesters", obj(vec![("2024-A", JsonValue::Int(7))])));
    let e = TomussData::new(&doc_of(entries)).unwrap_err();
    assert_eq!(
        e.path,
        vec![
            PathSeg::Field("Semesters".to_string()),
            PathSeg::Field("2024-A".to_string()),
        ]
    );
    assert_eq!(e.kind, ErrorKind::NotAString);
}

#[test]
fn a_non_empty_grades_sentinel_fails_under_the_grades_field() {
    let mut entries = base_entries();
    entries.push(("Grades", arr(vec![arr(vec![]), arr(vec![JsonValue::Int(1)])])));
    let e = TomussData::new(&doc_of(entries)).unwrap_err();
    assert_eq!(
        e.path,
        vec![PathSeg::Field("Grades".to_string()), PathSeg::Index(1)]
    );
    assert_eq!(e.kind, ErrorKind::WrongLength { expected: 0, actual: 1 });
    assert_eq!(e.category(), ErrorCategory::StructuralError);
}

#[test]
fn a_document_that_is_not_a_pair_list_is_rejected() {
    let e = TomussData::new(&s("nonsense")).unwrap_err();
    assert_eq!(e.kind, ErrorKind::NotAnArray);
    assert!(e.path.is_empty());
}

#[test]
fn unknown_fields_are_ignored() {
    let mut entries = base_entries();
    entries.push(("SomethingNewUpstream", JsonValue::Int(9)));
    let d = TomussData::new(&doc_of(entries)).unwrap();
    assert_eq!(d.login, "jdoe");
}
