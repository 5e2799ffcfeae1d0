//! The sub-record decoders: persons, absences, memberships, columns and
//! the grade-feed envelope, on concrete values.

use tomuss::error::{ErrorCategory, ErrorKind, PathSeg};
use tomuss::grades::{grades_vec_of, Freezed, GradeColumn, GradeType};
use tomuss::json::JsonValue;
use tomuss::member::MemberOf;
use tomuss::tuples::{JustifiedAbsence, Person};

fn s(x: &str) -> JsonValue {
    JsonValue::Str(x.to_string())
}

fn arr(v: Vec<JsonValue>) -> JsonValue {
    JsonValue::Arr(v)
}

fn obj(v: Vec<(&str, JsonValue)>) -> JsonValue {
    JsonValue::Obj(v.into_iter().map(|(k, x)| (k.to_string(), x)).collect())
}

fn column_obj() -> Vec<(&'static str, JsonValue)> {
    vec![
        ("type", s("Note")),
        ("author", s("prof")),
        ("position", JsonValue::Int(1)),
        ("title", s("Exam")),
        ("the_id", s("c1")),
    ]
}

fn grade_obj(title: &str) -> JsonValue {
    obj(vec![
        ("masters", arr(vec![])),
        ("rounding", JsonValue::Int(2)),
        ("contains_users", JsonValue::Int(0)),
        ("default_sort_column", arr(vec![])),
        ("competence", s("")),
        ("table_title", s(title)),
        ("popup_on_red_line", JsonValue::Int(0)),
        ("managers", arr(vec![])),
        ("code", JsonValue::Int(1)),
        ("bookmark", JsonValue::Int(0)),
        ("dates", arr(vec![JsonValue::Int(20240101), JsonValue::Float("0.5".to_string())])),
        ("official_ue", JsonValue::Int(1)),
        ("ue", s("INF101")),
        ("year", JsonValue::Int(2024)),
        ("columns", arr(vec![obj(column_obj())])),
        ("line_id", s("L1")),
        ("line", arr(vec![])),
        ("stats", JsonValue::Null),
    ])
}

#[test]
fn person_fields_map_positionally() {
    let p = Person::decode(&arr(vec![s("Ada"), s("Lovelace"), s("ada@example.com")])).unwrap();
    assert_eq!(p.name, "Ada");
    assert_eq!(p.surname, "Lovelace");
    assert_eq!(p.mail, "ada@example.com");
}

#[test]
fn person_of_wrong_length_is_a_structural_error() {
    let e = Person::decode(&arr(vec![s("Ada"), s("Lovelace")])).unwrap_err();
    assert_eq!(e.kind, ErrorKind::WrongLength { expected: 3, actual: 2 });
    assert_eq!(e.category(), ErrorCategory::StructuralError);
    let e = Person::decode(&arr(vec![s("a"), s("b"), s("c@d"), s("e")])).unwrap_err();
    assert_eq!(e.kind, ErrorKind::WrongLength { expected: 3, actual: 4 });
}

#[test]
fn person_without_at_sign_is_a_domain_violation() {
    let e = Person::decode(&arr(vec![s("Ada"), s("Lovelace"), s("ada.example.com")])).unwrap_err();
    assert_eq!(e.kind, ErrorKind::NoAtSign { value: "ada.example.com".to_string() });
    assert_eq!(e.category(), ErrorCategory::DomainViolation);
}

#[test]
fn person_with_a_non_string_element_names_its_index() {
    let e = Person::decode(&arr(vec![s("Ada"), JsonValue::Int(4), s("a@b")])).unwrap_err();
    assert_eq!(e.path, vec![PathSeg::Index(1)]);
    assert_eq!(e.kind, ErrorKind::NotAString);
}

#[test]
fn absence_decodes_positionally_without_date_validation() {
    let a = JustifiedAbsence::decode(&arr(vec![s("2024-01-01"), s("2024-01-02"), s("illness")]))
        .unwrap();
    assert_eq!(a.start, "2024-01-01");
    assert_eq!(a.end, "2024-01-02");
    assert_eq!(a.comment, "illness");
    let e = JustifiedAbsence::decode(&arr(vec![s("a")])).unwrap_err();
    assert_eq!(e.kind, ErrorKind::WrongLength { expected: 3, actual: 1 });
}

#[test]
fn member_of_decodes_its_two_group_lists() {
    let m = MemberOf::decode(&obj(vec![
        ("ldap_groups", arr(vec![arr(vec![s("students"), s("science")])])),
        ("other_groups", arr(vec![arr(vec![s("sports"), s("tennis")])])),
    ]))
    .unwrap();
    assert_eq!(m.ldap_groups.len(), 1);
    assert_eq!(m.ldap_groups[0].common_name, "students");
    assert_eq!(m.ldap_groups[0].organizational_unit, "science");
    assert_eq!(m.other_groups, vec![("sports".to_string(), "tennis".to_string())]);
}

#[test]
fn envelope_yields_the_tables_of_element_zero_in_order() {
    let v = arr(vec![arr(vec![grade_obj("T1"), grade_obj("T2")]), arr(vec![])]);
    let tables = grades_vec_of(&v).unwrap();
    assert_eq!(tables.len(), 2);
    assert_eq!(tables[0].table_title, "T1");
    assert_eq!(tables[1].table_title, "T2");
    assert_eq!(tables[0].year, 2024);
    assert_eq!(tables[0].official_ue, true);
    assert_eq!(tables[0].columns.len(), 1);
}

#[test]
fn envelope_with_a_non_empty_reserved_slot_is_structural() {
    let v = arr(vec![arr(vec![]), arr(vec![JsonValue::Int(1)])]);
    let e = grades_vec_of(&v).unwrap_err();
    assert_eq!(e.path, vec![PathSeg::Index(1)]);
    assert_eq!(e.kind, ErrorKind::WrongLength { expected: 0, actual: 1 });
    assert_eq!(e.category(), ErrorCategory::StructuralError);
}

#[test]
fn envelope_of_wrong_length_is_structural() {
    let e = grades_vec_of(&arr(vec![arr(vec![])])).unwrap_err();
    assert_eq!(e.kind, ErrorKind::WrongLength { expected: 2, actual: 1 });
    assert_eq!(e.category(), ErrorCategory::StructuralError);
    let e = grades_vec_of(&arr(vec![])).unwrap_err();
    assert_eq!(e.kind, ErrorKind::WrongLength { expected: 2, actual: 0 });
}

#[test]
fn column_defaults_apply_when_fields_are_absent() {
    let c = GradeColumn::decode(&obj(column_obj())).unwrap();
    assert_eq!(c.type_, GradeType::Note);
    assert_eq!(c.freezed, Freezed::NotFrozen);
    assert_eq!(c.hidden, false);
    assert_eq!(c.width, None);
    assert_eq!(c.weight, None);
    assert_eq!(c.minmax, None);
}

#[test]
fn column_reads_its_optional_fields_when_present() {
    let mut fields = column_obj();
    fields.push(("freezed", s("C")));
    fields.push(("hidden", JsonValue::Int(1)));
    fields.push(("width", JsonValue::Int(42)));
    fields.push(("weight", s("12.5")));
    fields.push(("comment", JsonValue::Null));
    let c = GradeColumn::decode(&obj(fields)).unwrap();
    assert_eq!(c.freezed, Freezed::C);
    assert_eq!(c.hidden, true);
    assert_eq!(c.width, Some(42));
    assert_eq!(c.weight.unwrap().as_str(), "12.5");
    assert_eq!(c.comment, None);
}

#[test]
fn column_with_an_unknown_freeze_tag_names_it() {
    let mut fields = column_obj();
    fields.push(("freezed", s("X")));
    let e = GradeColumn::decode(&obj(fields)).unwrap_err();
    assert_eq!(e.path, vec![PathSeg::Field("freezed".to_string())]);
    assert_eq!(e.kind, ErrorKind::UnknownTag { value: "X".to_string() });
    assert_eq!(e.category(), ErrorCategory::DomainViolation);
}

#[test]
fn column_with_an_unknown_type_tag_names_it() {
    let mut fields = column_obj();
    fields.retain(|(k, _)| *k != "type");
    fields.push(("type", s("Mystery")));
    let e = GradeColumn::decode(&obj(fields)).unwrap_err();
    assert_eq!(e.path, vec![PathSeg::Field("type".to_string())]);
    assert_eq!(e.kind, ErrorKind::UnknownTag { value: "Mystery".to_string() });
}

#[test]
fn column_with_a_bad_weight_reports_the_text() {
    let mut fields = column_obj();
    fields.push(("weight", s("heavy")));
    let e = GradeColumn::decode(&obj(fields)).unwrap_err();
    assert_eq!(e.path, vec![PathSeg::Field("weight".to_string())]);
    assert_eq!(e.kind, ErrorKind::NotFloat { value: "heavy".to_string() });
}

#[test]
fn grade_with_a_bad_master_names_the_full_path() {
    let mut v = grade_obj("T");
    if let JsonValue::Obj(ref mut entries) = v {
        entries.retain(|(k, _)| k != "masters");
        entries.push((
            "masters".to_string(),
            arr(vec![arr(vec![s("A"), s("B"), s("no-at")])]),
        ));
    }
    let e = tomuss::grades::Grade::decode(&v).unwrap_err();
    assert_eq!(
        e.path,
        vec![PathSeg::Field("masters".to_string()), PathSeg::Index(0)]
    );
    assert_eq!(e.kind, ErrorKind::NoAtSign { value: "no-at".to_string() });
}
