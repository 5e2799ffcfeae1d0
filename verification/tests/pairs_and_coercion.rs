//! The pair-list normalizer and the leaf coercers, on concrete values.

use tomuss::coerce::int_as_bool;
use tomuss::error::ErrorKind;
use tomuss::json::JsonValue;
use tomuss::normalize::NormalizedMap;
use tomuss::numtext::{check_float_literal, WrappedStrF32};

fn s(x: &str) -> JsonValue {
    JsonValue::Str(x.to_string())
}

fn pair(k: &str, v: JsonValue) -> JsonValue {
    JsonValue::Arr(vec![s(k), v])
}

#[test]
fn int_bool_zero_is_false() {
    assert_eq!(int_as_bool(&JsonValue::Int(0)), Ok(false));
}

#[test]
fn int_bool_one_is_true() {
    assert_eq!(int_as_bool(&JsonValue::Int(1)), Ok(true));
}

#[test]
fn int_bool_other_integers_fail_naming_the_value() {
    assert_eq!(
        int_as_bool(&JsonValue::Int(2)),
        Err(ErrorKind::NotZeroOrOne { value: 2 })
    );
    assert_eq!(
        int_as_bool(&JsonValue::Int(-5)),
        Err(ErrorKind::NotZeroOrOne { value: -5 })
    );
}

#[test]
fn int_bool_rejects_non_integers() {
    assert_eq!(int_as_bool(&s("1")), Err(ErrorKind::NotAnInt));
    assert_eq!(int_as_bool(&JsonValue::Bool(true)), Err(ErrorKind::NotAnInt));
}

#[test]
fn normalizer_keeps_the_last_value_of_a_duplicate_key() {
    let pairs = vec![
        pair("A", JsonValue::Int(1)),
        pair("B", JsonValue::Int(7)),
        pair("A", JsonValue::Int(2)),
    ];
    let m = NormalizedMap::normalize(&pairs).unwrap();
    assert_eq!(m.get("A"), Some(&JsonValue::Int(2)));
    assert_eq!(m.get("B"), Some(&JsonValue::Int(7)));
    assert_eq!(m.get("C"), None);
}

#[test]
fn normalizer_rejects_a_non_array_pair() {
    let pairs = vec![JsonValue::Int(5)];
    let e = NormalizedMap::normalize(&pairs).unwrap_err();
    assert_eq!(e.kind, ErrorKind::NotAnArray);
}

#[test]
fn normalizer_rejects_a_pair_of_wrong_length() {
    let pairs = vec![pair("ok", JsonValue::Null), JsonValue::Arr(vec![s("A")])];
    let e = NormalizedMap::normalize(&pairs).unwrap_err();
    assert_eq!(e.kind, ErrorKind::WrongLength { expected: 2, actual: 1 });
}

#[test]
fn normalizer_names_the_index_of_a_non_string_key() {
    let pairs = vec![
        pair("ok", JsonValue::Null),
        JsonValue::Arr(vec![JsonValue::Int(1), JsonValue::Int(2)]),
    ];
    let e = NormalizedMap::normalize(&pairs).unwrap_err();
    assert_eq!(e.kind, ErrorKind::KeyNotString { index: 1 });
}

#[test]
fn float_text_round_trips_through_the_coercer() {
    for v in [1.5f32, -2.25f32, 3.14f32, 100.0f32, 0.1f32] {
        let text = format!("{}", v);
        let w = WrappedStrF32::coerce(&s(&text)).unwrap();
        let back: f32 = w.as_str().parse().unwrap();
        assert!((back - v).abs() < 1e-6);
    }
}

#[test]
fn float_recognizer_accepts_what_the_standard_parser_accepts() {
    let samples = [
        "inf", "INF", "Infinity", "nan", "NaN", "+1.5", "-.5", ".5", "1.", "1e3", "1.e5",
        "2E-4", "0007", "1.25", "-0", "", "abc", "1e", "e5", "+-1", "1.2.3", " 1", "1 ",
        "infx", "nane", "--1", ".", "+", "1e+",
    ];
    for t in samples {
        let std_ok = t.parse::<f32>().is_ok();
        assert_eq!(check_float_literal(t), std_ok, "disagreement on {:?}", t);
    }
}

#[test]
fn float_coercer_reports_the_offending_text() {
    let e = WrappedStrF32::coerce(&s("twelve")).unwrap_err();
    assert_eq!(e, ErrorKind::NotFloat { value: "twelve".to_string() });
    let e = WrappedStrF32::coerce(&JsonValue::Int(3)).unwrap_err();
    assert_eq!(e, ErrorKind::NotAString);
}
