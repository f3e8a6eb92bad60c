use nft_metadata::value::{lookup, Lookup, Shape};
use nft_metadata::{Number, Value};

fn sample() -> Vec<(String, Value)> {
    vec![
        ("a".to_string(), Value::Null),
        ("b".to_string(), Value::Bool(true)),
        ("a".to_string(), Value::Number(Number::Integer(1))),
        ("c".to_string(), Value::String("x".to_string())),
        ("".to_string(), Value::Array(vec![])),
    ]
}

#[test]
fn lookup_finds_the_only_member() {
    let members = sample();
    assert_eq!(lookup(&members, "b"), Lookup::At(1));
    assert_eq!(lookup(&members, "c"), Lookup::At(3));
    assert_eq!(lookup(&members, ""), Lookup::At(4));
}

#[test]
fn lookup_reports_a_missing_key() {
    let members = sample();
    assert_eq!(lookup(&members, "d"), Lookup::Absent);
    assert_eq!(lookup(&members, "A"), Lookup::Absent);
    assert_eq!(lookup(&members, "ab"), Lookup::Absent);
    assert_eq!(lookup(&Vec::new(), "a"), Lookup::Absent);
}

#[test]
fn lookup_reports_a_repeated_key() {
    let mut members = sample();
    assert_eq!(lookup(&members, "a"), Lookup::Repeated);
    members.push(("a".to_string(), Value::Null));
    assert_eq!(lookup(&members, "a"), Lookup::Repeated);
}

#[test]
fn shape_names_the_kind() {
    assert_eq!(Value::Null.shape(), Shape::Null);
    assert_eq!(Value::Bool(false).shape(), Shape::Bool);
    assert_eq!(Value::Number(Number::Integer(-3)).shape(), Shape::Number);
    assert_eq!(Value::Number(Number::Real(1.5f64.to_bits())).shape(), Shape::Number);
    assert_eq!(Value::String(String::new()).shape(), Shape::String);
    assert_eq!(Value::Array(vec![Value::Null]).shape(), Shape::Array);
    assert_eq!(Value::Object(sample()).shape(), Shape::Object);
}

#[test]
fn clone_copies_every_level() {
    let inner = Value::Object(sample());
    let outer = Value::Array(vec![
        inner,
        Value::Array(vec![Value::Array(vec![Value::String("deep".to_string())])]),
        Value::Number(Number::Real(0.25f64.to_bits())),
        Value::Number(Number::Integer(i128::MIN)),
    ]);
    let copy = outer.clone();
    assert_eq!(copy, outer);
    let document = Value::Object(vec![("k".to_string(), outer), ("k".to_string(), Value::Null)]);
    assert_eq!(document.clone(), document);
    assert_ne!(document.clone(), Value::Object(vec![]));
}
