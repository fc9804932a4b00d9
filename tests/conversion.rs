use lawkit_bridge::host::{to_canonical, to_host, HostItems, HostObject, HostValue};
use lawkit_bridge::value::{is_finite_bits, CanonicalValue};

fn assert_same<A: std::fmt::Debug, B: std::fmt::Debug>(a: &A, b: &B) {
    assert_eq!(format!("{:?}", a), format!("{:?}", b));
}

fn blank() -> HostObject {
    HostObject {
        is_none: false,
        as_bool: None,
        as_int: None,
        as_float: None,
        as_text: None,
        as_size: None,
        items: HostItems::Scalar,
        repr: Err("no string form".to_string()),
    }
}

fn host_none() -> HostObject {
    HostObject { is_none: true, ..blank() }
}

fn host_bool(b: bool) -> HostObject {
    let n = if b { 1 } else { 0 };
    HostObject {
        as_bool: Some(b),
        as_int: Some(n),
        as_float: Some((n as f64).to_bits()),
        as_size: Some(n as usize),
        repr: Ok(if b { "True" } else { "False" }.to_string()),
        ..blank()
    }
}

fn host_int(i: i64) -> HostObject {
    HostObject {
        as_int: Some(i),
        as_float: Some((i as f64).to_bits()),
        as_size: if i >= 0 { Some(i as usize) } else { None },
        repr: Ok(i.to_string()),
        ..blank()
    }
}

fn host_float(f: f64) -> HostObject {
    HostObject { as_float: Some(f.to_bits()), repr: Ok(f.to_string()), ..blank() }
}

fn host_text(s: &str) -> HostObject {
    HostObject { as_text: Some(s.to_string()), repr: Ok(s.to_string()), ..blank() }
}

/// How the host answers about an object built from a host value.
fn probe(v: &HostValue) -> HostObject {
    match v {
        HostValue::Null => host_none(),
        HostValue::Bool(b) => host_bool(*b),
        HostValue::Int(i) => host_int(*i as i64),
        HostValue::Float(f) => host_float(f64::from_bits(*f)),
        HostValue::Text(s) => host_text(s),
        HostValue::List(items) => HostObject {
            items: HostItems::List(items.iter().map(probe).collect()),
            ..blank()
        },
        HostValue::Dict(entries) => HostObject {
            items: HostItems::Dict(
                entries.iter().map(|(k, v)| (Ok(k.clone()), probe(v))).collect(),
            ),
            ..blank()
        },
    }
}

fn sample_value() -> CanonicalValue {
    CanonicalValue::Object(vec![
        ("name".to_string(), CanonicalValue::Str("sales".to_string())),
        (
            "values".to_string(),
            CanonicalValue::Array(vec![
                CanonicalValue::Int(123),
                CanonicalValue::Int(-456),
                CanonicalValue::Float(2.5f64.to_bits()),
                CanonicalValue::Null,
                CanonicalValue::Bool(false),
            ]),
        ),
        ("nested".to_string(), CanonicalValue::Object(vec![])),
        ("flag".to_string(), CanonicalValue::Bool(true)),
    ])
}

#[test]
fn round_trip_through_host_is_identity() {
    let v = sample_value();
    let h = to_host(&v);
    let back = to_canonical(&probe(&h)).unwrap();
    assert_same(&back, &v);
    let again = to_canonical(&probe(&to_host(&back))).unwrap();
    assert_same(&again, &v);
}

#[test]
fn to_host_keeps_shape_and_order() {
    let h = to_host(&sample_value());
    match h {
        HostValue::Dict(entries) => {
            let keys: Vec<&str> = entries.iter().map(|(k, _)| k.as_str()).collect();
            assert_eq!(keys, vec!["name", "values", "nested", "flag"]);
            assert_same(&entries[0].1, &HostValue::Text("sales".to_string()));
            assert_same(&entries[1].1, &HostValue::List(vec![
                    HostValue::Int(123),
                    HostValue::Int(-456),
                    HostValue::Float(2.5f64.to_bits()),
                    HostValue::Null,
                    HostValue::Bool(false),
                ]));
        }
        other => panic!("expected a mapping, got {:?}", other),
    }
}

#[test]
fn boolean_is_tested_before_numbers() {
    assert_same(&to_canonical(&host_bool(true)).unwrap(), &CanonicalValue::Bool(true));
    assert_same(&to_canonical(&host_bool(false)).unwrap(), &CanonicalValue::Bool(false));
    assert_same(&to_canonical(&host_int(1)).unwrap(), &CanonicalValue::Int(1));
}

#[test]
fn non_finite_floats_become_null() {
    assert_same(&to_canonical(&host_float(f64::NAN)).unwrap(), &CanonicalValue::Null);
    assert_same(&to_canonical(&host_float(f64::INFINITY)).unwrap(), &CanonicalValue::Null);
    assert_same(&to_canonical(&host_float(f64::NEG_INFINITY)).unwrap(), &CanonicalValue::Null);
    assert_same(&to_host(&CanonicalValue::Null), &HostValue::Null);
}

#[test]
fn finite_floats_are_kept() {
    let bits = 0.1f64.to_bits();
    assert_same(&to_canonical(&host_float(0.1)).unwrap(), &CanonicalValue::Float(bits));
    assert!(is_finite_bits(bits));
    assert!(is_finite_bits(f64::MAX.to_bits()));
    assert!(is_finite_bits((-0.0f64).to_bits()));
    assert!(!is_finite_bits(f64::NAN.to_bits()));
    assert!(!is_finite_bits(f64::NEG_INFINITY.to_bits()));
}

#[test]
fn integer_that_does_not_fit_becomes_float() {
    let big = HostObject { as_float: Some(1e20f64.to_bits()), repr: Ok("100000000000000000000".to_string()), ..blank() };
    assert_same(&to_canonical(&big).unwrap(), &CanonicalValue::Float(1e20f64.to_bits()));
}

#[test]
fn none_converts_to_null() {
    assert_same(&to_canonical(&host_none()).unwrap(), &CanonicalValue::Null);
}

#[test]
fn unknown_object_falls_back_to_string_form() {
    let tuple = HostObject { repr: Ok("(1, 2)".to_string()), ..blank() };
    assert_same(&to_canonical(&tuple).unwrap(), &CanonicalValue::Str("(1, 2)".to_string()));
}

#[test]
fn string_form_failure_is_a_conversion_error() {
    let odd = HostObject { repr: Err("__str__ raised".to_string()), ..blank() };
    let e = to_canonical(&odd).unwrap_err();
    assert_eq!(e.message, "__str__ raised");
}

#[test]
fn non_string_key_is_a_conversion_error() {
    let dict = HostObject {
        items: HostItems::Dict(vec![
            (Ok("a".to_string()), host_int(1)),
            (Err("key 3 is not a string".to_string()), host_int(2)),
            (Err("key 4 is not a string".to_string()), host_int(3)),
        ]),
        ..blank()
    };
    let e = to_canonical(&dict).unwrap_err();
    assert_eq!(e.message, "key 3 is not a string");
}

#[test]
fn nested_failure_propagates_from_a_list() {
    let list = HostObject {
        items: HostItems::List(vec![
            host_int(1),
            HostObject { repr: Err("bad element".to_string()), ..blank() },
        ]),
        ..blank()
    };
    assert_same(&to_canonical(&list).unwrap_err().message, &"bad element");
}

#[test]
fn empty_containers_convert() {
    let list = HostObject { items: HostItems::List(vec![]), ..blank() };
    let dict = HostObject { items: HostItems::Dict(vec![]), ..blank() };
    assert_same(&to_canonical(&list).unwrap(), &CanonicalValue::Array(vec![]));
    assert_same(&to_canonical(&dict).unwrap(), &CanonicalValue::Object(vec![]));
}

#[test]
fn text_wins_over_string_form() {
    assert_same(&to_canonical(&host_text("abc")).unwrap(), &CanonicalValue::Str("abc".to_string()));
}
