//! Tests of the value contract: construction, classification, conversion.

use katex::{Engine, Error, Value};

fn engine() -> Engine {
    Engine::new().expect("engine construction should succeed")
}

#[test]
fn round_trip_bool() {
    let e = engine();
    assert_eq!(e.from_bool(true).into_bool(), Ok(true));
    assert_eq!(e.from_bool(false).into_bool(), Ok(false));
}

#[test]
fn round_trip_int() {
    let e = engine();
    assert_eq!(e.from_int(0).into_int(), Ok(0));
    assert_eq!(e.from_int(-42).into_int(), Ok(-42));
    assert_eq!(e.from_int(i32::MAX).into_int(), Ok(i32::MAX));
}

#[test]
fn round_trip_float_bits() {
    let e = engine();
    let bits = 2.75f64.to_bits();
    let back = e.from_float_bits(bits).into_float_bits();
    assert_eq!(back, Ok(bits));
    assert_eq!(f64::from_bits(back.unwrap()), 2.75f64);
}

#[test]
fn round_trip_string() {
    let e = engine();
    let s = "E = mc^2".to_string();
    assert_eq!(e.from_string(s.clone()).into_string(), Ok(s));
}

#[test]
fn classification_matches_tag() {
    let e = engine();
    assert!(e.null().is_null());
    assert!(e.from_bool(true).is_bool());
    assert!(e.from_int(1).is_int());
    assert!(e.from_float_bits(1.5f64.to_bits()).is_float());
    assert!(e.from_string("s".to_string()).is_string());
    assert!(!e.null().is_bool());
    assert!(!e.from_bool(true).is_null());
    assert!(!e.from_int(1).is_float());
    assert!(!e.from_float_bits(0).is_int());
    assert!(!e.from_string("s".to_string()).is_int());
}

fn assert_value_error<T: std::fmt::Debug>(r: Result<T, Error>) {
    match r {
        Err(Error::JsValueError(_)) => {}
        other => panic!("expected a JsValueError, got {:?}", other),
    }
}

#[test]
fn bool_value_into_string_is_tag_mismatch() {
    let e = engine();
    assert_value_error(e.from_bool(true).into_string());
}

#[test]
fn every_pairwise_mismatch_fails() {
    let e = engine();
    // null converts to nothing
    assert_value_error(e.null().into_bool());
    assert_value_error(e.null().into_int());
    assert_value_error(e.null().into_float_bits());
    assert_value_error(e.null().into_string());
    // bool converts only to bool
    assert_value_error(e.from_bool(true).into_int());
    assert_value_error(e.from_bool(true).into_float_bits());
    assert_value_error(e.from_bool(true).into_string());
    // int converts only to int
    assert_value_error(e.from_int(3).into_bool());
    assert_value_error(e.from_int(3).into_float_bits());
    assert_value_error(e.from_int(3).into_string());
    // float converts only to float
    assert_value_error(e.from_float_bits(0).into_bool());
    assert_value_error(e.from_float_bits(0).into_int());
    assert_value_error(e.from_float_bits(0).into_string());
    // string converts only to string
    assert_value_error(e.from_string("s".to_string()).into_bool());
    assert_value_error(e.from_string("s".to_string()).into_int());
    assert_value_error(e.from_string("s".to_string()).into_float_bits());
    // composites convert to no primitive
    assert_value_error(e.from_array(vec![]).into_bool());
    assert_value_error(e.from_object(vec![]).into_string());
}

#[test]
fn object_preserves_key_order() {
    let e = engine();
    let obj = e.from_object(vec![
        ("a".to_string(), e.from_int(1)),
        ("b".to_string(), e.from_int(2)),
    ]);
    match obj {
        Value::Object(pairs) => {
            assert_eq!(pairs.len(), 2);
            assert_eq!(pairs[0].0, "a");
            assert!(matches!(pairs[0].1, Value::Int(1)));
            assert_eq!(pairs[1].0, "b");
            assert!(matches!(pairs[1].1, Value::Int(2)));
        }
        other => panic!("expected an object, got {:?}", other),
    }
}

#[test]
fn object_keeps_duplicate_keys_as_given() {
    let e = engine();
    let obj = e.from_object(vec![
        ("k".to_string(), e.from_int(1)),
        ("k".to_string(), e.from_int(2)),
    ]);
    match obj {
        Value::Object(pairs) => {
            assert_eq!(pairs.len(), 2);
            assert_eq!(pairs[0].0, "k");
            assert!(matches!(pairs[0].1, Value::Int(1)));
            assert_eq!(pairs[1].0, "k");
            assert!(matches!(pairs[1].1, Value::Int(2)));
        }
        other => panic!("expected an object, got {:?}", other),
    }
}

#[test]
fn array_preserves_elements() {
    let e = engine();
    let arr = e.from_array(vec![e.from_int(1), e.from_bool(true)]);
    match arr {
        Value::Array(items) => {
            assert_eq!(items.len(), 2);
            assert!(matches!(items[0], Value::Int(1)));
            assert!(matches!(items[1], Value::Bool(true)));
        }
        other => panic!("expected an array, got {:?}", other),
    }
}

#[test]
fn error_message_is_kept() {
    let e = Error::JsExecError("boom".to_string());
    assert_eq!(e.message(), "boom");
    assert_eq!(e.clone(), e);
}
