use script_bridge::bridge::MAX_DEPTH;
use script_bridge::bridge::to_canonical;
use script_bridge::value::CanonNumber;
use script_bridge::value::CanonValue;
use script_bridge::value::DynValue;

#[test]
fn absent_null_and_unsupported_all_become_null() {
    assert_eq!(to_canonical(&DynValue::Undefined), CanonValue::Null);
    assert_eq!(to_canonical(&DynValue::Null), CanonValue::Null);
    assert_eq!(to_canonical(&DynValue::Other), CanonValue::Null);
}

#[test]
fn bool_int_and_text_carry_over() {
    assert_eq!(to_canonical(&DynValue::Bool(true)), CanonValue::Bool(true));
    assert_eq!(to_canonical(&DynValue::Bool(false)), CanonValue::Bool(false));
    assert_eq!(
        to_canonical(&DynValue::Int(42)),
        CanonValue::Number(CanonNumber::Int(42))
    );
    assert_eq!(
        to_canonical(&DynValue::Int(-7)),
        CanonValue::Number(CanonNumber::Int(-7))
    );
    assert_eq!(
        to_canonical(&DynValue::Text("hello".to_string())),
        CanonValue::Text("hello".to_string())
    );
}

#[test]
fn finite_double_keeps_its_bits() {
    let bits = 1.5f64.to_bits();
    assert_eq!(
        to_canonical(&DynValue::Float(bits)),
        CanonValue::Number(CanonNumber::Double(bits))
    );
    let neg = (-0.25f64).to_bits();
    assert_eq!(
        to_canonical(&DynValue::Float(neg)),
        CanonValue::Number(CanonNumber::Double(neg))
    );
}

#[test]
fn non_finite_double_degrades_to_null() {
    assert_eq!(
        to_canonical(&DynValue::Float(f64::NAN.to_bits())),
        CanonValue::Null
    );
    assert_eq!(
        to_canonical(&DynValue::Float(f64::INFINITY.to_bits())),
        CanonValue::Null
    );
    assert_eq!(
        to_canonical(&DynValue::Float(f64::NEG_INFINITY.to_bits())),
        CanonValue::Null
    );
}

#[test]
fn array_keeps_length_order_and_content() {
    let v = DynValue::Array(vec![
        DynValue::Int(1),
        DynValue::Text("a".to_string()),
        DynValue::Bool(true),
        DynValue::Null,
    ]);
    let expected = CanonValue::Array(vec![
        CanonValue::Number(CanonNumber::Int(1)),
        CanonValue::Text("a".to_string()),
        CanonValue::Bool(true),
        CanonValue::Null,
    ]);
    assert_eq!(to_canonical(&v), expected);
}

#[test]
fn object_keeps_key_order() {
    let v = DynValue::Object(vec![
        ("b".to_string(), DynValue::Int(2)),
        ("a".to_string(), DynValue::Int(1)),
        ("c".to_string(), DynValue::Int(3)),
    ]);
    match to_canonical(&v) {
        CanonValue::Object(props) => {
            let keys: Vec<&str> = props.iter().map(|p| p.0.as_str()).collect();
            assert_eq!(keys, vec!["b", "a", "c"]);
        }
        other => panic!("expected an object, got {:?}", other),
    }
}

#[test]
fn nested_structures_convert_recursively() {
    let v = DynValue::Object(vec![
        ("a".to_string(), DynValue::Int(1)),
        (
            "b".to_string(),
            DynValue::Object(vec![("c".to_string(), DynValue::Int(2))]),
        ),
    ]);
    let expected = CanonValue::Object(vec![
        ("a".to_string(), CanonValue::Number(CanonNumber::Int(1))),
        (
            "b".to_string(),
            CanonValue::Object(vec![("c".to_string(), CanonValue::Number(CanonNumber::Int(2)))]),
        ),
    ]);
    assert_eq!(to_canonical(&v), expected);
}

#[test]
fn non_finite_inside_array_degrades_that_slot_only() {
    let v = DynValue::Array(vec![
        DynValue::Float(f64::NAN.to_bits()),
        DynValue::Int(5),
    ]);
    let expected = CanonValue::Array(vec![
        CanonValue::Null,
        CanonValue::Number(CanonNumber::Int(5)),
    ]);
    assert_eq!(to_canonical(&v), expected);
}

#[test]
fn over_deep_nesting_degrades_to_null_at_the_cutoff() {
    let extra = 6usize;
    let mut v = DynValue::Int(9);
    for _ in 0..(MAX_DEPTH as usize + extra) {
        v = DynValue::Array(vec![v]);
    }
    let mut c = to_canonical(&v);
    let mut levels = 0usize;
    loop {
        match c {
            CanonValue::Array(mut items) => {
                assert_eq!(items.len(), 1);
                c = items.pop().unwrap();
                levels += 1;
            }
            other => {
                assert_eq!(other, CanonValue::Null);
                break;
            }
        }
    }
    assert_eq!(levels, MAX_DEPTH as usize);
}

#[test]
fn in_depth_nesting_is_untouched() {
    let mut v = DynValue::Int(9);
    for _ in 0..(MAX_DEPTH as usize - 1) {
        v = DynValue::Array(vec![v]);
    }
    let mut c = to_canonical(&v);
    let mut levels = 0usize;
    loop {
        match c {
            CanonValue::Array(mut items) => {
                assert_eq!(items.len(), 1);
                c = items.pop().unwrap();
                levels += 1;
            }
            other => {
                assert_eq!(other, CanonValue::Number(CanonNumber::Int(9)));
                break;
            }
        }
    }
    assert_eq!(levels, MAX_DEPTH as usize - 1);
}
