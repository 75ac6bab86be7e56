use script_bridge::engine::execute_js_get_variable;
use script_bridge::value::CanonNumber;
use script_bridge::value::CanonValue;

fn run(script: &str, binding: &str) -> script_bridge::Results<CanonValue> {
    execute_js_get_variable(script.to_string(), binding.to_string())
}

#[test]
fn number_literal_round_trips() {
    let r = run("var x = 42;", "x");
    assert!(r.success, "unexpected failure: {}", r.message);
    assert_eq!(r.message, "");
    assert_eq!(r.data, Some(CanonValue::Number(CanonNumber::Int(42))));
}

#[test]
fn string_literal_round_trips() {
    let r = run("var s = 'hello';", "s");
    assert!(r.success, "unexpected failure: {}", r.message);
    assert_eq!(r.data, Some(CanonValue::Text("hello".to_string())));
}

#[test]
fn boolean_and_null_literals_round_trip() {
    let r = run("var t = true;", "t");
    assert_eq!(r.data, Some(CanonValue::Bool(true)));
    let r = run("var n = null;", "n");
    assert_eq!(r.data, Some(CanonValue::Null));
}

#[test]
fn float_literal_round_trips_as_double() {
    let r = run("var f = 1.5;", "f");
    assert!(r.success, "unexpected failure: {}", r.message);
    assert_eq!(
        r.data,
        Some(CanonValue::Number(CanonNumber::Double(1.5f64.to_bits())))
    );
}

#[test]
fn array_order_and_content_preserved() {
    let r = run("var arr = [1, 'a', true, null];", "arr");
    assert!(r.success, "unexpected failure: {}", r.message);
    let expected = CanonValue::Array(vec![
        CanonValue::Number(CanonNumber::Int(1)),
        CanonValue::Text("a".to_string()),
        CanonValue::Bool(true),
        CanonValue::Null,
    ]);
    assert_eq!(r.data, Some(expected));
}

#[test]
fn nested_object_key_order_preserved() {
    let r = run("var o = {a: 1, b: {c: 2}};", "o");
    assert!(r.success, "unexpected failure: {}", r.message);
    let expected = CanonValue::Object(vec![
        ("a".to_string(), CanonValue::Number(CanonNumber::Int(1))),
        (
            "b".to_string(),
            CanonValue::Object(vec![("c".to_string(), CanonValue::Number(CanonNumber::Int(2)))]),
        ),
    ]);
    assert_eq!(r.data, Some(expected));
}

#[test]
fn object_keys_keep_declaration_order() {
    let r = run("var o = {z: 1, a: 2, m: 3};", "o");
    assert!(r.success, "unexpected failure: {}", r.message);
    match r.data.expect("payload") {
        CanonValue::Object(props) => {
            let keys: Vec<&str> = props.iter().map(|p| p.0.as_str()).collect();
            assert_eq!(keys, vec!["z", "a", "m"]);
        }
        other => panic!("expected an object, got {:?}", other),
    }
}

#[test]
fn non_finite_number_degrades_to_null() {
    let r = run("var n = 0/0;", "n");
    assert!(r.success, "unexpected failure: {}", r.message);
    assert_eq!(r.data, Some(CanonValue::Null));

    let r = run("var n = 1/0;", "n");
    assert!(r.success, "unexpected failure: {}", r.message);
    assert_eq!(r.data, Some(CanonValue::Null));
}

#[test]
fn declared_but_undefined_binding_is_null() {
    let r = run("var u;", "u");
    assert!(r.success, "unexpected failure: {}", r.message);
    assert_eq!(r.data, Some(CanonValue::Null));
}

#[test]
fn unsupported_kind_degrades_to_null() {
    let r = run("function f() { return 1; }", "f");
    assert!(r.success, "unexpected failure: {}", r.message);
    assert_eq!(r.data, Some(CanonValue::Null));
}

#[test]
fn missing_binding_fails_and_names_the_binding() {
    let r = run("var y = 1;", "z");
    assert!(!r.success);
    assert_eq!(r.data, None);
    assert!(!r.message.is_empty());
    assert!(
        r.message.contains("z"),
        "message does not name the binding: {}",
        r.message
    );
}

#[test]
fn syntax_error_fails_with_a_message_and_no_value() {
    let r = run("var = ;", "x");
    assert!(!r.success);
    assert_eq!(r.data, None);
    assert!(!r.message.is_empty());
}

#[test]
fn runtime_exception_fails_with_a_message() {
    let r = run("throw new Error('boom');", "x");
    assert!(!r.success);
    assert_eq!(r.data, None);
    assert!(!r.message.is_empty());
}

#[test]
fn invocations_are_independent() {
    let first = run("var v = 1;", "v");
    let second = run("var v = 2;", "v");
    assert_eq!(first.data, Some(CanonValue::Number(CanonNumber::Int(1))));
    assert_eq!(second.data, Some(CanonValue::Number(CanonNumber::Int(2))));

    let r = run("var w = 3;", "v");
    assert!(!r.success, "a binding leaked across invocations");
}

#[test]
fn repeating_an_invocation_yields_the_same_value() {
    let a = run("var o = {a: [1, 2.5, 'x'], b: null};", "o");
    let b = run("var o = {a: [1, 2.5, 'x'], b: null};", "o");
    let c = run("var o = {a: [1, 2.5, 'x'], b: null};", "o");
    assert!(a.success && b.success && c.success);
    assert_eq!(a.data, b.data);
    assert_eq!(b.data, c.data);
}

#[test]
fn computed_values_resolve_after_execution() {
    let r = run("var a = 2; var b = 3; var x = a * b + 1;", "x");
    assert_eq!(r.data, Some(CanonValue::Number(CanonNumber::Int(7))));
}

#[test]
fn over_deep_engine_structure_degrades_at_the_cutoff() {
    let script = "var a = []; var c = a; \
                  for (var i = 0; i < 70; i = i + 1) { var n = []; c.push(n); c = n; } \
                  var v = a;";
    let r = run(script, "v");
    assert!(r.success, "unexpected failure: {}", r.message);
    let mut c = r.data.expect("payload");
    let mut levels = 0usize;
    loop {
        match c {
            CanonValue::Array(mut items) => {
                if items.is_empty() {
                    break;
                }
                assert_eq!(items.len(), 1);
                c = items.pop().unwrap();
                levels += 1;
            }
            other => {
                assert_eq!(other, CanonValue::Null, "cutoff does not degrade to null");
                break;
            }
        }
    }
    assert_eq!(levels, script_bridge::bridge::MAX_DEPTH as usize);
}

#[test]
fn duplicate_keys_collapse_to_the_last_value() {
    let r = run("var o = {a: 1, a: 2};", "o");
    assert!(r.success, "unexpected failure: {}", r.message);
    assert_eq!(
        r.data,
        Some(CanonValue::Object(vec![(
            "a".to_string(),
            CanonValue::Number(CanonNumber::Int(2))
        )]))
    );
}

#[test]
fn oversized_array_length_degrades_to_null_without_panicking() {
    let r = run("var a = []; a.length = 2147483648; var v = a;", "v");
    assert!(r.success, "unexpected failure: {}", r.message);
    assert_eq!(r.data, Some(CanonValue::Null));
}

#[test]
fn throwing_getter_keeps_the_key_with_a_null_value() {
    let script = "var o = {}; \
                  Object.defineProperty(o, 'bad', { \
                      enumerable: true, \
                      get: function() { throw new Error('no'); } \
                  }); \
                  o.good = 5; \
                  var v = o;";
    let r = run(script, "v");
    assert!(r.success, "unexpected failure: {}", r.message);
    let expected = CanonValue::Object(vec![
        ("bad".to_string(), CanonValue::Null),
        ("good".to_string(), CanonValue::Number(CanonNumber::Int(5))),
    ]);
    assert_eq!(r.data, Some(expected));
}
