use fcm_client::json::{json_to_string, JsonValue};

#[test]
fn scalars_render_as_in_json() {
    assert_eq!(json_to_string(&JsonValue::Null), "null");
    assert_eq!(json_to_string(&JsonValue::Bool(true)), "true");
    assert_eq!(json_to_string(&JsonValue::Bool(false)), "false");
    assert_eq!(json_to_string(&JsonValue::Int(0)), "0");
    assert_eq!(json_to_string(&JsonValue::Int(42)), "42");
    assert_eq!(json_to_string(&JsonValue::Int(-1)), "-1");
}

#[test]
fn integer_rendering_matches_reference_serializer() {
    for n in [0i64, 7, -1, 42, 1000000, i64::MAX, i64::MIN] {
        let ours = json_to_string(&JsonValue::Int(n));
        let reference = serde_json::to_string(&serde_json::Value::from(n)).unwrap();
        assert_eq!(ours, reference);
    }
}

#[test]
fn string_escaping_matches_reference_serializer() {
    let samples = [
        "plain",
        "",
        "with \"quotes\" and \\backslashes\\",
        "line\nbreaks\tand\rreturns",
        "control \u{1} \u{8} \u{b} \u{c} \u{1f} chars",
        "unicode \u{e9}\u{4e16}\u{754c}",
    ];
    for s in samples {
        let ours = json_to_string(&JsonValue::Str(String::from(s)));
        let reference =
            serde_json::to_string(&serde_json::Value::String(String::from(s))).unwrap();
        assert_eq!(ours, reference);
    }
}

#[test]
fn carried_number_text_renders_verbatim() {
    for text in ["2.5", "-0.125", "1e10", "3.141592653589793", "18446744073709551615"] {
        assert_eq!(json_to_string(&JsonValue::Num(String::from(text))), text);
    }
    let n = serde_json::Number::from_f64(2.5).unwrap();
    assert_eq!(
        json_to_string(&JsonValue::Num(n.to_string())),
        serde_json::to_string(&serde_json::Value::Number(n)).unwrap()
    );
    let big = serde_json::Number::from(u64::MAX);
    assert_eq!(
        json_to_string(&JsonValue::Num(big.to_string())),
        serde_json::to_string(&serde_json::Value::Number(big)).unwrap()
    );
}

#[test]
fn arrays_and_objects_render_compactly() {
    let v = JsonValue::Arr(vec![
        JsonValue::Int(1),
        JsonValue::Str(String::from("two")),
        JsonValue::Arr(vec![]),
        JsonValue::Obj(vec![]),
        JsonValue::Null,
    ]);
    assert_eq!(json_to_string(&v), "[1,\"two\",[],{},null]");
    let o = JsonValue::Obj(vec![
        (String::from("a"), JsonValue::Int(1)),
        (
            String::from("b"),
            JsonValue::Obj(vec![(String::from("c"), JsonValue::Bool(false))]),
        ),
    ]);
    assert_eq!(json_to_string(&o), "{\"a\":1,\"b\":{\"c\":false}}");
}

#[test]
fn nested_object_matches_reference_serializer() {
    let ours = json_to_string(&JsonValue::Obj(vec![
        (String::from("a"), JsonValue::Int(5)),
        (String::from("b"), JsonValue::Str(String::from("x\ny"))),
    ]));
    let mut m = serde_json::Map::new();
    m.insert(String::from("a"), serde_json::Value::from(5i64));
    m.insert(String::from("b"), serde_json::Value::String(String::from("x\ny")));
    let reference = serde_json::to_string(&serde_json::Value::Object(m)).unwrap();
    assert_eq!(ours, reference);
}

#[test]
fn escaped_keys_render_like_escaped_strings() {
    let o = JsonValue::Obj(vec![(String::from("ke\"y"), JsonValue::Null)]);
    assert_eq!(json_to_string(&o), "{\"ke\\\"y\":null}");
}
