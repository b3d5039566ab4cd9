use iota_wallet_tui::json::{format_json_value, JsonValue};

fn num(n: &str) -> JsonValue {
    JsonValue::Number(n.to_string())
}

#[test]
fn scalars_render_bare() {
    assert_eq!(format_json_value(&JsonValue::Str("abc".to_string())), "abc");
    assert_eq!(format_json_value(&num("12")), "12");
    assert_eq!(format_json_value(&JsonValue::Bool(true)), "true");
    assert_eq!(format_json_value(&JsonValue::Bool(false)), "false");
    assert_eq!(format_json_value(&JsonValue::Null), "null");
}

#[test]
fn short_arrays_are_listed_and_long_ones_counted() {
    assert_eq!(format_json_value(&JsonValue::Array(vec![])), "[]");
    assert_eq!(format_json_value(&JsonValue::Array(vec![num("1"), num("2")])), "[1, 2]");
    assert_eq!(
        format_json_value(&JsonValue::Array(vec![num("1"), num("2"), num("3")])),
        "[1, 2, 3]"
    );
    assert_eq!(
        format_json_value(&JsonValue::Array(vec![num("1"), num("2"), num("3"), num("4")])),
        "[4 items]"
    );
}

#[test]
fn objects_show_three_entries_at_most() {
    let entry = |k: &str, v: &str| (k.to_string(), num(v));
    assert_eq!(format_json_value(&JsonValue::Object(vec![])), "{  }");
    assert_eq!(format_json_value(&JsonValue::Object(vec![entry("a", "1")])), "{ a: 1 }");
    assert_eq!(
        format_json_value(&JsonValue::Object(vec![
            entry("a", "1"),
            entry("b", "2"),
            entry("c", "3"),
            entry("d", "4"),
        ])),
        "{ a: 1, b: 2, c: 3, ... }"
    );
}

#[test]
fn values_nest() {
    let v = JsonValue::Array(vec![
        JsonValue::Array(vec![num("1")]),
        JsonValue::Object(vec![("k".to_string(), JsonValue::Str("v".to_string()))]),
    ]);
    assert_eq!(format_json_value(&v), "[[1], { k: v }]");
}
