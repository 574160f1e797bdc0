use models_endpoint::canonical::canonical_json;
use serde_json::Value;

fn object(members: Vec<(&str, Value)>) -> Value {
    let mut map = serde_json::Map::new();
    for (key, value) in members {
        map.insert(key.to_string(), value);
    }
    Value::Object(map)
}

#[test]
fn members_are_put_in_ascending_order_at_every_depth() {
    let inner = object(vec![("z", Value::Null), ("a", Value::Bool(true))]);
    let value = object(vec![
        ("b", Value::Array(vec![inner.clone(), Value::from(3u64)])),
        ("a", inner),
    ]);
    assert_eq!(value.to_string(), r#"{"b":[{"z":null,"a":true},3],"a":{"z":null,"a":true}}"#);
    assert_eq!(
        canonical_json(value).to_string(),
        r#"{"a":{"a":true,"z":null},"b":[{"a":true,"z":null},3]}"#
    );
}

#[test]
fn canonical_form_of_a_canonical_form_is_itself() {
    let value = object(vec![
        ("b", object(vec![("y", Value::Null), ("x", Value::from("t"))])),
        ("a", Value::Array(vec![Value::Bool(false)])),
    ]);
    let form = canonical_json(value);
    assert_eq!(form.to_string(), r#"{"a":[false],"b":{"x":"t","y":null}}"#);
    assert_eq!(canonical_json(form.clone()).to_string(), form.to_string());
}

#[test]
fn member_order_is_lost_and_nothing_else() {
    let one = object(vec![("a", Value::from(1u64)), ("b", Value::from(2u64))]);
    let other = object(vec![("b", Value::from(2u64)), ("a", Value::from(1u64))]);
    let different = object(vec![("b", Value::from(1u64)), ("a", Value::from(2u64))]);
    assert_ne!(one.to_string(), other.to_string());
    assert_eq!(canonical_json(one.clone()).to_string(), canonical_json(other).to_string());
    assert_ne!(canonical_json(one).to_string(), canonical_json(different).to_string());
}

#[test]
fn item_order_is_kept() {
    let value = Value::Array(vec![Value::from("b"), Value::from("a")]);
    assert_eq!(canonical_json(value).to_string(), r#"["b","a"]"#);
}

#[test]
fn scalars_are_kept() {
    for value in [
        Value::Null,
        Value::Bool(true),
        Value::from(7u64),
        Value::from(-7i64),
        Value::from(1.5f64),
        Value::from("text"),
    ] {
        assert_eq!(canonical_json(value.clone()), value);
    }
    assert_eq!(canonical_json(object(vec![])).to_string(), "{}");
    assert_eq!(canonical_json(Value::Array(vec![])).to_string(), "[]");
}

#[test]
fn keys_are_ordered_by_code_point() {
    let value = object(vec![
        ("é", Value::Null),
        ("ab", Value::Null),
        ("\u{10000}", Value::Null),
        ("a", Value::Null),
        ("\u{ffff}", Value::Null),
        ("B", Value::Null),
        ("", Value::Null),
    ]);
    let form = canonical_json(value);
    let keys: Vec<&String> = form.as_object().unwrap().keys().collect();
    assert_eq!(keys, ["", "B", "a", "ab", "é", "\u{ffff}", "\u{10000}"]);
}
