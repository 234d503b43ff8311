use mongo_repository::json::{convert_datetime, convert_timestamps, JsonValue};

fn obj(entries: Vec<(&str, JsonValue)>) -> JsonValue {
    JsonValue::Object(entries.into_iter().map(|(k, v)| (k.to_string(), v)).collect())
}

fn s(t: &str) -> JsonValue {
    JsonValue::String(t.to_string())
}

fn member<'a>(v: &'a JsonValue, key: &str) -> Option<&'a JsonValue> {
    match v {
        JsonValue::Object(e) => e.iter().find(|(k, _)| k == key).map(|(_, v)| v),
        _ => None,
    }
}

fn as_str(v: Option<&JsonValue>) -> Option<&str> {
    match v {
        Some(JsonValue::String(t)) => Some(t.as_str()),
        _ => None,
    }
}

#[test]
fn convert_datetime_flattens_extended_json_dates() {
    let mut v = obj(vec![
        ("a", JsonValue::Number(serde_json::Number::from(1))),
        ("created_at", obj(vec![("$date", s("2024-01-02T03:04:05Z"))])),
    ]);
    convert_datetime(&mut v, "created_at");
    assert_eq!(as_str(member(&v, "created_at")), Some("2024-01-02T03:04:05Z"));
    assert!(matches!(member(&v, "a"), Some(JsonValue::Number(n)) if n.as_i64() == Some(1)));
    match &v {
        JsonValue::Object(e) => {
            assert_eq!(e.len(), 2);
            assert_eq!(e[1].0, "created_at");
        }
        _ => panic!("not an object"),
    }
}

#[test]
fn convert_datetime_leaves_non_matching_values() {
    // $date that is not a string (canonical extended JSON)
    let mut v = obj(vec![("created_at", obj(vec![("$date", obj(vec![("$numberLong", s("0"))]))]))]);
    convert_datetime(&mut v, "created_at");
    assert!(matches!(member(&v, "created_at"), Some(JsonValue::Object(_))));
    // member absent
    let mut w = obj(vec![("x", s("y"))]);
    convert_datetime(&mut w, "created_at");
    assert!(member(&w, "created_at").is_none());
    // not an object at all
    let mut n = JsonValue::Null;
    convert_datetime(&mut n, "created_at");
    assert!(matches!(n, JsonValue::Null));
    // a plain string member stays a string
    let mut p = obj(vec![("created_at", s("already text"))]);
    convert_datetime(&mut p, "created_at");
    assert_eq!(as_str(member(&p, "created_at")), Some("already text"));
}

#[test]
fn convert_datetime_twice_changes_nothing_more() {
    let mut v = obj(vec![("updated_at", obj(vec![("$date", s("t"))]))]);
    convert_datetime(&mut v, "updated_at");
    convert_datetime(&mut v, "updated_at");
    assert_eq!(as_str(member(&v, "updated_at")), Some("t"));
}

#[test]
fn convert_timestamps_flattens_both() {
    let mut v = obj(vec![
        ("created_at", obj(vec![("$date", s("c"))])),
        ("updated_at", obj(vec![("$date", s("u"))])),
        ("other", obj(vec![("$date", s("o"))])),
    ]);
    convert_timestamps(&mut v);
    assert_eq!(as_str(member(&v, "created_at")), Some("c"));
    assert_eq!(as_str(member(&v, "updated_at")), Some("u"));
    assert!(matches!(member(&v, "other"), Some(JsonValue::Object(_))));
}
