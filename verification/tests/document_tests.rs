use mongo_repository::datetime::{stamp, stamp_now, update_many_ts, update_one_ts};
use mongo_repository::document::{BsonDocument, BsonValue};
use mongodb::bson::Bson;

fn doc(entries: Vec<(&str, BsonValue)>) -> BsonDocument {
    BsonDocument { entries: entries.into_iter().map(|(k, v)| (k.to_string(), v)).collect() }
}

fn text_of(ms: i64) -> String {
    mongodb::bson::DateTime::from_millis(ms).to_string()
}

fn string_at(d: &BsonDocument, key: &str) -> Option<String> {
    match d.get(key) {
        Some(BsonValue::String(s)) => Some(s.clone()),
        _ => None,
    }
}

#[test]
fn insert_replaces_in_place_and_appends_new_keys() {
    let mut d = doc(vec![("a", BsonValue::Int32(1)), ("b", BsonValue::Int32(2))]);
    d.insert("a", BsonValue::Int32(9));
    d.insert("c", BsonValue::Int32(3));
    let keys: Vec<&str> = d.entries.iter().map(|(k, _)| k.as_str()).collect();
    assert_eq!(keys, vec!["a", "b", "c"]);
    assert!(matches!(d.get("a"), Some(BsonValue::Int32(9))));
    assert!(matches!(d.get("b"), Some(BsonValue::Int32(2))));
    assert!(matches!(d.get("c"), Some(BsonValue::Int32(3))));
    assert!(d.get("z").is_none());
}

#[test]
fn update_one_ts_turns_datetimes_into_text() {
    let d = doc(vec![
        ("name", BsonValue::String("x".to_string())),
        ("created_at", BsonValue::DateTime(1_700_000_000_000)),
        ("updated_at", BsonValue::DateTime(1_700_000_123_456)),
    ]);
    let r = update_one_ts(&d);
    assert_eq!(r.entries.len(), 3);
    assert_eq!(string_at(&r, "created_at"), Some(text_of(1_700_000_000_000)));
    assert_eq!(string_at(&r, "updated_at"), Some(text_of(1_700_000_123_456)));
    assert_ne!(string_at(&r, "created_at"), Some("1700000000000".to_string()));
    assert_eq!(string_at(&r, "name"), Some("x".to_string()));
    assert_eq!(r.entries[1].0, "created_at");
    // the input is left as it was
    assert!(matches!(d.get("created_at"), Some(BsonValue::DateTime(1_700_000_000_000))));
}

#[test]
fn update_one_ts_leaves_other_kinds_alone() {
    let d = doc(vec![
        ("created_at", BsonValue::String("yesterday".to_string())),
        ("updated_at", BsonValue::Other(Bson::Int64(5))),
    ]);
    let r = update_one_ts(&d);
    assert_eq!(string_at(&r, "created_at"), Some("yesterday".to_string()));
    assert!(matches!(r.get("updated_at"), Some(BsonValue::Other(Bson::Int64(5)))));
    let empty = update_one_ts(&BsonDocument::new());
    assert!(empty.entries.is_empty());
}

#[test]
fn update_one_ts_is_idempotent() {
    let d = doc(vec![("created_at", BsonValue::DateTime(0)), ("updated_at", BsonValue::DateTime(86_400_000))]);
    let once = update_one_ts(&d);
    let twice = update_one_ts(&once);
    assert_eq!(string_at(&once, "created_at"), string_at(&twice, "created_at"));
    assert_eq!(string_at(&once, "updated_at"), string_at(&twice, "updated_at"));
    assert_eq!(once.entries.len(), twice.entries.len());
}

#[test]
fn update_many_ts_maps_each_document() {
    let docs = vec![
        doc(vec![("created_at", BsonValue::DateTime(1000))]),
        doc(vec![("updated_at", BsonValue::DateTime(2000))]),
    ];
    let r = update_many_ts(docs);
    assert_eq!(r.len(), 2);
    assert_eq!(string_at(&r[0], "created_at"), Some(text_of(1000)));
    assert!(r[0].get("updated_at").is_none());
    assert_eq!(string_at(&r[1], "updated_at"), Some(text_of(2000)));
}

#[test]
fn stamp_sets_both_timestamps() {
    let mut d = doc(vec![("v", BsonValue::Int32(1)), ("updated_at", BsonValue::Int32(0))]);
    stamp(&mut d, 42);
    assert!(matches!(d.get("created_at"), Some(BsonValue::DateTime(42))));
    assert!(matches!(d.get("updated_at"), Some(BsonValue::DateTime(42))));
    let keys: Vec<&str> = d.entries.iter().map(|(k, _)| k.as_str()).collect();
    assert_eq!(keys, vec!["v", "updated_at", "created_at"]);
}

#[test]
fn stamp_now_uses_one_reading() {
    let mut d = BsonDocument::new();
    let before = mongodb::bson::DateTime::now().timestamp_millis();
    let t = stamp_now(&mut d);
    assert!(t >= before);
    assert!(matches!(d.get("created_at"), Some(BsonValue::DateTime(x)) if *x == t));
    assert!(matches!(d.get("updated_at"), Some(BsonValue::DateTime(x)) if *x == t));
}

#[test]
fn stamp_then_read_out_gives_text_of_now() {
    let mut d = BsonDocument::new();
    stamp(&mut d, 1_234_567);
    let r = update_one_ts(&d);
    assert_eq!(string_at(&r, "created_at"), Some(text_of(1_234_567)));
    assert_eq!(string_at(&r, "updated_at"), Some(text_of(1_234_567)));
}
