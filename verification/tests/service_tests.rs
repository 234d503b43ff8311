use mongo_repository::document::{BsonDocument, BsonValue};
use mongo_repository::error::{MongoError, RepositoryError};
use mongo_repository::json::JsonValue;
use mongo_repository::pagination::{current_page, find_projection, page_size, paginate, PageInfo};
use mongo_repository::service::{
    connection_outcome, default_update_settings, initialization_outcome, initialized,
    insert_many_settings, query_read_settings, session_outcome, DEFAULT_PAGE_SIZE,
    PING_INTERVAL_SECS, PING_START_DELAY_SECS,
    count_outcome, find_one_result, find_outcome, insert_many_outcome, insert_one_outcome,
    namespace_summary, offset_page_info, prepare_insert_many, record_id, record_id_projection,
    update_one_outcome,
};

fn err(m: &str) -> MongoError {
    MongoError { message: m.to_string() }
}

fn keys(d: &BsonDocument) -> Vec<String> {
    d.entries.iter().map(|(k, _)| k.clone()).collect()
}

#[test]
fn page_size_is_limit_at_least_one() {
    assert_eq!(page_size(Some(25)), 25);
    assert_eq!(page_size(Some(1)), 1);
    assert_eq!(page_size(Some(0)), 1);
    assert_eq!(page_size(Some(-7)), 1);
    assert_eq!(page_size(None), 1);
}

#[test]
fn current_page_divides_skip_by_page_size() {
    assert_eq!(current_page(Some(0), 10), 0);
    assert_eq!(current_page(Some(9), 10), 0);
    assert_eq!(current_page(Some(10), 10), 1);
    assert_eq!(current_page(Some(95), 10), 9);
    assert_eq!(current_page(None, 10), 0);
    assert_eq!(current_page(Some(u64::MAX), 1), u64::MAX);
}

#[test]
fn find_projection_excludes_id() {
    let p = find_projection(None);
    assert_eq!(keys(&p), vec!["_id".to_string()]);
    assert!(matches!(p.get("_id"), Some(BsonValue::Int32(0))));
    let mut given = BsonDocument::new();
    given.insert("name", BsonValue::Int32(1));
    given.insert("_id", BsonValue::Int32(1));
    let p = find_projection(Some(given));
    assert_eq!(keys(&p), vec!["name".to_string(), "_id".to_string()]);
    assert!(matches!(p.get("_id"), Some(BsonValue::Int32(0))));
    assert!(matches!(p.get("name"), Some(BsonValue::Int32(1))));
}

#[test]
fn paginate_assembles_the_page() {
    let item = JsonValue::Object(vec![(
        "created_at".to_string(),
        JsonValue::Object(vec![("$date".to_string(), JsonValue::String("d".to_string()))]),
    )]);
    let info = PageInfo {
        has_next_page: true,
        has_previous_page: false,
        start_cursor: Some("s".to_string()),
        next_cursor: Some("n".to_string()),
    };
    let r = paginate(info, 42, vec![item, JsonValue::Null], Some(20), Some(40));
    assert!(r.has_next_page);
    assert!(!r.has_previous_page);
    assert_eq!(r.start_cursor, Some("s".to_string()));
    assert_eq!(r.next_cursor, Some("n".to_string()));
    assert_eq!(r.total_results, 42);
    assert_eq!(r.page_size, 20);
    assert_eq!(r.current_page, 2);
    assert_eq!(r.results.len(), 2);
    match &r.results[0] {
        JsonValue::Object(e) => assert!(matches!(&e[0].1, JsonValue::String(t) if t == "d")),
        _ => panic!("expected an object"),
    }
    assert!(matches!(r.results[1], JsonValue::Null));
}

#[test]
fn paginate_without_limit_or_skip() {
    let info = PageInfo { has_next_page: false, has_previous_page: false, start_cursor: None, next_cursor: None };
    let r = paginate(info, 0, vec![], None, None);
    assert_eq!(r.page_size, 1);
    assert_eq!(r.current_page, 0);
    assert!(r.results.is_empty());
}

#[test]
fn offset_page_info_flags() {
    let a = offset_page_info(0, 10, 25);
    assert!(a.has_next_page && !a.has_previous_page);
    let b = offset_page_info(20, 5, 25);
    assert!(!b.has_next_page && b.has_previous_page);
    let c = offset_page_info(30, 0, 25);
    assert!(!c.has_next_page && c.has_previous_page);
    assert!(c.start_cursor.is_none() && c.next_cursor.is_none());
}

#[test]
fn summary_joins_database_and_collection() {
    assert_eq!(namespace_summary("db", "coll"), "db:coll");
    assert_eq!(namespace_summary("", ""), ":");
}

#[test]
fn record_ids_are_read_from_strings_only() {
    let p = record_id_projection();
    assert_eq!(keys(&p), vec!["_id".to_string(), "_record_id".to_string()]);
    assert!(matches!(p.get("_record_id"), Some(BsonValue::Int32(1))));
    let mut d = BsonDocument::new();
    d.insert("_record_id", BsonValue::String("r-1".to_string()));
    assert_eq!(record_id(&d), Some("r-1".to_string()));
    let mut e = BsonDocument::new();
    e.insert("_record_id", BsonValue::Int32(3));
    assert_eq!(record_id(&e), None);
    assert_eq!(record_id(&BsonDocument::new()), None);
}

#[test]
fn outcomes_map_driver_results() {
    assert!(matches!(count_outcome(Ok(7)), Ok(7)));
    assert!(matches!(count_outcome(Err("x".to_string())), Err(RepositoryError::CountFailed(m)) if m == "x"));
    assert!(matches!(find_one_result(Ok(None)), Some(Err(RepositoryError::NoDocument))));
    assert!(matches!(find_one_result(Err(err("f"))), Some(Err(RepositoryError::FindFailed(e))) if e.message == "f"));
    assert!(matches!(find_outcome::<u8>(Err(err("g"))), Err(RepositoryError::FindFailed(e)) if e.message == "g"));
    assert!(matches!(update_one_outcome(Ok(None)), Ok(None)));
    assert!(matches!(update_one_outcome(Err(err("u"))), Err(RepositoryError::UpdateOneFailed(e)) if e.message == "u"));
    assert!(matches!(insert_one_outcome::<u8>(Err(err("i"))), Err(RepositoryError::InsertOneFailed(e)) if e.message == "i"));
    assert!(matches!(insert_many_outcome::<u8>(Err(err("m"))), Err(RepositoryError::InsertManyFailed(e)) if e.message == "m"));
    assert!(matches!(insert_many_outcome::<u8>(Ok(1)), Ok(1)));
}

fn obj(entries: Vec<(&str, JsonValue)>) -> JsonValue {
    JsonValue::Object(entries.into_iter().map(|(k, v)| (k.to_string(), v)).collect())
}

#[test]
fn prepare_insert_many_stamps_every_document() {
    let a = obj(vec![("k", JsonValue::String("v".to_string()))]);
    let b = obj(vec![]);
    let r = prepare_insert_many(vec![a, b], 77).ok().unwrap();
    assert_eq!(r.len(), 2);
    assert_eq!(keys(&r[0]), vec!["k".to_string(), "created_at".to_string(), "updated_at".to_string()]);
    assert!(matches!(r[0].get("k"), Some(BsonValue::String(s)) if s == "v"));
    assert_eq!(keys(&r[1]), vec!["created_at".to_string(), "updated_at".to_string()]);
    for d in &r {
        assert!(matches!(d.get("created_at"), Some(BsonValue::DateTime(77))));
        assert!(matches!(d.get("updated_at"), Some(BsonValue::DateTime(77))));
    }
}

#[test]
fn prepare_insert_many_reports_the_first_failure() {
    let r = prepare_insert_many(vec![obj(vec![]), JsonValue::Null, JsonValue::Bool(true)], 1);
    let expected = mongodb::bson::to_document(&serde_json::Value::Null).unwrap_err().to_string();
    assert!(matches!(r, Err(RepositoryError::BsonSerializationFailed(m)) if m == expected));
    assert!(prepare_insert_many(vec![], 1).ok().unwrap().is_empty());
}

#[test]
fn find_one_result_reads_the_found_document() {
    let mut d = BsonDocument::new();
    d.insert("name", BsonValue::String("x".to_string()));
    match find_one_result(Ok(Some(d))) {
        Some(Ok(JsonValue::Object(e))) => {
            assert_eq!(e.len(), 1);
            assert_eq!(e[0].0, "name");
            assert!(matches!(&e[0].1, JsonValue::String(s) if s == "x"));
        }
        _ => panic!("expected the document as an object"),
    }
}

#[test]
fn update_one_outcome_reads_the_updated_document() {
    let mut d = BsonDocument::new();
    d.insert("n", BsonValue::Int32(4));
    match update_one_outcome(Ok(Some(d))) {
        Ok(Some(JsonValue::Object(e))) => {
            assert_eq!(e[0].0, "n");
            assert!(matches!(&e[0].1, JsonValue::Number(n) if n.as_i64() == Some(4)));
        }
        _ => panic!("expected the updated document"),
    }
}

#[test]
fn request_settings_are_fixed() {
    assert!(query_read_settings().read_concern_majority);
    let i = insert_many_settings();
    assert!(i.ordered && i.write_concern_majority);
    let u = default_update_settings();
    assert!(!u.upsert && u.write_concern_majority && u.return_updated);
    assert_eq!(DEFAULT_PAGE_SIZE, 30);
    assert_eq!(PING_START_DELAY_SECS, 30);
    assert_eq!(PING_INTERVAL_SECS, 60);
}

#[test]
fn connection_outcomes() {
    assert!(matches!(initialization_outcome::<u8, ()>(Err(())), Err(RepositoryError::InitializationFailed)));
    assert!(matches!(initialization_outcome::<u8, String>(Ok(2)), Ok(2)));
    assert!(matches!(initialized::<u8>(None), Err(RepositoryError::UnIntialized)));
    assert!(matches!(initialized(Some(5u8)), Ok(5)));
    assert!(matches!(connection_outcome::<u8>(Err(err("c"))), Err(RepositoryError::ClientError(e)) if e.message == "c"));
    assert!(matches!(session_outcome::<u8>(Err(err("s"))), Err(RepositoryError::SessionCreationError(e)) if e.message == "s"));
    assert!(matches!(session_outcome::<u8>(Ok(1)), Ok(1)));
}
