use mongo_repository::config::{RepositoryConfig, DEFAULT_WRITE_CONCERN};

fn full_config() -> RepositoryConfig {
    RepositoryConfig::builder()
        .primary_mongo_url("mongodb://localhost:27017")
        .secondary_mongo_url("mongodb://replica:27017")
        .app_name("my_app")
        .database_name("my_db")
        .collection_name("my_collection")
        .write_concern(2)
        .max_pool_size(50)
        .min_pool_size(5)
        .max_idle_time_secs(120)
        .build()
}

#[test]
fn build_keeps_every_setting() {
    let c = full_config();
    assert_eq!(c.database_name, "my_db");
    assert_eq!(c.collection_name, "my_collection");
    assert_eq!(c.write_concern, Some(2));
    assert_eq!(c.max_pool_size, Some(50));
    assert_eq!(c.min_pool_size, Some(5));
    assert_eq!(c.max_idle_time_secs, Some(120));
}

#[test]
fn build_with_only_required_settings() {
    let c = RepositoryConfig::builder()
        .primary_mongo_url("mongodb://localhost:27017")
        .database_name("db")
        .collection_name("coll")
        .build();
    assert_eq!(c.write_concern, None);
    assert_eq!(c.max_pool_size, None);
    assert_eq!(c.min_pool_size, None);
    assert_eq!(c.max_idle_time_secs, None);
    let s = c.client_settings();
    assert_eq!(s.app_name, "");
    assert_eq!(s.conn_url, "mongodb://localhost:27017");
}

#[test]
fn later_setting_wins() {
    let c = RepositoryConfig::builder()
        .primary_mongo_url("mongodb://a")
        .database_name("first")
        .collection_name("coll")
        .database_name("second")
        .write_concern(1)
        .write_concern(5)
        .build();
    assert_eq!(c.database_name, "second");
    assert_eq!(c.write_concern, Some(5));
}

#[test]
fn completeness_requires_the_three_names() {
    let b = RepositoryConfig::builder().primary_mongo_url("u").database_name("d");
    assert!(!b.is_complete());
    let b = b.collection_name("c");
    assert!(b.is_complete());
    assert!(!RepositoryConfig::builder().database_name("d").collection_name("c").is_complete());
}

#[test]
fn client_settings_default_write_concern_is_three() {
    let c = RepositoryConfig::builder()
        .primary_mongo_url("mongodb://h")
        .app_name("svc")
        .database_name("d")
        .collection_name("c")
        .max_idle_time_secs(4_000_000_000)
        .build();
    let s = c.client_settings();
    assert_eq!(DEFAULT_WRITE_CONCERN, 3);
    assert_eq!(s.write_concern_nodes, 3);
    assert_eq!(s.app_name, "svc");
    assert_eq!(s.max_idle_time_secs, Some(4_000_000_000u64));
}

#[test]
fn client_settings_follow_the_configuration() {
    let s = full_config().client_settings();
    assert_eq!(s.conn_url, "mongodb://localhost:27017");
    assert_eq!(s.app_name, "my_app");
    assert_eq!(s.write_concern_nodes, 2);
    assert_eq!(s.max_pool_size, Some(50));
    assert_eq!(s.min_pool_size, Some(5));
    assert_eq!(s.max_idle_time_secs, Some(120));
    assert!(s.read_concern_majority);
    assert!(s.server_api_v1);
}

#[test]
fn description_of_full_config() {
    assert_eq!(
        full_config().to_string(),
        "RepositoryConfig { primary_mongo_url: mongodb://localhost:27017, secondary_mongo_url: Some(\"mongodb://replica:27017\"), app_name: my_app, database_name: my_db, collection_name: my_collection, write_concern: Some(2), max_pool_size: Some(50), min_pool_size: Some(5), max_idle_time_secs: Some(120) }"
    );
}

#[test]
fn description_of_minimal_config() {
    let c = RepositoryConfig::builder()
        .primary_mongo_url("u")
        .database_name("d")
        .collection_name("c")
        .max_pool_size(0)
        .min_pool_size(4294967295)
        .build();
    assert_eq!(
        c.to_string(),
        "RepositoryConfig { primary_mongo_url: u, secondary_mongo_url: None, app_name: , database_name: d, collection_name: c, write_concern: None, max_pool_size: Some(0), min_pool_size: Some(4294967295), max_idle_time_secs: None }"
    );
}

#[test]
fn description_escapes_the_secondary_url() {
    let c = RepositoryConfig::builder()
        .primary_mongo_url("p")
        .secondary_mongo_url("a\"b\\c")
        .database_name("d")
        .collection_name("c")
        .build();
    let text = c.to_string();
    assert!(text.contains("secondary_mongo_url: Some(\"a\\\"b\\\\c\")"));
}

#[test]
fn getters_read_the_private_settings() {
    let c = full_config();
    assert_eq!(c.primary_mongo_url(), "mongodb://localhost:27017");
    assert_eq!(c.secondary_mongo_url(), Some("mongodb://replica:27017"));
    assert_eq!(c.app_name(), "my_app");
    let m = RepositoryConfig::builder().primary_mongo_url("p").database_name("d").collection_name("c").build();
    assert_eq!(m.secondary_mongo_url(), None);
    assert_eq!(m.app_name(), "");
}

#[test]
fn getters_read_the_public_settings() {
    let c = full_config();
    assert_eq!(c.database_name(), "my_db");
    assert_eq!(c.collection_name(), "my_collection");
    assert_eq!(c.write_concern(), Some(2));
    assert_eq!(c.max_pool_size(), Some(50));
    assert_eq!(c.min_pool_size(), Some(5));
    assert_eq!(c.max_idle_time_secs(), Some(120));
}
