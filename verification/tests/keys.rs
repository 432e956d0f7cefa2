use nautilus_cache::config::{CacheConfig, DatabaseConfig, SerializationEncoding};
use nautilus_cache::error::{CacheError, CacheFault, DataOperation};
use nautilus_cache::keys::{get_collection_key, get_index_key, get_trader_key};
use nautilus_cache::text::{
    self, concat3, find_char, find_str, join, str_eq, strip_prefix, u64_to_string,
};

#[test]
fn test_get_trader_key_with_prefix_and_instance_id() {
    let trader_id = "tester-123";
    let instance_id = "d1b2c3d4-0000-4000-8000-000000000001";
    let config = CacheConfig {
        use_instance_id: true,
        ..Default::default()
    };

    let key = get_trader_key(trader_id, instance_id, &config);
    assert!(key.starts_with("trader-tester-123:"));
    assert!(key.ends_with(instance_id));
}

#[test]
fn test_get_collection_key_valid() {
    let key = "collection:123";
    assert_eq!(get_collection_key(key).unwrap(), "collection");
}

#[test]
fn test_get_collection_key_invalid() {
    let key = "no_delimiter";
    assert!(get_collection_key(key).is_err());
}

#[test]
fn trader_key_has_every_form() {
    let mut config = CacheConfig::default();
    assert_eq!(get_trader_key("T-1", "abc", &config), "trader-T-1");
    config.use_trader_prefix = false;
    assert_eq!(get_trader_key("T-1", "abc", &config), "T-1");
    config.use_instance_id = true;
    assert_eq!(get_trader_key("T-1", "abc", &config), "T-1:abc");
    config.use_trader_prefix = true;
    assert_eq!(get_trader_key("T-1", "abc", &config), "trader-T-1:abc");
}

#[test]
fn default_config_has_no_database() {
    let config = CacheConfig::default();
    assert!(config.database.is_none());
    assert_eq!(config.encoding, SerializationEncoding::MsgPack);
    assert!(config.use_trader_prefix);
    assert!(!config.use_instance_id);
    assert_eq!(config.buffer_interval_millis(), 0);
    let buffered = CacheConfig {
        database: Some(DatabaseConfig { url: "redis://localhost".to_string() }),
        buffer_interval_ms: Some(250),
        ..Default::default()
    };
    assert_eq!(buffered.buffer_interval_millis(), 250);
}

#[test]
fn collection_ends_at_the_first_delimiter() {
    assert_eq!(get_collection_key("snapshots:orders:O-1").unwrap(), "snapshots");
    assert_eq!(get_collection_key(":x").unwrap(), "");
    assert_eq!(
        get_collection_key("no_delimiter").unwrap_err(),
        CacheFault::MissingDelimiter { key: "no_delimiter".to_string() }
    );
}

#[test]
fn index_key_starts_behind_the_trader_key() {
    assert_eq!(get_index_key("trader-T-1:index:orders").unwrap(), "index:orders");
    assert_eq!(get_index_key("trader-T-1:abc:index:order_ids").unwrap(), "index:order_ids");
    assert_eq!(
        get_index_key("trader-T-1:orders:O-1").unwrap_err(),
        CacheFault::InvalidIndexKey { key: "trader-T-1:orders:O-1".to_string() }
    );
}

#[test]
fn index_key_of_a_trader_key_with_a_marker_is_another_one() {
    assert_eq!(get_index_key("a:index:index:orders").unwrap(), "index:index:orders");
}

#[test]
fn text_functions_count_characters() {
    assert!(str_eq("größe", "größe"));
    assert!(!str_eq("größe", "grösse"));
    assert_eq!(text::concat("ab", "ç"), "abç");
    assert_eq!(concat3("a", "b", "c"), "abc");
    assert_eq!(join("a", "b"), "a:b");
    assert_eq!(find_char("ä:b", ':'), Some(1));
    assert_eq!(find_char("ab", ':'), None);
    assert_eq!(find_str("xx:index:y", ":index:"), Some(2));
    assert_eq!(find_str("xx", ":index:"), None);
    assert_eq!(strip_prefix("a:b:c", "a:"), Some("b:c".to_string()));
    assert_eq!(strip_prefix("a:b:c", "b:"), None);
    assert_eq!(strip_prefix("a", "abc"), None);
}

#[test]
fn decimal_text_of_integers() {
    assert_eq!(u64_to_string(0), "0");
    assert_eq!(u64_to_string(9), "9");
    assert_eq!(u64_to_string(10), "10");
    assert_eq!(u64_to_string(1_234_567_890), "1234567890");
    assert_eq!(u64_to_string(u64::MAX), "18446744073709551615");
}

#[test]
fn error_messages() {
    let s = |text: &str| text.to_string();
    let cases: Vec<(CacheError, &str)> = vec![
        (CacheFault::NoDatabaseConfig, "No database config"),
        (
            CacheFault::NullKey { message: s("DatabaseCommand { .. }") },
            "Null key found for message: DatabaseCommand { .. }",
        ),
        (
            CacheFault::MissingDelimiter { key: s("k") },
            "Invalid `key`, missing a ':' delimiter, was k",
        ),
        (
            CacheFault::NullPayload { operation: DataOperation::Insert },
            "Null `payload` for `insert`",
        ),
        (
            CacheFault::NullPayload { operation: DataOperation::Update },
            "Null `payload` for `update`",
        ),
        (CacheFault::EmptyPayload, "the 'value' slice was empty"),
        (
            CacheFault::UnsupportedOperation {
                operation: DataOperation::Delete,
                collection: s("nothing"),
            },
            "Unsupported operation: `delete` for collection 'nothing'",
        ),
        (CacheFault::InvalidIndexKey { key: s("k") }, "Invalid index key format: k"),
        (CacheFault::UnknownIndex { index: s("index:x") }, "Index unknown 'index:x' on insert"),
        (
            CacheFault::UnsupportedRemoval { index: s("index:x") },
            "Unsupported index operation: remove from 'index:x'",
        ),
        (
            CacheFault::MissingDeletePayload { key: s("t:index:orders") },
            "Empty `payload` for `delete` 't:index:orders'",
        ),
        (CacheFault::Serialization { cause: s("bad") }, "bad"),
        (CacheFault::Deserialization { cause: s("worse") }, "worse"),
        (CacheFault::AccountWithoutEvents { account_id: s("A-1") }, "Account A-1 has no events"),
        (
            CacheFault::PositionWithoutEvents { position_id: s("P-1") },
            "Position P-1 has no events",
        ),
        (
            CacheFault::SendFailed { context: s("Failed to send"), cause: s("closed") },
            "Failed to send: closed",
        ),
        (CacheFault::FlushReplyLost { cause: s("gone") }, "Failed to flush database: gone"),
        (
            CacheFault::ListRead { key: s("k"), cause: s("io") },
            "LRANGE failed for k: io",
        ),
        (CacheFault::Query { cause: s("refused") }, "refused"),
        (CacheFault::ReadReplyLost { cause: s("gone") }, "Channel closed: gone"),
        (
            CacheFault::GeneralReplyLost { cause: s("gone") },
            "Failed to receive load() result: gone",
        ),
        (CacheFault::LoadAll { cause: s("orders") }, "Error loading cache data: orders"),
    ];
    for (error, message) in cases {
        assert_eq!(error.message(), message);
        assert_eq!(error.clone(), error);
    }
}
