use vindicate_api::config::{Config, ConfigError};
use vindicate_api::error::{ApiError, SourceError};
use vindicate_api::json::JsonValue;
use vindicate_api::lookup::{after_cache_read, after_fetch, CacheStep, SourceInfo};
use vindicate_api::models::{SourceData, Timestamp};
use vindicate_api::text::{blank, decimal_string, nonempty, parse_u16, parse_u64, prefix_bytes};

fn empty_data() -> SourceData {
    SourceData {
        registrations: vec![],
        inspections: vec![],
        recalls: vec![],
        encumbrances: vec![],
        decode: None,
    }
}

fn info() -> SourceInfo {
    SourceInfo {
        id: "nhtsa_vpic".to_string(),
        country: "XX".to_string(),
        name: "NHTSA vPIC".to_string(),
        ttl_secs: 2592000,
    }
}

const AT: Timestamp = Timestamp { secs: 10, nanos: 20 };

#[test]
fn decimal_notation() {
    assert_eq!(decimal_string(0), "0");
    assert_eq!(decimal_string(7), "7");
    assert_eq!(decimal_string(404), "404");
    assert_eq!(decimal_string(u64::MAX), "18446744073709551615");
}

#[test]
fn unsigned_parsing_follows_str_parse() {
    assert_eq!(parse_u64("0042"), Some(42));
    assert_eq!(parse_u64("+7"), Some(7));
    assert_eq!(parse_u64("+"), None);
    assert_eq!(parse_u64(""), None);
    assert_eq!(parse_u64("-1"), None);
    assert_eq!(parse_u64(" 1"), None);
    assert_eq!(parse_u64("18446744073709551615"), Some(u64::MAX));
    assert_eq!(parse_u64("18446744073709551616"), None);
    assert_eq!(parse_u16("65535"), Some(65535));
    assert_eq!(parse_u16("65536"), None);
    for text in ["12", "+3", "x", "99999999999999999999", "65536"] {
        assert_eq!(parse_u64(text), text.parse::<u64>().ok());
        assert_eq!(parse_u16(text), text.parse::<u16>().ok());
    }
}

#[test]
fn blank_and_nonempty() {
    assert!(blank(""));
    assert!(blank(" \t\n\u{3000}"));
    assert!(!blank(" a "));
    assert_eq!(nonempty(Some("  ".to_string())), None);
    assert_eq!(nonempty(Some(" x".to_string())), Some(" x".to_string()));
    assert_eq!(nonempty(None), None);
}

#[test]
fn byte_prefixes() {
    assert_eq!(prefix_bytes("1HGCM8", 3), Some("1HG".to_string()));
    assert_eq!(prefix_bytes("ab", 3), None);
    assert_eq!(prefix_bytes("aé", 2), None);
    assert_eq!(prefix_bytes("aéb", 3), Some("aé".to_string()));
}

#[test]
fn json_accessors() {
    let v = JsonValue::Object(vec![
        ("a".to_string(), JsonValue::Str("x".to_string())),
        ("n".to_string(), JsonValue::Number(Some(5))),
        ("f".to_string(), JsonValue::Number(None)),
        ("list".to_string(), JsonValue::Array(vec![JsonValue::Bool(true)])),
    ]);
    assert_eq!(v.str_field("a"), Some(&"x".to_string()));
    assert_eq!(v.str_field("n"), None);
    assert_eq!(v.u64_field("n"), Some(5));
    assert_eq!(v.u64_field("f"), None);
    assert_eq!(v.array_field("list").map(|l| l.len()), Some(1));
    assert!(v.get("missing").is_none());
    assert!(!v.is_null());
    assert!(JsonValue::Null.is_null());
    assert!(JsonValue::Array(vec![]).get("a").is_none());
}

#[test]
fn config_defaults_and_port_checks() {
    let c = Config::from_settings(None, None, None, None, None, None).unwrap();
    assert_eq!(c.port, 8080);
    assert_eq!(c.redis_url, "redis://127.0.0.1:6379");
    let c = Config::from_settings(
        Some("9000".to_string()),
        Some("redis://cache:6379".to_string()),
        Some("dvla".to_string()),
        None,
        None,
        Some("rdw".to_string()),
    )
    .unwrap();
    assert_eq!(c.port, 9000);
    assert_eq!(c.redis_url, "redis://cache:6379");
    assert_eq!(c.dvla_api_key, Some("dvla".to_string()));
    assert_eq!(c.rdw_app_token, Some("rdw".to_string()));
    let bad = Config::from_settings(Some("http".to_string()), None, None, None, None, None);
    assert_eq!(bad, Err(ConfigError::InvalidPort));
    assert_eq!(ConfigError::InvalidPort.message(), "Invalid PORT");
    assert_eq!(
        Config::from_settings(Some("70000".to_string()), None, None, None, None, None),
        Err(ConfigError::InvalidPort)
    );
}

#[test]
fn api_error_texts_and_statuses() {
    let invalid = ApiError::InvalidVin("VIN must be 17 characters, got 3".to_string());
    assert_eq!(invalid.message(), "Invalid VIN: VIN must be 17 characters, got 3");
    assert_eq!(invalid.response_parts(), (400, "VIN must be 17 characters, got 3".to_string()));
    assert_eq!(ApiError::NotFound.message(), "Not found");
    assert_eq!(ApiError::NotFound.response_parts(), (404, "Not found".to_string()));
    let cache = ApiError::Cache("down".to_string());
    assert_eq!(cache.message(), "Cache error: down");
    assert_eq!(cache.response_parts(), (500, "down".to_string()));
    let internal = ApiError::Internal("boom".to_string());
    assert_eq!(internal.message(), "Internal error: boom");
    assert_eq!(internal.response_parts(), (500, "boom".to_string()));
}

#[test]
fn source_error_texts() {
    assert_eq!(SourceError::Http("x".to_string()).message(), "HTTP error: x");
    assert_eq!(SourceError::Parse("y".to_string()).message(), "Parse error: y");
    assert_eq!(SourceError::NotFound.message(), "Not found");
    assert_eq!(SourceError::RateLimited.message(), "Rate limited");
    assert_eq!(SourceError::NotSupported.message(), "Not supported");
    assert_eq!(SourceError::Unavailable("z".to_string()).message(), "Unavailable: z");
}

#[test]
fn a_cache_hit_is_the_outcome() {
    match after_cache_read(info(), AT, Some(empty_data())) {
        CacheStep::Done(o) => {
            assert!(o.cached);
            assert_eq!(o.id, "nhtsa_vpic");
            assert_eq!(o.queried_at, AT);
            assert_eq!(o.result, Ok(empty_data()));
        }
        CacheStep::Fetch(_) => panic!("a cached answer must not be fetched again"),
    }
}

#[test]
fn a_cache_miss_asks_the_source() {
    assert_eq!(after_cache_read(info(), AT, None), CacheStep::Fetch(info()));
}

#[test]
fn only_answers_are_cached() {
    let (o, store) = after_fetch(info(), AT, Ok(empty_data()));
    assert_eq!(store, Some(2592000));
    assert!(!o.cached);
    let (o, store) = after_fetch(info(), AT, Err(SourceError::RateLimited));
    assert_eq!(store, None);
    assert_eq!(o.result, Err(SourceError::RateLimited));
    assert_eq!(o.name, "NHTSA vPIC");
}
