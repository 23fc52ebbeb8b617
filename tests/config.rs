use ledger::config::{duration_millis, duration_text_in_bounds, Database, Redis};

#[test]
fn durations_in_milliseconds() {
    assert_eq!(duration_millis("1s"), Some(1000));
    assert_eq!(duration_millis("250ms"), Some(250));
    assert_eq!(duration_millis("2m 3s"), Some(123000));
    assert_eq!(duration_millis("1500us"), Some(1));
}

#[test]
fn malformed_duration_is_refused() {
    assert_eq!(duration_millis("soon"), None);
    assert_eq!(duration_millis(""), None);
}

#[test]
fn service_addresses() {
    let db = Database { host: "db".to_string(), port: 8080, max_connections: 4, max_idle_ms: 1000 };
    assert_eq!(db.url(), "http://db:8080");
    let redis = Redis { host: "cache".to_string(), port: 6379, ttl_ms: 1000 };
    assert_eq!(redis.url(), "redis://cache:6379/");
}

#[test]
fn duration_texts_with_too_many_digits_are_out_of_bounds() {
    assert!(duration_text_in_bounds("100ms"));
    assert!(duration_text_in_bounds("99999999999y"));
    assert!(!duration_text_in_bounds("999999999999y"));
    assert!(!duration_text_in_bounds("18446744073709551615s 1000000000ns"));
    assert_eq!(duration_millis("99999999999s"), Some(99999999999000));
}
