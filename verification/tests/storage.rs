use proksi::storage::KeyAuthorization;
use proksi::Storage;

#[test]
fn storage_starts_empty() {
    let storage = Storage::new();
    assert_eq!(storage.get_orders().len(), 0);
    assert!(storage.get_order("example.com").is_none());
    assert!(storage.get_certificate("example.com").is_none());
    assert!(!storage.has_order("example.com"));
}

#[test]
fn storage_default_is_empty() {
    let storage = Storage::default();
    assert!(storage.get_orders().is_empty());
    assert!(storage.get_certificate("example.com").is_none());
}

#[test]
fn add_order_then_get_order() {
    let mut storage = Storage::new();
    storage.add_order(
        "example.com".to_string(),
        "tok123".to_string(),
        "https://acme.test/chall/1".to_string(),
        KeyAuthorization::new("abc".to_string()),
    );
    let (token, url, key_auth) = storage.get_order("example.com").expect("the order was added");
    assert_eq!(token, "tok123");
    assert_eq!(url, "https://acme.test/chall/1");
    assert_eq!(key_auth.thumbprint(), "abc");
    assert!(storage.has_order("example.com"));
    assert!(storage.get_order("other.com").is_none());
    assert_eq!(storage.get_orders().len(), 1);
    assert!(storage.get_orders().contains_key("example.com"));
    assert!(storage.get_certificate("example.com").is_none());
}

#[test]
fn add_order_overwrites_the_pending_order() {
    let mut storage = Storage::new();
    storage.add_order(
        "example.com".to_string(),
        "old".to_string(),
        "u1".to_string(),
        KeyAuthorization::new("t1".to_string()),
    );
    storage.add_order(
        "example.com".to_string(),
        "new".to_string(),
        "u2".to_string(),
        KeyAuthorization::new("t2".to_string()),
    );
    let order = storage.get_order("example.com").unwrap();
    assert_eq!(order.0, "new");
    assert_eq!(order.1, "u2");
    assert_eq!(order.2, KeyAuthorization::new("t2".to_string()));
    assert_eq!(storage.get_orders().len(), 1);
}

#[test]
fn remove_order_drops_only_that_order() {
    let mut storage = Storage::new();
    storage.add_order(
        "a.example".to_string(),
        "ta".to_string(),
        "ua".to_string(),
        KeyAuthorization::new("ka".to_string()),
    );
    storage.add_order(
        "b.example".to_string(),
        "tb".to_string(),
        "ub".to_string(),
        KeyAuthorization::new("kb".to_string()),
    );
    storage.add_certificate("a.example".to_string(), "PEM".to_string());
    storage.remove_order("a.example");
    assert!(!storage.has_order("a.example"));
    assert!(storage.has_order("b.example"));
    assert_eq!(storage.get_certificate("a.example"), Some(&"PEM".to_string()));
    storage.remove_order("a.example");
    storage.remove_order("never.added");
    assert_eq!(storage.get_orders().len(), 1);
}

#[test]
fn add_certificate_then_get_certificate() {
    let mut storage = Storage::new();
    storage.add_certificate("example.com".to_string(), "-----BEGIN CERTIFICATE-----".to_string());
    assert_eq!(
        storage.get_certificate("example.com"),
        Some(&"-----BEGIN CERTIFICATE-----".to_string())
    );
    assert!(storage.get_certificate("other.com").is_none());
    assert!(!storage.has_order("example.com"));
    storage.add_certificate("example.com".to_string(), "renewed".to_string());
    assert_eq!(storage.get_certificate("example.com"), Some(&"renewed".to_string()));
}

#[test]
fn key_authorization_value_is_token_dot_thumbprint() {
    let key_auth = KeyAuthorization::new("abc".to_string());
    assert_eq!(key_auth.value("tok123"), "tok123.abc");
    assert_eq!(key_auth.thumbprint(), "abc");
    assert_eq!(KeyAuthorization::new(String::new()).value(""), ".");
}

#[test]
fn key_authorization_from_value_strips_the_token() {
    let parsed = KeyAuthorization::from_value("tok123", "tok123.abc").expect("well formed");
    assert_eq!(parsed.thumbprint(), "abc");
    assert_eq!(parsed, KeyAuthorization::new("abc".to_string()));
    let dotted = KeyAuthorization::from_value("a.b", "a.b.c.d").expect("well formed");
    assert_eq!(dotted.thumbprint(), "c.d");
    let empty = KeyAuthorization::from_value("tok", "tok.").expect("well formed");
    assert_eq!(empty.thumbprint(), "");
    let wide = KeyAuthorization::from_value("t\u{e9}", "t\u{e9}.\u{20ac}x").expect("well formed");
    assert_eq!(wide.thumbprint(), "\u{20ac}x");
}

#[test]
fn key_authorization_from_value_rejects_other_values() {
    assert!(KeyAuthorization::from_value("tok123", "tok124.abc").is_none());
    assert!(KeyAuthorization::from_value("tok123", "tok123").is_none());
    assert!(KeyAuthorization::from_value("tok123", "tok123-abc").is_none());
    assert!(KeyAuthorization::from_value("tok123", "tok12").is_none());
    assert!(KeyAuthorization::from_value("tok123", "").is_none());
    assert!(KeyAuthorization::from_value("tok123", "xtok123.abc").is_none());
}

#[test]
fn key_authorization_round_trips_through_its_value() {
    let key_auth = KeyAuthorization::new("thumb-print_0".to_string());
    let value = key_auth.value("some-token");
    assert_eq!(KeyAuthorization::from_value("some-token", &value), Some(key_auth));
}
