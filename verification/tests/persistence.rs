use tauri_plugin_clerk::store::{ClerkMemoryStore, PersistenceAdapter};

#[test]
fn set_then_get_returns_value() {
    let mut store = ClerkMemoryStore::new();
    store.set("client", "{\"id\":\"client_1\"}".to_string());
    assert_eq!(store.get("client"), Some("{\"id\":\"client_1\"}".to_string()));
}

#[test]
fn set_overwrites_previous_value() {
    let mut store = ClerkMemoryStore::new();
    store.set("environment", "first".to_string());
    store.set("environment", "second".to_string());
    assert_eq!(store.get("environment"), Some("second".to_string()));
}

#[test]
fn get_of_absent_key_is_none_not_an_error() {
    let store = ClerkMemoryStore::new();
    assert_eq!(store.get("missing"), None);
    assert!(!store.has("missing"));
}

#[test]
fn delete_then_has_reports_false() {
    let mut store = ClerkMemoryStore::new();
    store.set("session", "sess_1".to_string());
    assert!(store.has("session"));
    assert!(store.delete("session"));
    assert!(!store.has("session"));
    assert_eq!(store.get("session"), None);
}

#[test]
fn delete_of_absent_key_reports_false() {
    let mut store = ClerkMemoryStore::new();
    assert!(!store.delete("never-stored"));
}

#[test]
fn keys_are_independent() {
    let mut store = ClerkMemoryStore::new();
    store.set("a", "1".to_string());
    store.set("b", "2".to_string());
    assert!(store.delete("a"));
    assert_eq!(store.get("a"), None);
    assert_eq!(store.get("b"), Some("2".to_string()));
}
