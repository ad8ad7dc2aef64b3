use tauri_plugin_clerk::client::{Clerk, LoadedSnapshot};
use tauri_plugin_clerk::commands::initialize;
use tauri_plugin_clerk::error::Error;
use tauri_plugin_clerk::events::ClerkAuthEventPayload;
use tauri_plugin_clerk::models::{ClientRecord, EnvironmentRecord, InitializeRequest, PingRequest};
use tauri_plugin_clerk::{ClerkInitLockInner, ClerkPluginBuilder, ClerkStoreInternal};

fn snapshot(client_id: &str, env_id: &str) -> LoadedSnapshot {
    LoadedSnapshot {
        state: ClerkAuthEventPayload {
            client: ClientRecord {
                id: client_id.to_string(),
            },
            session: None,
            user: None,
            organization: None,
        },
        environment: EnvironmentRecord {
            id: env_id.to_string(),
        },
    }
}

fn fresh_store(key: &str) -> ClerkStoreInternal {
    ClerkPluginBuilder::new()
        .publishable_key(key.to_string())
        .setup()
        .unwrap()
}

#[test]
fn single_flight_one_load_for_serialized_callers() {
    let mut clerk = Clerk::new();
    let first = clerk.ensure_initialized_step(Ok(snapshot("client_1", "env_1")));
    assert!(first.is_ok());
    // A second and a third caller, serialized by the guard, find the client
    // loaded and trigger no further load and no further registration.
    let second = clerk.ensure_initialized_step(Ok(snapshot("client_other", "env_other")));
    assert!(second.is_ok());
    let third = clerk.ensure_initialized_step(Err("unreachable outcome".to_string()));
    assert!(third.is_ok());
    assert_eq!(clerk.load_attempts, 1);
    assert_eq!(clerk.listener_registrations, 1);
    assert!(clerk.is_initialized());
    // The snapshot is the one the single successful load reported.
    assert_eq!(clerk.state.client.id, "client_1");
    assert_eq!(clerk.environment.id, "env_1");
}

#[test]
fn idempotent_after_success() {
    let mut clerk = Clerk::new();
    clerk
        .ensure_initialized_step(Ok(snapshot("client_1", "env_1")))
        .unwrap();
    let attempts = clerk.load_attempts;
    let registrations = clerk.listener_registrations;
    clerk
        .ensure_initialized_step(Ok(snapshot("client_2", "env_2")))
        .unwrap();
    assert_eq!(clerk.load_attempts, attempts);
    assert_eq!(clerk.listener_registrations, registrations);
    assert_eq!(clerk.state.client.id, "client_1");
}

#[test]
fn failed_load_keeps_retry_possible() {
    let mut clerk = Clerk::new();
    // The load fails once: the error is surfaced, nothing is registered, and
    // the handle stays not loaded so the next caller retries.
    let first = clerk.ensure_initialized_step(Err("network unreachable".to_string()));
    match first {
        Err(Error::Initialization(m)) => assert_eq!(m, "network unreachable"),
        _ => panic!("expected an initialization error"),
    }
    assert!(!clerk.is_initialized());
    assert_eq!(clerk.load_attempts, 1);
    assert_eq!(clerk.listener_registrations, 0);
    // The retry succeeds.
    let second = clerk.ensure_initialized_step(Ok(snapshot("client_1", "env_1")));
    assert!(second.is_ok());
    assert!(clerk.is_initialized());
    assert_eq!(clerk.load_attempts, 2);
    assert_eq!(clerk.listener_registrations, 1);
    // And from here on further calls are idempotent.
    let third = clerk.ensure_initialized_step(Err("ignored".to_string()));
    assert!(third.is_ok());
    assert_eq!(clerk.load_attempts, 2);
}

#[test]
fn header_set_then_get_unaffected_by_ping() {
    let mut clerk = Clerk::new();
    clerk.set_client_authorization_header(Some("tok".to_string()));
    let echoed = clerk
        .ping(PingRequest {
            value: Some("probe".to_string()),
        })
        .unwrap();
    assert_eq!(echoed.value, Some("probe".to_string()));
    assert_eq!(clerk.get_client_authorization_header(), Some("tok".to_string()));
    clerk.set_client_authorization_header(None);
    assert_eq!(clerk.get_client_authorization_header(), None);
}

#[test]
fn ping_echoes_value() {
    let clerk = Clerk::new();
    let none = clerk.ping(PingRequest { value: None }).unwrap();
    assert_eq!(none.value, None);
    let some = clerk
        .ping(PingRequest {
            value: Some("hello".to_string()),
        })
        .unwrap();
    assert_eq!(some.value, Some("hello".to_string()));
}

#[test]
fn getters_before_load_report_uninitialized() {
    let clerk = Clerk::new();
    assert!(matches!(clerk.client(), Err(Error::Uninitialized)));
    assert!(matches!(clerk.environment(), Err(Error::Uninitialized)));
}

#[test]
fn getters_after_load_return_snapshot() {
    let mut clerk = Clerk::new();
    clerk
        .ensure_initialized_step(Ok(snapshot("client_1", "env_1")))
        .unwrap();
    assert_eq!(clerk.client().unwrap().id, "client_1");
    assert_eq!(clerk.environment().unwrap().id, "env_1");
    let state = clerk.get_state();
    assert_eq!(state.client.id, "client_1");
    assert!(state.session.is_none());
}

#[test]
fn builder_requires_publishable_key() {
    let missing = ClerkPluginBuilder::new().setup();
    match missing {
        Err(e) => assert_eq!(
            e.message(),
            "Clerk configuration error: Clerk: Missing publishable_key"
        ),
        Ok(_) => panic!("setup must fail without a publishable key"),
    }
    let empty = ClerkPluginBuilder::new()
        .publishable_key(String::new())
        .setup();
    assert!(matches!(empty, Err(Error::Configuration(_))));
}

#[test]
fn builder_carries_configuration() {
    let builder = ClerkPluginBuilder::new()
        .publishable_key("pk_test_123".to_string())
        .proxy("https://proxy.example".to_string())
        .domain("example.com".to_string())
        .with_tauri_store();
    assert_eq!(builder.proxy, Some("https://proxy.example".to_string()));
    assert_eq!(builder.domain, Some("example.com".to_string()));
    assert!(builder.with_tauri_store);
    let store = builder.setup().unwrap();
    assert_eq!(store.publishable_key, "pk_test_123");
    assert!(!store.clerk.loaded);
    assert_eq!(store.clerk.load_attempts, 0);
}

#[test]
fn initialize_request_overrides_configuration() {
    let builder = ClerkPluginBuilder::new()
        .publishable_key("pk_stored".to_string())
        .proxy("https://proxy.example".to_string());
    let folded = builder.apply_request(InitializeRequest {
        publishable_key: Some("pk_override".to_string()),
        proxy: None,
        domain: Some("example.com".to_string()),
    });
    assert_eq!(folded.publishable_key, Some("pk_override".to_string()));
    assert_eq!(folded.proxy, Some("https://proxy.example".to_string()));
    assert_eq!(folded.domain, Some("example.com".to_string()));
    let store = folded.setup().unwrap();
    assert_eq!(store.publishable_key, "pk_override");
}

#[test]
fn initialize_request_absent_values_keep_configuration() {
    let builder = ClerkPluginBuilder::new().publishable_key("pk_stored".to_string());
    let folded = builder.apply_request(InitializeRequest {
        publishable_key: None,
        proxy: None,
        domain: None,
    });
    assert_eq!(folded.publishable_key, Some("pk_stored".to_string()));
    assert_eq!(folded.proxy, None);
    assert_eq!(folded.domain, None);
}

#[test]
fn initialize_command_returns_snapshot() {
    let mut store = fresh_store("pk_test_123");
    let response = initialize(&mut store, Ok(snapshot("client_1", "env_1"))).unwrap();
    assert_eq!(response.client.id, "client_1");
    assert_eq!(response.environment.id, "env_1");
    assert_eq!(response.publishable_key, "pk_test_123");
    assert_eq!(store.clerk.load_attempts, 1);
    // A later initialize issues no further load and reports the same snapshot.
    let again = initialize(&mut store, Err("ignored".to_string())).unwrap();
    assert_eq!(again.client.id, "client_1");
    assert_eq!(store.clerk.load_attempts, 1);
}

#[test]
fn initialize_command_surfaces_load_failure() {
    let mut store = fresh_store("pk_test_123");
    let failed = initialize(&mut store, Err("offline".to_string()));
    match failed {
        Err(Error::Initialization(m)) => assert_eq!(m, "offline"),
        _ => panic!("expected an initialization error"),
    }
    assert!(!store.clerk.is_initialized());
}

#[test]
fn error_messages_render_each_kind() {
    assert_eq!(
        Error::Configuration("bad key".to_string()).message(),
        "Clerk configuration error: bad key"
    );
    assert_eq!(
        Error::Initialization("offline".to_string()).message(),
        "Clerk initialization error: offline"
    );
    assert_eq!(Error::Uninitialized.message(), "Clerk client is not initialized");
    assert_eq!(
        Error::Serialization("bad payload".to_string()).message(),
        "Clerk event serialization error: bad payload"
    );
    assert_eq!(
        Error::ClerkApi("teapot".to_string()).message(),
        "Clerk API error: teapot"
    );
    assert_eq!(
        Error::Authentication("denied".to_string()).message(),
        "Authentication error: denied"
    );
}

#[test]
fn store_internal_clones_whole_record() {
    let mut store = fresh_store("pk_test_123");
    store
        .clerk
        .ensure_initialized_step(Ok(snapshot("client_1", "env_1")))
        .unwrap();
    store
        .clerk
        .set_client_authorization_header(Some("tok".to_string()));
    let copy = store.clone();
    assert_eq!(copy.publishable_key, "pk_test_123");
    assert!(copy.clerk.loaded);
    assert_eq!(copy.clerk.state.client.id, "client_1");
    assert_eq!(copy.clerk.authorization_header, Some("tok".to_string()));
}

#[test]
fn init_lock_inner_is_empty_payload() {
    let _inner: ClerkInitLockInner = Default::default();
}

#[test]
fn get_client_owed_only_after_initialization() {
    let mut store = fresh_store("pk_test_123");
    assert!(matches!(store.get_client(), Err(Error::Uninitialized)));
    store
        .clerk
        .ensure_initialized_step(Ok(snapshot("client_1", "env_1")))
        .unwrap();
    let handle = store.get_client().unwrap();
    assert!(handle.loaded);
    assert_eq!(handle.state.client.id, "client_1");
}
