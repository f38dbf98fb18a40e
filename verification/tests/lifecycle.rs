use breez_backend::backend::{BreezBackend, EVENT_CHANNEL_CAPACITY};
use breez_backend::payment::Bolt11Settings;
use breez_backend::sdk::{Network, OptimizationConfig, Seed};
use breez_backend::shutdown::{AwaitDisconnection, DisconnectStep};
use breez_backend::startup::{AwaitConnection, AwaitDatabase, AwaitInfo, BackendConfig, StartError};

fn config() -> BackendConfig {
    BackendConfig {
        api_key: "key".to_string(),
        mnemonic: "abandon ability able".to_string(),
        passphrase: Some("pass".to_string()),
        storage_dir: "/data/sdk".to_string(),
        db_path: "/data/quotes.db".to_string(),
    }
}

fn idle() -> BreezBackend {
    let state = AwaitDatabase { db_path: "/data/quotes.db".to_string() };
    state.resume::<(), String>(Ok(())).unwrap().1
}

fn message<T>(result: Result<T, StartError<String>>) -> String {
    match result {
        Err(StartError::Message(text)) => text,
        _ => panic!("no message"),
    }
}

#[test]
fn empty_api_key_is_refused() {
    let mut config = config();
    config.api_key = String::new();
    config.mnemonic = String::new();
    let result = BreezBackend::new::<String>(config);
    assert_eq!(message(result), "Breez API key is required");
}

#[test]
fn empty_mnemonic_is_refused() {
    let mut config = config();
    config.mnemonic = String::new();
    let result = BreezBackend::new::<String>(config);
    assert_eq!(message(result), "Mnemonic seed is required");
}

#[test]
fn start_up_asks_for_the_configured_connection() {
    let (request, next) = BreezBackend::new::<String>(config()).unwrap();
    assert_eq!(request.config.api_key, Some("key".to_string()));
    assert_eq!(request.config.network, Network::Mainnet);
    assert_eq!(request.config.sync_interval_secs, 600);
    assert_eq!(request.config.lnurl_domain, None);
    assert!(request.config.prefer_spark_over_lightning);
    assert!(request.config.use_default_external_input_parsers);
    assert_eq!(request.config.real_time_sync_server_url, None);
    assert!(!request.config.private_enabled_default);
    assert_eq!(
        request.config.optimization_config,
        OptimizationConfig { auto_enabled: true, multiplicity: 5 }
    );
    assert_eq!(request.config.max_concurrent_claims, 5);
    assert!(!request.config.support_lnurl_verify);
    assert_eq!(
        request.seed,
        Seed::Mnemonic {
            mnemonic: "abandon ability able".to_string(),
            passphrase: Some("pass".to_string()),
        }
    );
    assert_eq!(request.storage_dir, "/data/sdk");
    assert_eq!(next, AwaitConnection { db_path: "/data/quotes.db".to_string() });
}

#[test]
fn start_up_runs_to_an_idle_backend() {
    let (_, next) = BreezBackend::new::<String>(config()).unwrap();
    let (sdk, request, next) = next.resume::<&str, String>(Ok("sdk")).unwrap();
    assert_eq!(sdk, "sdk");
    assert_eq!(request.ensure_synced, None);
    let next = next.resume::<u64, String>(Ok(21));
    assert_eq!(next.db_path, "/data/quotes.db");
    let (database, mut backend) = next.resume::<&str, String>(Ok("database")).unwrap();
    assert_eq!(database, "database");
    assert!(!backend.is_wait_invoice_active());
    assert_eq!(backend.disconnect(), DisconnectStep::Disconnect(AwaitDisconnection));
}

#[test]
fn failed_connection_ends_start_up() {
    let state = AwaitConnection { db_path: "db".to_string() };
    let result = state.resume::<(), String>(Err("NetworkError(\"down\")".to_string()));
    assert_eq!(message(result), "Breez SDK connection failed: NetworkError(\"down\")");
}

#[test]
fn unknown_wallet_state_does_not_end_start_up() {
    let state = AwaitInfo { db_path: "db".to_string() };
    let next = state.resume::<u64, String>(Err("timeout".to_string()));
    assert_eq!(next, AwaitDatabase { db_path: "db".to_string() });
}

#[test]
fn unopened_database_ends_start_up() {
    let state = AwaitDatabase { db_path: "db".to_string() };
    match state.resume::<(), String>(Err("locked".to_string())) {
        Err(error) => assert_eq!(error, StartError::Database("locked".to_string())),
        Ok(_) => panic!("started without a database"),
    }
}

#[test]
fn settings_are_sat_and_bolt11_only() {
    let settings = idle().get_settings();
    assert_eq!(settings.unit, "sat");
    assert_eq!(
        settings.bolt11,
        Some(Bolt11Settings { mpp: true, amountless: false, invoice_description: false })
    );
    assert_eq!(settings.bolt12, None);
    assert!(settings.custom.is_empty());
}

#[test]
fn waiting_lasts_until_cancelled() {
    let mut backend = idle();
    assert!(!backend.is_wait_invoice_active());
    let request = backend.wait_payment_event();
    assert_eq!(request.channel_capacity, 100);
    assert_eq!(EVENT_CHANNEL_CAPACITY, 100);
    assert!(backend.is_wait_invoice_active());
    backend.listener_added("one".to_string());
    assert!(backend.is_wait_invoice_active());
    let _ = backend.disconnect();
    assert!(backend.is_wait_invoice_active());
    backend.cancel_wait_invoice();
    assert!(!backend.is_wait_invoice_active());
}

#[test]
fn disconnect_removes_every_listener_in_order() {
    let mut backend = idle();
    for id in ["one", "two", "three"] {
        let _ = backend.wait_payment_event();
        backend.listener_added(id.to_string());
    }
    let mut step = backend.disconnect();
    let mut removed = Vec::new();
    let result = loop {
        step = match step {
            DisconnectStep::RemoveListener(state) => {
                removed.push(state.listener_id.clone());
                // The second one cannot be removed.
                let done = state.listener_id != "two";
                state.resume(done)
            }
            DisconnectStep::Disconnect(state) => break state.resume(Ok(())),
        }
    };
    assert_eq!(result, Ok(()));
    assert_eq!(removed, vec!["one", "two", "three"]);
    assert_eq!(backend.disconnect(), DisconnectStep::Disconnect(AwaitDisconnection));
}

#[test]
fn failed_disconnect_is_told() {
    let result = AwaitDisconnection.resume(Err("Generic(\"x\")".to_string()));
    assert_eq!(result, Err("Failed to disconnect from Breez SDK: Generic(\"x\")".to_string()));
}
