use sidecar::service::ServiceError;
use sidecar::service::SourceKind;
use sidecar::service::embed_op;
use sidecar::service::generate_op;
use sidecar::service::health_op;
use sidecar::service::init_failure_response;
use sidecar::service::init_model;
use sidecar::service::missing_artifact_message;
use sidecar::service::model_info_op;
use sidecar::service::resolve_source;
use sidecar::service::config_file_name;
use sidecar::service::tokenizer_file_name;
use sidecar::service::weights_file_name;
use sidecar::store::ModelStore;

#[test]
fn embed_before_init_reports_precondition() {
    let store = ModelStore::new();
    match embed_op(&store, "hello") {
        Err(ServiceError::FailedPrecondition(m)) => assert_eq!(m, "Model not initialized"),
        _ => panic!("an empty store must reject embed"),
    }
}

#[test]
fn generate_before_init_reports_precondition() {
    let store = ModelStore::new();
    match generate_op(&store, "hello") {
        Err(ServiceError::FailedPrecondition(m)) => assert_eq!(m, "Model not initialized"),
        _ => panic!("an empty store must reject generate"),
    }
}

#[test]
fn missing_artifact_report_contains_not_found() {
    let m = missing_artifact_message("tokenizer.json", "./no-such-dir");
    assert_eq!(m, "tokenizer.json not found in ./no-such-dir");
    let r = init_failure_response(&m);
    assert!(!r.success);
    assert!(r.message.contains("not found"));
    assert_eq!(
        r.message,
        "Failed to load model: tokenizer.json not found in ./no-such-dir"
    );
}

#[test]
fn failed_init_leaves_store_untouched() {
    let mut store = ModelStore::new();
    let r = init_model(&mut store, "somewhere", "this is not json", &vec![], &vec![]);
    assert!(!r.success);
    assert!(r.message.starts_with("Failed to load model: "));
    assert!(!store.is_loaded());
    // The store still rejects embedding afterwards.
    match embed_op(&store, "hello") {
        Err(ServiceError::FailedPrecondition(_)) => {}
        _ => panic!("the store must stay empty after a failed load"),
    }
    // And model_info still reports the unloaded sentinel.
    let info = model_info_op(&store);
    assert_eq!(info.model_name, "Not loaded");
}

#[test]
fn repeated_failed_initializes_never_unlock_the_service() {
    let mut store = ModelStore::new();
    for attempt in ["not json", "{", "{\"vocab_size\": true}"] {
        let r = init_model(&mut store, "x", attempt, &vec![], &vec![]);
        assert!(!r.success);
        assert!(matches!(
            embed_op(&store, "hello"),
            Err(ServiceError::FailedPrecondition(_))
        ));
        assert!(matches!(
            generate_op(&store, "hi"),
            Err(ServiceError::FailedPrecondition(_))
        ));
        assert!(health_op(&store).healthy);
    }
}

#[test]
fn health_is_true_when_empty() {
    let store = ModelStore::new();
    let h = health_op(&store);
    assert!(h.healthy);
    assert_eq!(h.message, "Embedding service is healthy (no model)");
}

#[test]
fn model_info_reports_fixed_figures() {
    let store = ModelStore::new();
    let info = model_info_op(&store);
    assert_eq!(info.vocab_size, 30522);
    assert_eq!(info.context_size, 512);
    assert_eq!(info.backend, "candle");
}

#[test]
fn source_resolution_follows_the_slash() {
    assert!(matches!(
        resolve_source("sentence-transformers/all-MiniLM-L6-v2"),
        SourceKind::Remote
    ));
    assert!(matches!(resolve_source("local-model-dir"), SourceKind::Local));
    // A relative path with a separator is taken for a repository id, as the
    // slash rule says.
    assert!(matches!(resolve_source("./no-such-dir"), SourceKind::Remote));
}

#[test]
fn artifact_names_are_the_three_well_known_files() {
    assert_eq!(tokenizer_file_name(), "tokenizer.json");
    assert_eq!(config_file_name(), "config.json");
    assert_eq!(weights_file_name(), "model.safetensors");
}
