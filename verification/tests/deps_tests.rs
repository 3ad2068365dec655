use cudgel::deps::checker::{database_status, model_status, schema_status, DependencyChecker};
use cudgel::deps::database::{
    port_owner, startup_timeout, start_outcome, stop_outcome, DatabaseInstance, DatabaseStatus,
    PostgresManager,
};
use cudgel::deps::model::{check_model_files, is_partial_download, DownloadState, ModelArtifact, ModelDownloader};
use cudgel::deps::schema::{SchemaInitializer, SchemaVersion};
use cudgel::deps::{ComponentType, Dependency, DependencyStatus};
use cudgel::error::Error;

#[test]
fn new_dependencies_are_unchecked() {
    let d = Dependency::new("PostgreSQL".to_string(), ComponentType::Database, true);
    assert_eq!(d.status, DependencyStatus::Unknown);
    assert!(!d.is_satisfied());
    assert!(!d.is_missing());
    let mut d = d;
    d.status = DependencyStatus::Missing;
    assert!(d.is_missing());
}

#[test]
fn validation_table_lists_each_dependency() {
    let checker = DependencyChecker::new("/models".to_string(), 45678);
    let deps = checker.validation_results(
        DependencyStatus::Satisfied,
        DependencyStatus::Missing,
        DependencyStatus::Corrupted,
    );
    assert_eq!(deps.len(), 3);
    assert!(deps[0].error_message.is_none());
    assert_eq!(
        deps[1].error_message.as_deref(),
        Some("PostgreSQL not running on port 45678. Run: cudgel deps")
    );
    let table = checker.format_validation_table(&deps);
    let rule = "─────────────────────────────────────────────────\n";
    let expected = format!(
        "\nDependency Status:\n{rule}✓ {:<30} OK\n✗ {:<30} MISSING\n  └─ PostgreSQL not running on port 45678. Run: cudgel deps\n⚠ {:<30} CORRUPTED\n  └─ Database schema not initialized. Run: cudgel deps\n{rule}",
        "ONNX Embedding Model", "PostgreSQL Database", "Database Schema"
    );
    assert_eq!(table, expected);
}

#[test]
fn checker_defaults_and_paths() {
    let c = DependencyChecker::for_data_home(None, Some("/home/u".to_string()));
    assert_eq!(c.models_dir(), "/home/u/.local/share/cudgel/models");
    assert_eq!(c.database_port(), 45678);
    assert_eq!(
        c.model_path(),
        "/home/u/.local/share/cudgel/models/sentence-transformers/all-MiniLM-L6-v2/model.onnx"
    );
    assert_eq!(
        c.schema_check_connection(None),
        "host=localhost port=45678 dbname=cudgel user=postgres password="
    );
    let prereq = c.prerequisites(false, true);
    assert_eq!(prereq[0].status, DependencyStatus::Missing);
    assert_eq!(prereq[1].status, DependencyStatus::Satisfied);
}

#[test]
fn diagnostics_report_the_environment() {
    let c = DependencyChecker::new("/m".to_string(), 5);
    let d = c.collect_diagnostics(None, false, None, Some("/h".to_string()));
    assert_eq!(
        d,
        "\n=== Diagnostic Information ===\n\nModels Directory: /m\n  Exists: false\n\nDatabase Port: 5\nEnvironment:\n  HOME: /h\n\n===============================\n"
    );
}

#[test]
fn dependency_states_from_observations() {
    assert_eq!(model_status(None), DependencyStatus::Missing);
    assert_eq!(model_status(Some(10_000_000)), DependencyStatus::Corrupted);
    assert_eq!(model_status(Some(10_000_001)), DependencyStatus::Satisfied);
    assert_eq!(database_status(true), DependencyStatus::Satisfied);
    assert_eq!(schema_status(Some(false)), DependencyStatus::Missing);
    assert_eq!(schema_status(None), DependencyStatus::Missing);
    assert_eq!(schema_status(Some(true)), DependencyStatus::Satisfied);
}

#[test]
fn database_instances_and_scripts() {
    let d = DatabaseInstance::new("localhost".to_string(), 45678, "/data".to_string(), "/log".to_string());
    assert_eq!(d.database_name, "cudgel");
    assert_eq!(d.status, DatabaseStatus::Stopped);
    assert!(d.pid.is_none());
    let m = PostgresManager::new("/scripts".to_string(), 45678);
    assert_eq!(m.start_script(), "/scripts/start-postgres.sh");
    assert_eq!(m.stop_script(), "/scripts/stop-postgres.sh");
    assert!(start_outcome(true, "").is_ok());
    assert!(matches!(start_outcome(false, "boom"), Err(Error::DatabaseStartFailed(m)) if m == "Start script failed: boom"));
    assert!(stop_outcome(false, "pg_ctl: server is not running").is_ok());
    assert!(matches!(stop_outcome(false, "denied"), Err(Error::DatabaseStopFailed(m)) if m == "Stop script failed: denied"));
    assert_eq!(port_owner(true, " 4321\n"), Some(4321));
    assert_eq!(port_owner(true, "4321\n4322\n"), None);
    assert_eq!(port_owner(false, "4321"), None);
    assert!(matches!(startup_timeout(30), Error::DatabaseStartFailed(m) if m == "Database failed to start within 30 seconds"));
}

#[test]
fn model_artifacts_and_checks() {
    let mut a = ModelArtifact::new(
        "sentence-transformers/all-MiniLM-L6-v2".to_string(),
        "model.onnx".to_string(),
        "/m/model.onnx".to_string(),
        90_000_000,
    );
    assert_eq!(
        a.source_url,
        "https://huggingface.co/sentence-transformers/all-MiniLM-L6-v2/resolve/main/model.onnx"
    );
    assert_eq!(a.download_state, DownloadState::Pending);
    a.start_download();
    assert_eq!(a.download_state, DownloadState::InProgress);
    a.finish_download(12);
    assert_eq!(a.download_progress_bytes, 12);
    assert_eq!(a.download_state, DownloadState::Completed);
    assert_eq!(ModelDownloader::new("/c".to_string()).cache_dir(), "/c");
    assert!(check_model_files(Some(100_000_000), Some(5_000_000), Some(1_000)).is_ok());
    assert!(matches!(check_model_files(None, Some(5_000_000), Some(1_000)), Err(Error::CorruptedModel(m)) if m == "Missing file: model.onnx"));
    assert!(matches!(check_model_files(Some(100_000_000), Some(5_000_000), Some(2_000)), Err(Error::CorruptedModel(m)) if m == "File size mismatch for config.json: 2000 bytes (expected 500..2000)"));
    assert!(is_partial_download("/m/model.onnx.partial"));
    assert!(is_partial_download("/m/x.tmp"));
    assert!(!is_partial_download("/m/model.onnx"));
}

#[test]
fn schema_versions_start_uninitialized() {
    let v = SchemaVersion::new(3);
    assert_eq!(v.version_number, 3);
    assert!(!v.is_initialized);
    assert!(v.applied_at.is_none());
    let _ = SchemaInitializer::new();
}
