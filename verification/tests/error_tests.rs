use cudgel::error::Error;
use cudgel::kg::KgError;

#[test]
fn database_errors_reveal_setup_problems() {
    let e = Error::Database("error connecting: Connection refused (os error 111)".to_string());
    assert!(e.is_connection_refused());
    assert!(matches!(e.with_context(), Error::PostgresNotRunning));
    let e = Error::Database("extension \"vector\" is not available".to_string());
    assert!(matches!(e.with_context(), Error::PgvectorNotInstalled));
    let e = Error::Database("relation \"symbols\" does not exist".to_string());
    assert!(matches!(e.with_context(), Error::SchemaNotInitialized));
    let e = Error::Database("syntax error".to_string());
    assert!(matches!(e.with_context(), Error::Database(m) if m == "syntax error"));
}

#[test]
fn with_context_twice_is_with_context_once() {
    let e = Error::Pool("connection refused".to_string()).with_context();
    assert!(matches!(e, Error::PostgresNotRunning));
    assert!(matches!(e.with_context(), Error::PostgresNotRunning));
}

#[test]
fn user_messages_suggest_a_fix() {
    assert_eq!(
        Error::PostgresNotRunning.to_user_message(),
        "PostgreSQL not running on port 45678. Run: cudgel deps\n\nRun: cudgel deps\n\nThis will automatically start PostgreSQL and initialize the database."
    );
    assert_eq!(
        Error::RepositoryNotFound("/r".to_string()).to_user_message(),
        "Repository not found: /r\n\nHave you indexed this repository? Try:\n  cudgel index /r"
    );
    assert_eq!(Error::Other("plain".to_string()).to_user_message(), "plain");
    assert_eq!(
        Error::OrchestratorAlreadyRunning(12).message(),
        "Orchestrator already running with PID 12"
    );
    assert_eq!(
        Error::Kg(KgError::Schema("x".to_string())).message(),
        "Knowledge graph error: Schema error: x"
    );
    assert!(Error::InvalidTokenizerStrategy("bad".to_string())
        .message()
        .starts_with("Invalid tokenization strategy 'bad'. Valid options: 'onnx', 'fallback'"));
}
