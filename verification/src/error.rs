//! The library's error type, its messages and its user-facing advice.
//!
//! Errors that originate in outside services (the database driver, the
//! connection pool, the file system, the model runtime) are carried as the
//! text that those services report.
use vstd::prelude::*;
use crate::kg::KgError;
use crate::text::{cat, cat3, cat5, contains, dec, dec_int, fmt_i64, fmt_u64, str_contains};

verus! {

#[derive(Debug)]
pub enum Error {
    Database(String),
    Pool(String),
    PoolCreation(String),
    Io(String),
    WalkDir(String),
    Parse(String),
    Embedding(String),
    OnnxRuntime(String),
    Config(String),
    UnsupportedLanguage(String),
    SymbolNotFound(String),
    RepositoryNotFound(String),
    SchemaNotInitialized,
    PostgresNotRunning,
    PgvectorNotInstalled,
    DependencyMissing(String),
    MissingDependency(String),
    DatabaseConnectionFailed(String),
    ModelDownloadFailed(String),
    DatabaseStartFailed(String),
    DatabaseStopFailed(String),
    SchemaInitFailed(String),
    InsufficientDiskSpace { required: u64, available: u64 },
    CorruptedModel(String),
    InvalidDependencyState(String),
    OrchestratorAlreadyRunning(i32),
    OrchestratorNotRunning,
    InvalidPidFile(String),
    TaskLockFailed(i32),
    TaskExecutionFailed(String),
    ShutdownTimeout(u64),
    SignalHandler(String),
    InvalidTokenizerStrategy(String),
    Other(String),
    Kg(KgError),
}

pub type Result<T> = core::result::Result<T, Error>;

/// The advice printed after an invalid tokenization strategy name.
pub open spec fn strategy_advice() -> Seq<char> {
    "'. Valid options: 'onnx', 'fallback'\n\nSet via environment variable:\n  export CUDGEL_TOKENIZER_STRATEGY=fallback\n\nStrategy details:\n  • 'onnx' (default): Best quality, requires model download (cudgel deps)\n  • 'fallback': Offline mode, no downloads required, reduced quality"@
}

impl Error {
    /// The text that `Display` shows for this error.
    pub open spec fn text(&self) -> Seq<char> {
        match self {
            Error::Database(m) => "Database error: "@ + m@,
            Error::Pool(m) => "Connection pool error: "@ + m@,
            Error::PoolCreation(m) => "Failed to create connection pool: "@ + m@,
            Error::Io(m) => "File system error: "@ + m@,
            Error::WalkDir(m) => "Directory traversal error: "@ + m@,
            Error::Parse(m) => "Parse error: "@ + m@,
            Error::Embedding(m) => "Embedding generation failed: "@ + m@,
            Error::OnnxRuntime(m) => "ONNX Runtime error: "@ + m@,
            Error::Config(m) => "Configuration error: "@ + m@,
            Error::UnsupportedLanguage(m) => "Unsupported language: "@ + m@,
            Error::SymbolNotFound(m) => "Symbol not found: "@ + m@,
            Error::RepositoryNotFound(m) => "Repository not found: "@ + m@,
            Error::SchemaNotInitialized => "Database schema not initialized"@,
            Error::PostgresNotRunning => "PostgreSQL not running on port 45678. Run: cudgel deps"@,
            Error::PgvectorNotInstalled => "pgvector extension not installed. Run: cudgel deps"@,
            Error::DependencyMissing(m) => "Dependency missing: "@ + m@,
            Error::MissingDependency(m) => "Missing dependency: "@ + m@,
            Error::DatabaseConnectionFailed(m) => "Database connection failed: "@ + m@,
            Error::ModelDownloadFailed(m) => "Model download failed: "@ + m@,
            Error::DatabaseStartFailed(m) => "Database start failed: "@ + m@,
            Error::DatabaseStopFailed(m) => "Database stop failed: "@ + m@,
            Error::SchemaInitFailed(m) => "Schema initialization failed: "@ + m@,
            Error::InsufficientDiskSpace { required, available } => "Insufficient disk space: required "@
                + dec(*required as nat) + " MB, available "@ + dec(*available as nat) + " MB"@,
            Error::CorruptedModel(m) => "Corrupted model: "@ + m@,
            Error::InvalidDependencyState(m) => "Invalid dependency state: "@ + m@,
            Error::OrchestratorAlreadyRunning(pid) => "Orchestrator already running with PID "@
                + dec_int(*pid as int),
            Error::OrchestratorNotRunning => "Orchestrator not running"@,
            Error::InvalidPidFile(m) => "Invalid PID file: "@ + m@,
            Error::TaskLockFailed(n) => "Failed to acquire task lock (retry "@ + dec_int(*n as int)
                + ")"@,
            Error::TaskExecutionFailed(m) => "Task execution failed: "@ + m@,
            Error::ShutdownTimeout(s) => "Graceful shutdown timeout after "@ + dec(*s as nat)
                + " seconds"@,
            Error::SignalHandler(m) => "Signal handling error: "@ + m@,
            Error::InvalidTokenizerStrategy(m) => "Invalid tokenization strategy '"@ + m@
                + strategy_advice(),
            Error::Other(m) => m@,
            Error::Kg(e) => "Knowledge graph error: "@ + e.text(),
        }
    }

    /// The text that `Display` shows for this error (`error.to_string()`).
    pub fn message(&self) -> (res: String)
        ensures
            res@ == self.text(),
    {
        match self {
            Error::Database(m) => cat("Database error: ", m),
            Error::Pool(m) => cat("Connection pool error: ", m),
            Error::PoolCreation(m) => cat("Failed to create connection pool: ", m),
            Error::Io(m) => cat("File system error: ", m),
            Error::WalkDir(m) => cat("Directory traversal error: ", m),
            Error::Parse(m) => cat("Parse error: ", m),
            Error::Embedding(m) => cat("Embedding generation failed: ", m),
            Error::OnnxRuntime(m) => cat("ONNX Runtime error: ", m),
            Error::Config(m) => cat("Configuration error: ", m),
            Error::UnsupportedLanguage(m) => cat("Unsupported language: ", m),
            Error::SymbolNotFound(m) => cat("Symbol not found: ", m),
            Error::RepositoryNotFound(m) => cat("Repository not found: ", m),
            Error::SchemaNotInitialized => String::from_str("Database schema not initialized"),
            Error::PostgresNotRunning => String::from_str(
                "PostgreSQL not running on port 45678. Run: cudgel deps",
            ),
            Error::PgvectorNotInstalled => String::from_str(
                "pgvector extension not installed. Run: cudgel deps",
            ),
            Error::DependencyMissing(m) => cat("Dependency missing: ", m),
            Error::MissingDependency(m) => cat("Missing dependency: ", m),
            Error::DatabaseConnectionFailed(m) => cat("Database connection failed: ", m),
            Error::ModelDownloadFailed(m) => cat("Model download failed: ", m),
            Error::DatabaseStartFailed(m) => cat("Database start failed: ", m),
            Error::DatabaseStopFailed(m) => cat("Database stop failed: ", m),
            Error::SchemaInitFailed(m) => cat("Schema initialization failed: ", m),
            Error::InsufficientDiskSpace { required, available } => {
                let r = fmt_u64(*required);
                let a = fmt_u64(*available);
                let s = cat5(
                    "Insufficient disk space: required ",
                    r.as_str(),
                    " MB, available ",
                    a.as_str(),
                    " MB",
                );
                s
            },
            Error::CorruptedModel(m) => cat("Corrupted model: ", m),
            Error::InvalidDependencyState(m) => cat("Invalid dependency state: ", m),
            Error::OrchestratorAlreadyRunning(pid) => {
                let p = fmt_i64(*pid as i64);
                cat("Orchestrator already running with PID ", p.as_str())
            },
            Error::OrchestratorNotRunning => String::from_str("Orchestrator not running"),
            Error::InvalidPidFile(m) => cat("Invalid PID file: ", m),
            Error::TaskLockFailed(n) => {
                let p = fmt_i64(*n as i64);
                cat3("Failed to acquire task lock (retry ", p.as_str(), ")")
            },
            Error::TaskExecutionFailed(m) => cat("Task execution failed: ", m),
            Error::ShutdownTimeout(secs) => {
                let p = fmt_u64(*secs);
                cat3("Graceful shutdown timeout after ", p.as_str(), " seconds")
            },
            Error::SignalHandler(m) => cat("Signal handling error: ", m),
            Error::InvalidTokenizerStrategy(m) => cat3(
                "Invalid tokenization strategy '",
                m,
                "'. Valid options: 'onnx', 'fallback'\n\nSet via environment variable:\n  export CUDGEL_TOKENIZER_STRATEGY=fallback\n\nStrategy details:\n  • 'onnx' (default): Best quality, requires model download (cudgel deps)\n  • 'fallback': Offline mode, no downloads required, reduced quality",
            ),
            Error::Other(m) => m.clone(),
            Error::Kg(e) => {
                let t = e.message();
                cat("Knowledge graph error: ", t.as_str())
            },
        }
    }

    /// Whether the driver or the pool reported a refused connection.
    pub open spec fn connection_refused(&self) -> bool {
        match self {
            Error::Database(m) | Error::Pool(m) => contains(m@, "Connection refused"@) || contains(
                m@,
                "connection refused"@,
            ),
            _ => false,
        }
    }

    /// Whether the driver reported that the `vector` extension is missing.
    pub open spec fn missing_pgvector(&self) -> bool {
        match self {
            Error::Database(m) => contains(m@, "extension \"vector\""@) || contains(
                m@,
                "type \"vector\" does not exist"@,
            ),
            _ => false,
        }
    }

    /// Whether the driver reported a missing relation (table).
    pub open spec fn missing_schema(&self) -> bool {
        match self {
            Error::Database(m) => contains(m@, "relation"@) && (contains(m@, "does not exist"@)
                || contains(m@, "not found"@)),
            _ => false,
        }
    }

    pub fn is_connection_refused(&self) -> (b: bool)
        ensures
            b == self.connection_refused(),
    {
        match self {
            Error::Database(m) | Error::Pool(m) => str_contains(m, "Connection refused")
                || str_contains(m, "connection refused"),
            _ => false,
        }
    }

    pub fn is_missing_pgvector(&self) -> (b: bool)
        ensures
            b == self.missing_pgvector(),
    {
        match self {
            Error::Database(m) => str_contains(m, "extension \"vector\"") || str_contains(
                m,
                "type \"vector\" does not exist",
            ),
            _ => false,
        }
    }

    pub fn is_missing_schema(&self) -> (b: bool)
        ensures
            b == self.missing_schema(),
    {
        match self {
            Error::Database(m) => str_contains(m, "relation") && (str_contains(m, "does not exist")
                || str_contains(m, "not found")),
            _ => false,
        }
    }

    /// The error that `with_context` turns this one into.
    pub open spec fn in_context(self) -> Error {
        if self.connection_refused() {
            Error::PostgresNotRunning
        } else if self.missing_pgvector() {
            Error::PgvectorNotInstalled
        } else if self.missing_schema() {
            Error::SchemaNotInitialized
        } else {
            self
        }
    }

    /// Replaces a low-level database error by the setup problem it reveals.
    pub fn with_context(self) -> (res: Error)
        ensures
            res == self.in_context(),
    {
        if self.is_connection_refused() {
            return Error::PostgresNotRunning;
        }
        if self.is_missing_pgvector() {
            return Error::PgvectorNotInstalled;
        }
        if self.is_missing_schema() {
            return Error::SchemaNotInitialized;
        }
        self
    }

    /// The message shown to a user, with actionable suggestions where there
    /// are any.
    pub open spec fn user_message(&self) -> Seq<char> {
        match self {
            Error::PostgresNotRunning => self.text()
                + "\n\nRun: cudgel deps\n\nThis will automatically start PostgreSQL and initialize the database."@,
            Error::PgvectorNotInstalled => self.text()
                + "\n\nRun: cudgel deps\n\nThis will install the pgvector extension automatically."@,
            Error::SchemaNotInitialized => self.text()
                + "\n\nRun: cudgel deps\n\nThis will initialize the database schema with all required tables and indexes."@,
            Error::DependencyMissing(d) => "Dependency missing: "@ + d@
                + "\n\nRun: cudgel deps\n\nThis will install all required dependencies automatically."@,
            Error::ModelDownloadFailed(m) => "Model download failed: "@ + m@
                + "\n\nTroubleshooting:\n  1. Check internet connection\n  2. Verify disk space (need ~500MB free)\n  3. Retry: cudgel deps"@,
            Error::DatabaseStartFailed(m) => "Database start failed: "@ + m@
                + "\n\nTroubleshooting:\n  1. Check if port 45678 is available: lsof -i :45678\n  2. Check PostgreSQL logs: tail ~/.local/state/cudgel/postgres.log\n  3. Retry: cudgel deps"@,
            Error::DatabaseStopFailed(m) => "Database stop failed: "@ + m@
                + "\n\nTroubleshooting:\n  1. Check process: ps aux | grep postgres\n  2. Force stop if needed: pkill -9 postgres"@,
            Error::SchemaInitFailed(m) => "Schema initialization failed: "@ + m@
                + "\n\nTroubleshooting:\n  1. Ensure database is running: cudgel deps --check\n  2. Check PostgreSQL version (need 15+): postgres --version\n  3. Retry: cudgel deps"@,
            Error::InsufficientDiskSpace { required, available } => "Insufficient disk space\n\nRequired: "@
                + dec(*required as nat) + " MB\nAvailable: "@ + dec(*available as nat)
                + " MB\n\nFree up space and retry: cudgel deps"@,
            Error::CorruptedModel(m) => "Corrupted model: "@ + m@
                + "\n\nTo fix:\n  1. Remove corrupted files: cudgel deps --clean\n  2. Re-download: cudgel deps"@,
            Error::InvalidDependencyState(m) => "Invalid dependency state: "@ + m@
                + "\n\nTry:\n  cudgel deps --check --verbose\n\nFor full diagnostics."@,
            Error::RepositoryNotFound(p) => "Repository not found: "@ + p@
                + "\n\nHave you indexed this repository? Try:\n  cudgel index "@ + p@,
            Error::UnsupportedLanguage(l) => "Unsupported language: "@ + l@
                + "\n\nSupported languages: python, javascript, typescript, rust, go, c, cpp, java\nFile will be skipped during indexing."@,
            Error::Embedding(m) => "Embedding generation failed: "@ + m@
                + "\n\nCheck that the ONNX model is properly installed:\n  ls -la ~/.local/share/cudgel/models/all-MiniLM-L6-v2/\n\nTo reinstall:\n  task setup"@,
            Error::OrchestratorAlreadyRunning(pid) => "Orchestrator is already running (PID: "@
                + dec_int(*pid as int)
                + ")\n\nTo stop it:\n  cudgel orchestrator stop\n\nTo restart:\n  cudgel orchestrator restart\n\nTo view status:\n  cudgel orchestrator status"@,
            Error::OrchestratorNotRunning => "Orchestrator is not running\n\nTo start it:\n  cudgel orchestrator start\n\nTo view scheduled tasks:\n  cudgel schedule --list"@,
            Error::InvalidPidFile(m) => "Invalid PID file: "@ + m@
                + "\n\nThe orchestrator may have crashed or been terminated improperly.\nTry removing the stale PID file:\n  rm ~/.local/state/cudgel/orchestrator.pid\n\nThen start the orchestrator:\n  cudgel orchestrator start"@,
            Error::ShutdownTimeout(secs) => "Graceful shutdown timeout after "@ + dec(*secs as nat)
                + " seconds\n\nThe orchestrator may have hung tasks.\nIf the problem persists, try force-stopping:\n  pkill -9 cudgel"@,
            _ => self.text(),
        }
    }

    /// Converts the error to a user-friendly message with actionable
    /// suggestions.
    pub fn to_user_message(&self) -> (res: String)
        ensures
            res@ == self.user_message(),
    {
        match self {
            Error::PostgresNotRunning => {
                let t = self.message();
                cat(t.as_str(), "\n\nRun: cudgel deps\n\nThis will automatically start PostgreSQL and initialize the database.")
            },
            Error::PgvectorNotInstalled => {
                let t = self.message();
                cat(t.as_str(), "\n\nRun: cudgel deps\n\nThis will install the pgvector extension automatically.")
            },
            Error::SchemaNotInitialized => {
                let t = self.message();
                cat(t.as_str(), "\n\nRun: cudgel deps\n\nThis will initialize the database schema with all required tables and indexes.")
            },
            Error::DependencyMissing(d) => cat3(
                "Dependency missing: ",
                d,
                "\n\nRun: cudgel deps\n\nThis will install all required dependencies automatically.",
            ),
            Error::ModelDownloadFailed(m) => cat3(
                "Model download failed: ",
                m,
                "\n\nTroubleshooting:\n  1. Check internet connection\n  2. Verify disk space (need ~500MB free)\n  3. Retry: cudgel deps",
            ),
            Error::DatabaseStartFailed(m) => cat3(
                "Database start failed: ",
                m,
                "\n\nTroubleshooting:\n  1. Check if port 45678 is available: lsof -i :45678\n  2. Check PostgreSQL logs: tail ~/.local/state/cudgel/postgres.log\n  3. Retry: cudgel deps",
            ),
            Error::DatabaseStopFailed(m) => cat3(
                "Database stop failed: ",
                m,
                "\n\nTroubleshooting:\n  1. Check process: ps aux | grep postgres\n  2. Force stop if needed: pkill -9 postgres",
            ),
            Error::SchemaInitFailed(m) => cat3(
                "Schema initialization failed: ",
                m,
                "\n\nTroubleshooting:\n  1. Ensure database is running: cudgel deps --check\n  2. Check PostgreSQL version (need 15+): postgres --version\n  3. Retry: cudgel deps",
            ),
            Error::InsufficientDiskSpace { required, available } => {
                let r = fmt_u64(*required);
                let a = fmt_u64(*available);
                cat5(
                    "Insufficient disk space\n\nRequired: ",
                    r.as_str(),
                    " MB\nAvailable: ",
                    a.as_str(),
                    " MB\n\nFree up space and retry: cudgel deps",
                )
            },
            Error::CorruptedModel(m) => cat3(
                "Corrupted model: ",
                m,
                "\n\nTo fix:\n  1. Remove corrupted files: cudgel deps --clean\n  2. Re-download: cudgel deps",
            ),
            Error::InvalidDependencyState(m) => cat3(
                "Invalid dependency state: ",
                m,
                "\n\nTry:\n  cudgel deps --check --verbose\n\nFor full diagnostics.",
            ),
            Error::RepositoryNotFound(p) => {
                let head = cat3(
                    "Repository not found: ",
                    p,
                    "\n\nHave you indexed this repository? Try:\n  cudgel index ",
                );
                cat(head.as_str(), p)
            },
            Error::UnsupportedLanguage(l) => cat3(
                "Unsupported language: ",
                l,
                "\n\nSupported languages: python, javascript, typescript, rust, go, c, cpp, java\nFile will be skipped during indexing.",
            ),
            Error::Embedding(m) => cat3(
                "Embedding generation failed: ",
                m,
                "\n\nCheck that the ONNX model is properly installed:\n  ls -la ~/.local/share/cudgel/models/all-MiniLM-L6-v2/\n\nTo reinstall:\n  task setup",
            ),
            Error::OrchestratorAlreadyRunning(pid) => {
                let p = fmt_i64(*pid as i64);
                cat3(
                    "Orchestrator is already running (PID: ",
                    p.as_str(),
                    ")\n\nTo stop it:\n  cudgel orchestrator stop\n\nTo restart:\n  cudgel orchestrator restart\n\nTo view status:\n  cudgel orchestrator status",
                )
            },
            Error::OrchestratorNotRunning => String::from_str(
                "Orchestrator is not running\n\nTo start it:\n  cudgel orchestrator start\n\nTo view scheduled tasks:\n  cudgel schedule --list",
            ),
            Error::InvalidPidFile(m) => cat3(
                "Invalid PID file: ",
                m,
                "\n\nThe orchestrator may have crashed or been terminated improperly.\nTry removing the stale PID file:\n  rm ~/.local/state/cudgel/orchestrator.pid\n\nThen start the orchestrator:\n  cudgel orchestrator start",
            ),
            Error::ShutdownTimeout(secs) => {
                let p = fmt_u64(*secs);
                cat3(
                    "Graceful shutdown timeout after ",
                    p.as_str(),
                    " seconds\n\nThe orchestrator may have hung tasks.\nIf the problem persists, try force-stopping:\n  pkill -9 cudgel",
                )
            },
            _ => self.message(),
        }
    }
}


/// Adding context is idempotent: an error that already went through
/// `with_context` comes out of it unchanged.
pub proof fn law_with_context_is_idempotent(e: Error)
    ensures
        e.in_context().in_context() == e.in_context(),
{
}

} // verus!
