//! The local PostgreSQL instance: its description, and what the outcome of
//! its start and stop scripts means.
use vstd::prelude::*;
use crate::error::{Error, Result};
use crate::paths::{join, join_path};
use crate::text::{cat, cat3, contains, dec, fmt_u64, parse_unsigned, parse_unsigned_exec, str_contains, trim, trim_str};

verus! {

/// The state of a database instance.
#[derive(Debug, Clone, Copy, PartialEq, Eq, Structural)]
pub enum DatabaseStatus {
    Stopped,
    Starting,
    Running,
    Error,
}

/// A PostgreSQL database instance.
#[derive(Debug, Clone)]
pub struct DatabaseInstance {
    pub host: String,
    pub port: u16,
    pub database_name: String,
    pub data_directory: String,
    pub pid: Option<u32>,
    pub status: DatabaseStatus,
    pub log_file: String,
    pub version: Option<String>,
}

impl DatabaseInstance {
    /// The description of a stopped instance of the `cudgel` database.
    pub fn new(host: String, port: u16, data_directory: String, log_file: String) -> (d: DatabaseInstance)
        ensures
            d.host == host,
            d.port == port,
            d.database_name@ == "cudgel"@,
            d.data_directory == data_directory,
            d.pid is None,
            d.status == DatabaseStatus::Stopped,
            d.log_file == log_file,
            d.version is None,
    {
        DatabaseInstance {
            host,
            port,
            database_name: String::from_str("cudgel"),
            data_directory,
            pid: None,
            status: DatabaseStatus::Stopped,
            log_file,
            version: None,
        }
    }
}

/// Starts and stops PostgreSQL through the scripts in a directory.
#[derive(Debug, Clone)]
pub struct PostgresManager {
    scripts_dir: String,
    port: u16,
}

impl PostgresManager {
    pub closed spec fn dir(&self) -> Seq<char> {
        self.scripts_dir@
    }

    pub closed spec fn port_number(&self) -> u16 {
        self.port
    }

    /// A manager of the database on `port`, with its scripts in `scripts_dir`.
    pub fn new(scripts_dir: String, port: u16) -> (m: PostgresManager)
        ensures
            m.dir() == scripts_dir@,
            m.port_number() == port,
    {
        PostgresManager { scripts_dir, port }
    }

    /// The port of the database.
    pub fn port(&self) -> (p: u16)
        ensures
            p == self.port_number(),
    {
        self.port
    }

    /// The script that starts the database.
    pub fn start_script(&self) -> (res: String)
        ensures
            res@ == join(self.dir(), "start-postgres.sh"@),
    {
        join_path(self.scripts_dir.as_str(), "start-postgres.sh")
    }

    /// The script that stops the database.
    pub fn stop_script(&self) -> (res: String)
        ensures
            res@ == join(self.dir(), "stop-postgres.sh"@),
    {
        join_path(self.scripts_dir.as_str(), "stop-postgres.sh")
    }
}

/// The start script at `path` does not exist.
pub fn missing_start_script(path: &str) -> (e: Error)
    ensures
        e matches Error::DatabaseStartFailed(m) && m@ == "Start script not found: "@ + path@,
{
    Error::DatabaseStartFailed(cat("Start script not found: ", path))
}

/// The stop script at `path` does not exist.
pub fn missing_stop_script(path: &str) -> (e: Error)
    ensures
        e matches Error::DatabaseStopFailed(m) && m@ == "Stop script not found: "@ + path@,
{
    Error::DatabaseStopFailed(cat("Stop script not found: ", path))
}

/// What the run of the start script means: a failure is an error that
/// quotes what it printed on standard error.
pub fn start_outcome(success: bool, stderr: &str) -> (res: Result<()>)
    ensures
        success ==> res is Ok,
        !success ==> (res matches Err(Error::DatabaseStartFailed(m)) && m@ == "Start script failed: "@
            + stderr@),
{
    if success {
        Ok(())
    } else {
        Err(Error::DatabaseStartFailed(cat("Start script failed: ", stderr)))
    }
}

/// What the run of the stop script means: a failure is an error that quotes
/// what it printed on standard error, unless that says the database "is not
/// running" (stopping a stopped database is no error).
pub fn stop_outcome(success: bool, stderr: &str) -> (res: Result<()>)
    ensures
        (success || contains(stderr@, "is not running"@)) ==> res is Ok,
        !(success || contains(stderr@, "is not running"@)) ==> (res matches Err(
            Error::DatabaseStopFailed(m),
        ) && m@ == "Stop script failed: "@ + stderr@),
{
    if success || str_contains(stderr, "is not running") {
        Ok(())
    } else {
        Err(Error::DatabaseStopFailed(cat("Stop script failed: ", stderr)))
    }
}

/// The process that holds the database port, from what `lsof -t` printed
/// (when it succeeded): its output, trimmed, as a PID.
pub fn port_owner(lsof_succeeded: bool, stdout: &str) -> (res: Option<u32>)
    ensures
        !lsof_succeeded ==> res is None,
        lsof_succeeded ==> match parse_unsigned(trim(stdout@), u32::MAX as int) {
            Some(v) => res == Some(v as u32),
            None => res is None,
        },
{
    if !lsof_succeeded {
        return None;
    }
    let t = trim_str(stdout);
    match parse_unsigned_exec(t.as_str(), u32::MAX as u64) {
        Some(v) => Some(v as u32),
        None => None,
    }
}

/// The database did not come up within `timeout_secs` seconds.
pub fn startup_timeout(timeout_secs: u64) -> (e: Error)
    ensures
        e matches Error::DatabaseStartFailed(m) && m@ == "Database failed to start within "@ + dec(
            timeout_secs as nat,
        ) + " seconds"@,
{
    let n = fmt_u64(timeout_secs);
    Error::DatabaseStartFailed(cat3("Database failed to start within ", n.as_str(), " seconds"))
}

} // verus!
