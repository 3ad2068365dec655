//! Configuration: the subsystem settings, their validation rules, the
//! database connection string and the XDG base directories.
//!
//! The values that come from the environment (the user name, the XDG
//! variables, the resolved model directory) are handed in by the caller.
use vstd::prelude::*;
use std::path::PathBuf;
use crate::error::{Error, Result};
use crate::paths::{join, join_path};
use crate::text::{cat, cat3, dec, fmt_u64, is_blank, trim};

verus! {

#[verifier::external_type_specification]
#[verifier::external_body]
pub struct ExPathBuf(PathBuf);

/// `PathBuf::clone`; nothing is claimed of the copy.
pub assume_specification[ <PathBuf as Clone>::clone ](p: &PathBuf) -> PathBuf;

/// Main configuration for the Cudgel code indexing tool.
#[derive(Debug, Clone)]
pub struct Config {
    /// Database connection configuration
    pub database: DatabaseConfig,
    /// Embedding model configuration for semantic search
    pub embedding: EmbeddingConfig,
    /// Code indexing behavior configuration
    pub indexing: IndexingConfig,
}

/// PostgreSQL database configuration.
#[derive(Debug, Clone)]
pub struct DatabaseConfig {
    pub host: String,
    pub port: u16,
    pub database: String,
    pub user: String,
    pub password: String,
}

/// Embedding model configuration for semantic code search.
#[derive(Debug, Clone)]
pub struct EmbeddingConfig {
    /// Directory of the ONNX model
    pub model_path: PathBuf,
    /// Embedding vector dimension
    pub dimension: usize,
    /// Tokenization strategy name ("onnx" or "fallback")
    pub strategy: String,
}

/// Code indexing behavior configuration.
#[derive(Debug, Clone)]
pub struct IndexingConfig {
    /// Number of files to process in one database batch
    pub batch_size: usize,
    /// Maximum file size to index, in bytes
    pub max_file_size: usize,
}

/// Largest accepted embedding dimension.
pub const MAX_DIMENSION: usize = 4096;

/// Largest accepted batch size.
pub const MAX_BATCH_SIZE: usize = 10000;

/// Largest accepted file size limit (100MB).
pub const MAX_FILE_SIZE: usize = 104857600;

/// The message of the first validation rule that `c` breaks, in the order
/// in which `Config::validate` checks them, or `None` when `c` is valid.
pub open spec fn validation_failure(c: Config) -> Option<Seq<char>> {
    if trim(c.database.host@).len() == 0 {
        Some("Database host cannot be empty"@)
    } else if c.database.port == 0 {
        Some("Database port cannot be 0. Must be between 1 and 65535"@)
    } else if trim(c.database.database@).len() == 0 {
        Some("Database name cannot be empty"@)
    } else if trim(c.database.user@).len() == 0 {
        Some("Database user cannot be empty"@)
    } else if c.embedding.dimension == 0 {
        Some("Embedding dimension must be positive"@)
    } else if c.embedding.dimension > MAX_DIMENSION {
        Some("Embedding dimension "@ + dec(c.embedding.dimension as nat) + " is too large. Maximum is 4096"@)
    } else if c.indexing.batch_size == 0 {
        Some("Batch size must be positive"@)
    } else if c.indexing.batch_size > MAX_BATCH_SIZE {
        Some("Batch size "@ + dec(c.indexing.batch_size as nat) + " is too large. Maximum is 10000"@)
    } else if c.indexing.max_file_size == 0 {
        Some("Max file size must be positive"@)
    } else if c.indexing.max_file_size > MAX_FILE_SIZE {
        Some("Max file size "@ + dec(c.indexing.max_file_size as nat)
            + " bytes is too large. Maximum is "@ + dec(MAX_FILE_SIZE as nat) + " bytes (100MB)"@)
    } else {
        None
    }
}

/// `host=.. port=.. dbname=.. user=.. password=..`
pub open spec fn connection_string(c: Config) -> Seq<char> {
    "host="@ + c.database.host@ + " port="@ + dec(c.database.port as nat) + " dbname="@
        + c.database.database@ + " user="@ + c.database.user@ + " password="@
        + c.database.password@
}

impl Config {
    /// The local defaults: the database on this machine, port 54321, the
    /// `cudgel` database with password `cudgel`, the given user (`$USER`, or
    /// `cudgel` when unset) and model directory, 384 dimensions, batches of
    /// 100 files and files of at most 1MB.
    pub fn local(user: String, model_path: PathBuf) -> (c: Config)
        ensures
            c.database.host@ == "localhost"@,
            c.database.port == 54321,
            c.database.database@ == "cudgel"@,
            c.database.user@ == user@,
            c.database.password@ == "cudgel"@,
            c.embedding.model_path == model_path,
            c.embedding.dimension == 384,
            c.embedding.strategy@ == "onnx"@,
            c.indexing.batch_size == 100,
            c.indexing.max_file_size == 1048576,
    {
        Config {
            database: DatabaseConfig {
                host: String::from_str("localhost"),
                port: 54321,
                database: String::from_str("cudgel"),
                user,
                password: String::from_str("cudgel"),
            },
            embedding: EmbeddingConfig {
                model_path,
                dimension: 384,
                strategy: String::from_str("onnx"),
            },
            indexing: IndexingConfig { batch_size: 100, max_file_size: 1048576 },
        }
    }

    /// Checks the configuration values: non-empty host, database name and
    /// user; a non-zero port; a dimension in 1..=4096; a batch size in
    /// 1..=10000; a file size limit in 1..=100MB.
    pub fn validate(&self) -> (res: Result<()>)
        ensures
            match validation_failure(*self) {
                None => res.is_ok(),
                Some(m) => res matches Err(Error::Config(msg)) && msg@ == m,
            },
    {
        if is_blank(self.database.host.as_str()) {
            return Err(Error::Config(String::from_str("Database host cannot be empty")));
        }
        if self.database.port == 0 {
            return Err(
                Error::Config(
                    String::from_str("Database port cannot be 0. Must be between 1 and 65535"),
                ),
            );
        }
        if is_blank(self.database.database.as_str()) {
            return Err(Error::Config(String::from_str("Database name cannot be empty")));
        }
        if is_blank(self.database.user.as_str()) {
            return Err(Error::Config(String::from_str("Database user cannot be empty")));
        }
        if self.embedding.dimension == 0 {
            return Err(Error::Config(String::from_str("Embedding dimension must be positive")));
        }
        if self.embedding.dimension > MAX_DIMENSION {
            let d = fmt_u64(self.embedding.dimension as u64);
            return Err(
                Error::Config(
                    cat3("Embedding dimension ", d.as_str(), " is too large. Maximum is 4096"),
                ),
            );
        }
        if self.indexing.batch_size == 0 {
            return Err(Error::Config(String::from_str("Batch size must be positive")));
        }
        if self.indexing.batch_size > MAX_BATCH_SIZE {
            let d = fmt_u64(self.indexing.batch_size as u64);
            return Err(
                Error::Config(cat3("Batch size ", d.as_str(), " is too large. Maximum is 10000")),
            );
        }
        if self.indexing.max_file_size == 0 {
            return Err(Error::Config(String::from_str("Max file size must be positive")));
        }
        if self.indexing.max_file_size > MAX_FILE_SIZE {
            let d = fmt_u64(self.indexing.max_file_size as u64);
            let m = fmt_u64(MAX_FILE_SIZE as u64);
            let head = cat3("Max file size ", d.as_str(), " bytes is too large. Maximum is ");
            return Err(Error::Config(cat3(head.as_str(), m.as_str(), " bytes (100MB)")));
        }
        Ok(())
    }

    /// The local defaults (see [`Config::local`]), validated: every field of
    /// the result is the local default, and the only default that can fail
    /// validation is a blank user.
    pub fn from_env(user: String, model_path: PathBuf) -> (res: Result<Config>)
        ensures
            trim(user@).len() != 0 ==> (res matches Ok(c) && validation_failure(c) is None
                && c.database.host@ == "localhost"@ && c.database.port == 54321
                && c.database.database@ == "cudgel"@ && c.database.user@ == user@
                && c.database.password@ == "cudgel"@ && c.embedding.model_path == model_path
                && c.embedding.dimension == 384 && c.embedding.strategy@ == "onnx"@
                && c.indexing.batch_size == 100 && c.indexing.max_file_size == 1048576),
            trim(user@).len() == 0 ==> (res matches Err(Error::Config(m)) && m@
                == "Database user cannot be empty"@),
    {
        let config = Self::local(user, model_path);
        proof {
            reveal_strlit("localhost");
            reveal_strlit("cudgel");
            assert(!crate::text::is_ws('l'));
            assert(trim(config.database.host@) =~= config.database.host@);
            assert(!crate::text::is_ws('c'));
            assert(trim(config.database.database@) =~= config.database.database@);
        }
        config.validate()?;
        Ok(config)
    }

    /// The PostgreSQL connection string, in libpq format.
    pub fn database_url(&self) -> (res: String)
        ensures
            res@ == connection_string(*self),
    {
        let port = fmt_u64(self.database.port as u64);
        let a = cat3("host=", self.database.host.as_str(), " port=");
        let b = cat3(a.as_str(), port.as_str(), " dbname=");
        let c = cat3(b.as_str(), self.database.database.as_str(), " user=");
        let d = cat3(c.as_str(), self.database.user.as_str(), " password=");
        cat(d.as_str(), self.database.password.as_str())
    }
}

// ---------------------------------------------------------------------------
// XDG base directories
// ---------------------------------------------------------------------------

/// An XDG base directory: the value of its environment variable when that is
/// set, else `fallback` under the home directory.
pub open spec fn xdg_dir(var: Option<String>, home: Option<String>, fallback: Seq<char>) -> Seq<
    char,
> {
    match var {
        Some(v) => v@,
        None => join(home.unwrap()@, fallback),
    }
}

fn xdg_home(var: Option<String>, home: Option<String>, fallback: &str) -> (res: String)
    requires
        var.is_some() || home.is_some(),
    ensures
        res@ == xdg_dir(var, home, fallback@),
{
    match var {
        Some(v) => v,
        None => {
            let h = home.unwrap();
            join_path(h.as_str(), fallback)
        },
    }
}

/// `XDG_DATA_HOME`, defaulting to `~/.local/share`.  The two arguments are
/// the values of `XDG_DATA_HOME` and `HOME`; one of them must be set.
pub fn xdg_data_home(var: Option<String>, home: Option<String>) -> (res: String)
    requires
        var.is_some() || home.is_some(),
    ensures
        res@ == xdg_dir(var, home, ".local/share"@),
{
    xdg_home(var, home, ".local/share")
}

/// `XDG_CONFIG_HOME`, defaulting to `~/.config`.
pub fn xdg_config_home(var: Option<String>, home: Option<String>) -> (res: String)
    requires
        var.is_some() || home.is_some(),
    ensures
        res@ == xdg_dir(var, home, ".config"@),
{
    xdg_home(var, home, ".config")
}

/// `XDG_STATE_HOME`, defaulting to `~/.local/state`.
pub fn xdg_state_home(var: Option<String>, home: Option<String>) -> (res: String)
    requires
        var.is_some() || home.is_some(),
    ensures
        res@ == xdg_dir(var, home, ".local/state"@),
{
    xdg_home(var, home, ".local/state")
}

/// `XDG_CACHE_HOME`, defaulting to `~/.cache`.
pub fn xdg_cache_home(var: Option<String>, home: Option<String>) -> (res: String)
    requires
        var.is_some() || home.is_some(),
    ensures
        res@ == xdg_dir(var, home, ".cache"@),
{
    xdg_home(var, home, ".cache")
}

/// The cudgel data directory, `XDG_DATA_HOME/cudgel`.
pub fn cudgel_data_dir(var: Option<String>, home: Option<String>) -> (res: String)
    requires
        var.is_some() || home.is_some(),
    ensures
        res@ == join(xdg_dir(var, home, ".local/share"@), "cudgel"@),
{
    let base = self::xdg_data_home(var, home);
    join_path(base.as_str(), "cudgel")
}

/// The cudgel config directory, `XDG_CONFIG_HOME/cudgel`.
pub fn cudgel_config_dir(var: Option<String>, home: Option<String>) -> (res: String)
    requires
        var.is_some() || home.is_some(),
    ensures
        res@ == join(xdg_dir(var, home, ".config"@), "cudgel"@),
{
    let base = self::xdg_config_home(var, home);
    join_path(base.as_str(), "cudgel")
}

/// The cudgel state directory, `XDG_STATE_HOME/cudgel`, where the
/// orchestrator keeps its PID and log files.
pub fn cudgel_state_dir(var: Option<String>, home: Option<String>) -> (res: String)
    requires
        var.is_some() || home.is_some(),
    ensures
        res@ == join(xdg_dir(var, home, ".local/state"@), "cudgel"@),
{
    let base = self::xdg_state_home(var, home);
    join_path(base.as_str(), "cudgel")
}

/// The cudgel cache directory, `XDG_CACHE_HOME/cudgel`.
pub fn cudgel_cache_dir(var: Option<String>, home: Option<String>) -> (res: String)
    requires
        var.is_some() || home.is_some(),
    ensures
        res@ == join(xdg_dir(var, home, ".cache"@), "cudgel"@),
{
    let base = self::xdg_cache_home(var, home);
    join_path(base.as_str(), "cudgel")
}

/// Where the ONNX model lives by default, under the data home.
pub fn default_model_dir(var: Option<String>, home: Option<String>) -> (res: String)
    requires
        var.is_some() || home.is_some(),
    ensures
        res@ == join(xdg_dir(var, home, ".local/share"@), "cudgel/models/all-MiniLM-L6-v2"@),
{
    let base = self::xdg_data_home(var, home);
    join_path(base.as_str(), "cudgel/models/all-MiniLM-L6-v2")
}

} // verus!
