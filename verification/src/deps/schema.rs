//! The state of the database schema.
use vstd::prelude::*;

verus! {

/// The state of the schema's initialization.
#[derive(Debug, Clone, Copy, PartialEq, Eq, Structural)]
pub enum SchemaState {
    NotInitialized,
    Initializing,
    Initialized,
    Error,
}

/// A version of the database schema and what it created.
#[derive(Debug, Clone)]
pub struct SchemaVersion {
    pub version_number: i32,
    /// When it was applied (seconds since the Unix epoch)
    pub applied_at: Option<i64>,
    pub tables_created: Vec<String>,
    pub indexes_created: Vec<String>,
    pub extensions_enabled: Vec<String>,
    pub is_initialized: bool,
}

impl SchemaVersion {
    /// A version not applied yet.
    pub fn new(version_number: i32) -> (v: SchemaVersion)
        ensures
            v.version_number == version_number,
            v.applied_at is None,
            v.tables_created@.len() == 0,
            v.indexes_created@.len() == 0,
            v.extensions_enabled@.len() == 0,
            !v.is_initialized,
    {
        SchemaVersion {
            version_number,
            applied_at: None,
            tables_created: Vec::new(),
            indexes_created: Vec::new(),
            extensions_enabled: Vec::new(),
            is_initialized: false,
        }
    }
}

/// Sets up the database schema.
#[derive(Debug, Clone, Copy)]
pub struct SchemaInitializer {}

impl SchemaInitializer {
    /// A schema initializer.
    pub fn new() -> (s: SchemaInitializer)
        ensures
            s == (SchemaInitializer {}),
    {
        SchemaInitializer {  }
    }
}

} // verus!
