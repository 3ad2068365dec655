//! The knowledge graph: its errors, its data model, how rows of the graph
//! tables become entities and relationships, and the reading of
//! natural-language relationship queries.
use vstd::prelude::*;
use crate::text::{cat, cat3};

pub mod model;
pub mod client;
pub mod query;
pub mod schema;

verus! {

/// Errors of knowledge graph operations.
#[derive(Debug)]
pub enum KgError {
    Database(String),
    NotFound(String),
    InvalidInput(String),
    Schema(String),
    Query(String),
    Serialization(String),
}

pub type KgResult<T> = core::result::Result<T, KgError>;

impl KgError {
    /// The text that `Display` shows for this error.
    pub open spec fn text(&self) -> Seq<char> {
        match self {
            KgError::Database(m) => "Database error: "@ + m@,
            KgError::NotFound(m) => "Entity not found: "@ + m@,
            KgError::InvalidInput(m) => "Invalid input: "@ + m@,
            KgError::Schema(m) => "Schema error: "@ + m@,
            KgError::Query(m) => "Query error: "@ + m@,
            KgError::Serialization(m) => "Serialization error: "@ + m@,
        }
    }

    /// The troubleshooting advice that follows the error text.
    pub open spec fn advice(&self) -> Seq<char> {
        match self {
            KgError::Database(_) => "\n\nTroubleshooting:\n- Ensure the graph database is initialized\n- Check disk space and permissions"@,
            KgError::NotFound(_) => "\n\nTroubleshooting:\n- Verify the repository is indexed with --enable-graph\n- Check entity name spelling"@,
            KgError::InvalidInput(_) => "\n\nTroubleshooting:\n- Check input format and constraints\n- Entity names must be 1-255 characters"@,
            KgError::Schema(_) => "\n\nTroubleshooting:\n- Re-initialize the database\n- Check SurrealDB version compatibility"@,
            KgError::Query(_) => "\n\nTroubleshooting:\n- Simplify your query\n- Check query syntax"@,
            KgError::Serialization(_) => "\n\nTroubleshooting:\n- Check data format\n- Verify data integrity"@,
        }
    }

    /// `error.to_string()`.
    pub fn message(&self) -> (res: String)
        ensures
            res@ == self.text(),
    {
        match self {
            KgError::Database(m) => cat("Database error: ", m),
            KgError::NotFound(m) => cat("Entity not found: ", m),
            KgError::InvalidInput(m) => cat("Invalid input: ", m),
            KgError::Schema(m) => cat("Schema error: ", m),
            KgError::Query(m) => cat("Query error: ", m),
            KgError::Serialization(m) => cat("Serialization error: ", m),
        }
    }

    /// The error text followed by troubleshooting steps.
    pub fn to_user_message(&self) -> (res: String)
        ensures
            res@ == self.text() + self.advice(),
    {
        match self {
            KgError::Database(m) => cat3(
                "Database error: ",
                m,
                "\n\nTroubleshooting:\n- Ensure the graph database is initialized\n- Check disk space and permissions",
            ),
            KgError::NotFound(m) => cat3(
                "Entity not found: ",
                m,
                "\n\nTroubleshooting:\n- Verify the repository is indexed with --enable-graph\n- Check entity name spelling",
            ),
            KgError::InvalidInput(m) => cat3(
                "Invalid input: ",
                m,
                "\n\nTroubleshooting:\n- Check input format and constraints\n- Entity names must be 1-255 characters",
            ),
            KgError::Schema(m) => cat3(
                "Schema error: ",
                m,
                "\n\nTroubleshooting:\n- Re-initialize the database\n- Check SurrealDB version compatibility",
            ),
            KgError::Query(m) => cat3(
                "Query error: ",
                m,
                "\n\nTroubleshooting:\n- Simplify your query\n- Check query syntax",
            ),
            KgError::Serialization(m) => cat3(
                "Serialization error: ",
                m,
                "\n\nTroubleshooting:\n- Check data format\n- Verify data integrity",
            ),
        }
    }
}

} // verus!
