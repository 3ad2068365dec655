//! What cudgel depends on (the embedding model, the database, its schema,
//! outside tools), and how their state is judged and reported.
use vstd::prelude::*;

pub mod checker;
pub mod database;
pub mod model;
pub mod schema;

verus! {

/// The state of a dependency.
#[derive(Debug, Clone, Copy, PartialEq, Eq, Structural)]
pub enum DependencyStatus {
    Missing,
    Satisfied,
    Corrupted,
    Unknown,
}

/// The kind of a dependency.
#[derive(Debug, Clone, Copy, PartialEq, Eq, Structural)]
pub enum ComponentType {
    Model,
    Database,
    Schema,
    ExternalTool,
}

/// A dependency of cudgel and its state.
#[derive(Debug, Clone)]
pub struct Dependency {
    pub name: String,
    pub component_type: ComponentType,
    pub status: DependencyStatus,
    pub required: bool,
    pub error_message: Option<String>,
}

impl Dependency {
    /// A dependency whose state is not known yet.
    pub fn new(name: String, component_type: ComponentType, required: bool) -> (d: Dependency)
        ensures
            d.name == name,
            d.component_type == component_type,
            d.required == required,
            d.status == DependencyStatus::Unknown,
            d.error_message is None,
    {
        Dependency {
            name,
            component_type,
            status: DependencyStatus::Unknown,
            required,
            error_message: None,
        }
    }

    /// Whether this dependency is satisfied.
    pub fn is_satisfied(&self) -> (b: bool)
        ensures
            b == (self.status == DependencyStatus::Satisfied),
    {
        self.status == DependencyStatus::Satisfied
    }

    /// Whether this dependency is missing.
    pub fn is_missing(&self) -> (b: bool)
        ensures
            b == (self.status == DependencyStatus::Missing),
    {
        self.status == DependencyStatus::Missing
    }
}

} // verus!
