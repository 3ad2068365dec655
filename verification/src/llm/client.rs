//! What summaries are asked for, what comes back, and how the health of the
//! language model service is judged.
use vstd::prelude::*;
use crate::text::str_eq;

verus! {

/// Repository-level context for a summary.
#[derive(Debug, Clone)]
pub struct RepositoryContext {
    pub name: String,
    pub languages: Vec<String>,
    pub top_modules: Vec<String>,
    pub file_count: usize,
    pub entity_count: usize,
    /// e.g. `CLI`, `async`, `database`
    pub primary_patterns: Vec<String>,
}

/// Component-level context for a summary.
#[derive(Debug, Clone)]
pub struct ComponentContext {
    pub name: String,
    pub component_type: String,
    pub file_count: usize,
    /// Names of its dependencies
    pub dependencies: Vec<String>,
    /// Its public API
    pub exported_entities: Vec<String>,
    pub primary_patterns: Vec<String>,
}

/// Entity-level context for a summary.
#[derive(Debug, Clone)]
pub struct EntityContext {
    pub name: String,
    pub entity_type: String,
    pub file_path: String,
    /// Up to 50 lines of code
    pub code_snippet: String,
    /// For functions and methods
    pub signature: Option<String>,
    /// Direct dependencies
    pub dependencies: Vec<String>,
    pub visibility: String,
}

/// A summary to generate.
#[derive(Debug, Clone)]
pub enum SummaryRequest {
    Repository(RepositoryContext),
    Component(ComponentContext),
    Entity(EntityContext),
}

/// The outcome of a summary request.
#[derive(Debug, Clone)]
pub struct SummaryResult {
    pub request: SummaryRequest,
    pub summary: Option<String>,
    pub error: Option<String>,
    /// How long the generation took, in milliseconds
    pub generation_time_ms: u64,
    pub token_count: Option<usize>,
}

/// The health of the language model service.
#[derive(Debug, Clone)]
pub struct ServiceHealth {
    pub is_available: bool,
    pub ollama_version: Option<String>,
    pub loaded_models: Vec<String>,
    pub api_endpoint: String,
    /// How long the check took, in milliseconds
    pub response_time_ms: u64,
}

/// The health of the service from the outcome of listing its models: it is
/// available when the listing succeeded, and then reports the models and an
/// `unknown` version; otherwise no models and no version.
pub fn service_health(models: Option<Vec<String>>, api_endpoint: String, response_time_ms: u64) -> (h:
    ServiceHealth)
    ensures
        h.is_available == models is Some,
        h.api_endpoint == api_endpoint,
        h.response_time_ms == response_time_ms,
        match models {
            Some(ms) => h.loaded_models == ms && (h.ollama_version matches Some(v) && v@
                == "unknown"@),
            None => h.loaded_models@.len() == 0 && h.ollama_version is None,
        },
{
    match models {
        Some(ms) => ServiceHealth {
            is_available: true,
            ollama_version: Some(String::from_str("unknown")),
            loaded_models: ms,
            api_endpoint,
            response_time_ms,
        },
        None => ServiceHealth {
            is_available: false,
            ollama_version: None,
            loaded_models: Vec::new(),
            api_endpoint,
            response_time_ms,
        },
    }
}

/// Whether `model` is among the models that the service has.
pub fn has_model(models: &Vec<String>, model: &str) -> (b: bool)
    ensures
        b == exists|i: int| 0 <= i < models@.len() && #[trigger] models@[i]@ == model@,
{
    let mut i: usize = 0;
    while i < models.len()
        invariant
            i <= models.len(),
            forall|k: int| 0 <= k < i ==> #[trigger] models@[k]@ != model@,
        decreases models.len() - i,
    {
        if str_eq(models[i].as_str(), model) {
            return true;
        }
        i = i + 1;
    }
    false
}

} // verus!
