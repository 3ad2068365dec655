//! The knowledge graph's tables in PostgreSQL, and what the schema checks decide.
use vstd::prelude::*;
use crate::kg::KgError;
use crate::text::cat;

verus! {

/// SQL that creates the knowledge graph tables: `kg_repositories`,
/// `kg_components`, `kg_entities` and `kg_relationships`, their indexes and
/// the triggers that keep `updated_at` current (PostgreSQL 14 or later).
/// Every statement is guarded
/// by `IF NOT EXISTS` or `OR REPLACE`, so running it twice is harmless.
pub const KG_SCHEMA: &'static str = r#"
-- Knowledge Graph: Repository nodes
CREATE TABLE IF NOT EXISTS kg_repositories (
    id SERIAL PRIMARY KEY,
    repository_id INTEGER NOT NULL REFERENCES repositories(id) ON DELETE CASCADE,
    path TEXT NOT NULL UNIQUE,
    name TEXT NOT NULL,
    summary TEXT,
    metadata JSONB DEFAULT '{}',
    created_at TIMESTAMP NOT NULL DEFAULT CURRENT_TIMESTAMP,
    updated_at TIMESTAMP NOT NULL DEFAULT CURRENT_TIMESTAMP
);

CREATE INDEX IF NOT EXISTS idx_kg_repositories_repo_id ON kg_repositories(repository_id);
CREATE INDEX IF NOT EXISTS idx_kg_repositories_path ON kg_repositories(path);

-- Knowledge Graph: Component nodes (modules, packages)
CREATE TABLE IF NOT EXISTS kg_components (
    id SERIAL PRIMARY KEY,
    kg_repository_id INTEGER NOT NULL REFERENCES kg_repositories(id) ON DELETE CASCADE,
    name TEXT NOT NULL,
    path TEXT NOT NULL,
    component_type TEXT NOT NULL, -- 'module', 'package', 'directory'
    summary TEXT,
    metadata JSONB DEFAULT '{}',
    created_at TIMESTAMP NOT NULL DEFAULT CURRENT_TIMESTAMP,
    updated_at TIMESTAMP NOT NULL DEFAULT CURRENT_TIMESTAMP
);

CREATE INDEX IF NOT EXISTS idx_kg_components_repo ON kg_components(kg_repository_id);
CREATE INDEX IF NOT EXISTS idx_kg_components_path ON kg_components(path);
CREATE INDEX IF NOT EXISTS idx_kg_components_name ON kg_components(name);

-- Knowledge Graph: Code entity nodes (classes, functions, etc.)
CREATE TABLE IF NOT EXISTS kg_entities (
    id SERIAL PRIMARY KEY,
    kg_component_id INTEGER NOT NULL REFERENCES kg_components(id) ON DELETE CASCADE,
    name TEXT NOT NULL,
    entity_type TEXT NOT NULL, -- 'function', 'class', 'struct', 'enum', etc.
    file_path TEXT NOT NULL,
    line_start INTEGER NOT NULL,
    line_end INTEGER NOT NULL,
    visibility TEXT NOT NULL, -- 'public', 'private', 'protected', 'internal'
    signature TEXT,
    doc_comment TEXT,
    language TEXT NOT NULL,
    summary TEXT,
    metadata JSONB DEFAULT '{}',
    created_at TIMESTAMP NOT NULL DEFAULT CURRENT_TIMESTAMP,
    updated_at TIMESTAMP NOT NULL DEFAULT CURRENT_TIMESTAMP
);

CREATE INDEX IF NOT EXISTS idx_kg_entities_component ON kg_entities(kg_component_id);
CREATE INDEX IF NOT EXISTS idx_kg_entities_name ON kg_entities(name);
CREATE INDEX IF NOT EXISTS idx_kg_entities_file ON kg_entities(file_path);
CREATE INDEX IF NOT EXISTS idx_kg_entities_type ON kg_entities(entity_type);

-- Knowledge Graph: Relationships (edges)
CREATE TABLE IF NOT EXISTS kg_relationships (
    id SERIAL PRIMARY KEY,
    from_entity_id INTEGER NOT NULL REFERENCES kg_entities(id) ON DELETE CASCADE,
    to_entity_id INTEGER NOT NULL REFERENCES kg_entities(id) ON DELETE CASCADE,
    relationship_type TEXT NOT NULL, -- 'depends_on', 'uses', 'calls', 'implements', 'extends'
    dep_type TEXT, -- For 'depends_on': 'import', 'inheritance', 'composition', 'association'
    context TEXT, -- Additional context (e.g., function call site)
    call_count INTEGER, -- For 'calls' relationships
    metadata JSONB DEFAULT '{}',
    created_at TIMESTAMP NOT NULL DEFAULT CURRENT_TIMESTAMP,
    
    -- Prevent duplicate relationships
    UNIQUE(from_entity_id, to_entity_id, relationship_type)
);

CREATE INDEX IF NOT EXISTS idx_kg_relationships_from ON kg_relationships(from_entity_id);
CREATE INDEX IF NOT EXISTS idx_kg_relationships_to ON kg_relationships(to_entity_id);
CREATE INDEX IF NOT EXISTS idx_kg_relationships_type ON kg_relationships(relationship_type);

-- Trigger to update updated_at timestamp
CREATE OR REPLACE FUNCTION update_kg_updated_at_column()
RETURNS TRIGGER AS $$
BEGIN
    NEW.updated_at = CURRENT_TIMESTAMP;
    RETURN NEW;
END;
$$ language 'plpgsql';

CREATE OR REPLACE TRIGGER update_kg_repositories_updated_at BEFORE UPDATE ON kg_repositories
    FOR EACH ROW EXECUTE FUNCTION update_kg_updated_at_column();

CREATE OR REPLACE TRIGGER update_kg_components_updated_at BEFORE UPDATE ON kg_components
    FOR EACH ROW EXECUTE FUNCTION update_kg_updated_at_column();

CREATE OR REPLACE TRIGGER update_kg_entities_updated_at BEFORE UPDATE ON kg_entities
    FOR EACH ROW EXECUTE FUNCTION update_kg_updated_at_column();
"#;

/// The tables that make up the knowledge graph, in the order of `KG_SCHEMA`.
pub open spec fn kg_tables() -> Seq<Seq<char>> {
    seq!["kg_repositories"@, "kg_components"@, "kg_entities"@, "kg_relationships"@]
}

/// Names of the knowledge graph tables.
pub fn kg_table_names() -> (names: Vec<&'static str>)
    ensures
        names@.len() == kg_tables().len(),
        forall|i: int| 0 <= i < names@.len() ==> (#[trigger] names@[i])@ == kg_tables()[i],
{
    let names = vec!["kg_repositories", "kg_components", "kg_entities", "kg_relationships"];
    assert(names@.len() == 4);
    names
}

/// The query that counts how many of the knowledge graph tables exist.
pub const SCHEMA_CHECK_QUERY: &'static str = "SELECT COUNT(*) as count FROM information_schema.tables
             WHERE table_schema = 'public' 
             AND table_name IN ('kg_repositories', 'kg_components', 'kg_entities', 'kg_relationships')";

/// Whether the schema is initialized, given how many of the knowledge graph
/// tables the check query counted: all of them must exist.
pub fn is_schema_initialized(table_count: i64) -> (ready: bool)
    ensures
        ready == (table_count == kg_tables().len()),
{
    table_count == 4
}

/// The error for a failed creation of the schema.
pub fn schema_init_error(detail: &str) -> (e: KgError)
    ensures
        e matches KgError::Schema(m) && m@ == "Failed to initialize KG schema: "@ + detail@,
{
    KgError::Schema(cat("Failed to initialize KG schema: ", detail))
}

/// The error for a failed schema check.
pub fn schema_check_error(detail: &str) -> (e: KgError)
    ensures
        e matches KgError::Schema(m) && m@ == "Failed to check schema: "@ + detail@,
{
    KgError::Schema(cat("Failed to check schema: ", detail))
}

} // verus!
