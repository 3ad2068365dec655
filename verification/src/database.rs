//! The stored records of the index, the database schema, and the rules of
//! scheduled re-indexing: when a task runs next, and what a failure does to
//! it.
//!
//! Timestamps are seconds since the Unix epoch (UTC); JSON metadata is
//! carried as text.
use vstd::prelude::*;
use crate::error::{Error, Result};
use crate::text::{cat, cat3, dec, dec_int, fmt_u64, parse_signed, parse_signed_exec, str_eq, strings};

verus! {

/// An indexed repository.
#[derive(Debug, Clone)]
pub struct Repository {
    pub id: i32,
    /// Absolute path of the repository
    pub path: String,
    pub name: String,
    pub indexed_at: i64,
    pub last_updated: i64,
    /// Metadata (JSON text)
    pub metadata: String,
}

/// An indexed source file.
#[derive(Debug, Clone)]
pub struct FileRecord {
    pub id: i32,
    pub repository_id: i32,
    pub path: String,
    pub language: Option<String>,
    pub content: String,
    /// SHA-256 of the content, for change detection
    pub hash: String,
    pub indexed_at: i64,
    pub metadata: String,
}

/// A stored code symbol.
#[derive(Debug, Clone)]
pub struct Symbol {
    pub id: i32,
    pub file_id: i32,
    pub name: String,
    /// `function`, `class`, `method`, `struct`, ...
    pub kind: String,
    pub signature: Option<String>,
    pub docstring: Option<String>,
    /// Starting line (counted from 1)
    pub start_line: i32,
    /// Ending line (counted from 1)
    pub end_line: i32,
}

/// A reference from one symbol to another (a call, an import, ...).
#[derive(Debug, Clone)]
pub struct Reference {
    pub id: i32,
    pub from_symbol_id: i32,
    pub to_symbol_id: i32,
    pub reference_type: String,
    pub file_id: i32,
    /// Line of the reference (counted from 1)
    pub line: i32,
    /// Column of the reference (counted from 0)
    pub column: i32,
}

impl Reference {
    /// A copy of this reference.
    pub fn copy(&self) -> (r: Reference)
        ensures
            r == *self,
    {
        Reference {
            id: self.id,
            from_symbol_id: self.from_symbol_id,
            to_symbol_id: self.to_symbol_id,
            reference_type: self.reference_type.clone(),
            file_id: self.file_id,
            line: self.line,
            column: self.column,
        }
    }
}

/// A repository to re-index on a schedule.
#[derive(Debug, Clone)]
pub struct ScheduledTask {
    pub id: i32,
    pub repo_id: i32,
    /// Interval in hours (1 to 8760)
    pub interval_hours: i32,
    pub last_run_at: Option<i64>,
    pub next_run_at: i64,
    /// `idle`, `running`, `failed`, `paused` or `cancelled`
    pub status: String,
    /// Version for optimistic locking
    pub version: i32,
    /// Failed attempts since the last success
    pub retry_count: i32,
    pub error_message: Option<String>,
    pub created_at: i64,
}

// ---------------------------------------------------------------------------
// The schema
// ---------------------------------------------------------------------------

/// The embedding dimension that the schema's vector columns are created with.
pub const SCHEMA_DIMENSION: u64 = 384;

/// The statements that create the schema, in order: the `vector` extension,
/// then the tables and their indexes; the two embedding columns have
/// `dimension` dimensions.  Every statement can run again on a schema that
/// exists.
pub open spec fn schema_statements(dimension: nat) -> Seq<Seq<char>> {
    seq![
        "CREATE EXTENSION IF NOT EXISTS vector"@,
        "CREATE TABLE IF NOT EXISTS repositories (
                    id SERIAL PRIMARY KEY,
                    path TEXT NOT NULL UNIQUE,
                    name TEXT NOT NULL,
                    indexed_at TIMESTAMP DEFAULT CURRENT_TIMESTAMP,
                    last_updated TIMESTAMP DEFAULT CURRENT_TIMESTAMP,
                    metadata JSONB DEFAULT '{}'
                )"@,
        "CREATE TABLE IF NOT EXISTS files (
                    id SERIAL PRIMARY KEY,
                    repository_id INTEGER REFERENCES repositories(id) ON DELETE CASCADE,
                    path TEXT NOT NULL,
                    language TEXT,
                    content TEXT,
                    hash TEXT NOT NULL,
                    indexed_at TIMESTAMP DEFAULT CURRENT_TIMESTAMP,
                    metadata JSONB DEFAULT '{}',
                    UNIQUE(repository_id, path)
                )"@,
        "CREATE TABLE IF NOT EXISTS ast_nodes (
                    id SERIAL PRIMARY KEY,
                    file_id INTEGER REFERENCES files(id) ON DELETE CASCADE,
                    parent_id INTEGER REFERENCES ast_nodes(id) ON DELETE CASCADE,
                    node_type TEXT NOT NULL,
                    text TEXT,
                    start_line INTEGER NOT NULL,
                    start_column INTEGER NOT NULL,
                    end_line INTEGER NOT NULL,
                    end_column INTEGER NOT NULL,
                    metadata JSONB DEFAULT '{}'
                )"@,
        "CREATE INDEX IF NOT EXISTS idx_ast_nodes_parent ON ast_nodes(parent_id)"@,
        "CREATE INDEX IF NOT EXISTS idx_ast_nodes_file ON ast_nodes(file_id)"@,
        "CREATE TABLE IF NOT EXISTS symbols (
                        id SERIAL PRIMARY KEY,
                        file_id INTEGER REFERENCES files(id) ON DELETE CASCADE,
                        ast_node_id INTEGER REFERENCES ast_nodes(id) ON DELETE CASCADE,
                        name TEXT NOT NULL,
                        kind TEXT NOT NULL,
                        signature TEXT,
                        docstring TEXT,
                        start_line INTEGER NOT NULL,
                        end_line INTEGER NOT NULL,
                        embedding vector("@ + dec(dimension) + "),
                        metadata JSONB DEFAULT '{}'
                    )"@,
        "CREATE INDEX IF NOT EXISTS idx_symbols_embedding
                 ON symbols USING hnsw (embedding vector_cosine_ops)"@,
        "CREATE TABLE IF NOT EXISTS \"references\" (
                    id SERIAL PRIMARY KEY,
                    from_symbol_id INTEGER REFERENCES symbols(id) ON DELETE CASCADE,
                    to_symbol_id INTEGER REFERENCES symbols(id) ON DELETE CASCADE,
                    reference_type TEXT NOT NULL,
                    file_id INTEGER REFERENCES files(id) ON DELETE CASCADE,
                    line INTEGER NOT NULL,
                    \"column\" INTEGER NOT NULL,
                    metadata JSONB DEFAULT '{}',
                    UNIQUE(from_symbol_id, to_symbol_id, reference_type, line, \"column\")
                )"@,
        "CREATE INDEX IF NOT EXISTS idx_references_from ON \"references\"(from_symbol_id)"@,
        "CREATE INDEX IF NOT EXISTS idx_references_to ON \"references\"(to_symbol_id)"@,
        "CREATE TABLE IF NOT EXISTS code_chunks (
                        id SERIAL PRIMARY KEY,
                        file_id INTEGER REFERENCES files(id) ON DELETE CASCADE,
                        symbol_id INTEGER REFERENCES symbols(id) ON DELETE SET NULL,
                        text TEXT NOT NULL,
                        start_line INTEGER NOT NULL,
                        end_line INTEGER NOT NULL,
                        embedding vector("@ + dec(dimension) + "),
                        metadata JSONB DEFAULT '{}'
                    )"@,
        "CREATE INDEX IF NOT EXISTS idx_code_chunks_embedding
                 ON code_chunks USING hnsw (embedding vector_cosine_ops)"@,
        "CREATE TABLE IF NOT EXISTS scheduled_tasks (
                    id SERIAL PRIMARY KEY,
                    repo_id INTEGER NOT NULL UNIQUE REFERENCES repositories(id) ON DELETE CASCADE,
                    interval_hours INTEGER NOT NULL CHECK (interval_hours > 0 AND interval_hours <= 8760),
                    next_run_at TIMESTAMPTZ NOT NULL,
                    last_run_at TIMESTAMPTZ,
                    status TEXT DEFAULT 'idle' CHECK (status IN ('idle', 'running', 'failed', 'paused', 'cancelled')),
                    version INTEGER DEFAULT 1 CHECK (version > 0),
                    retry_count INTEGER DEFAULT 0 CHECK (retry_count >= 0),
                    error_message TEXT,
                    created_at TIMESTAMPTZ DEFAULT CURRENT_TIMESTAMP
                )"@,
        "CREATE INDEX IF NOT EXISTS idx_scheduled_tasks_repo_id ON scheduled_tasks(repo_id)"@,
        "CREATE INDEX IF NOT EXISTS idx_scheduled_tasks_next_run ON scheduled_tasks(next_run_at) WHERE status = 'idle'"@,
        "CREATE INDEX IF NOT EXISTS idx_scheduled_tasks_status ON scheduled_tasks(status)"@,
        "CREATE TABLE IF NOT EXISTS knowledge_documents (
                    id SERIAL PRIMARY KEY,
                    repo_id INTEGER NOT NULL UNIQUE REFERENCES repositories(id) ON DELETE CASCADE,
                    content TEXT NOT NULL CHECK (content != ''),
                    generated_at TIMESTAMPTZ DEFAULT CURRENT_TIMESTAMP,
                    last_edited_at TIMESTAMPTZ,
                    version INTEGER DEFAULT 1 CHECK (version > 0)
                )"@,
        "CREATE INDEX IF NOT EXISTS idx_knowledge_documents_repo_id ON knowledge_documents(repo_id)"@,
    ]
}

/// The statements that drop every table, dependents first.
pub open spec fn drop_statements() -> Seq<Seq<char>> {
    seq![
        "DROP TABLE IF EXISTS knowledge_documents CASCADE"@,
        "DROP TABLE IF EXISTS scheduled_tasks CASCADE"@,
        "DROP TABLE IF EXISTS code_chunks CASCADE"@,
        "DROP TABLE IF EXISTS \"references\" CASCADE"@,
        "DROP TABLE IF EXISTS symbols CASCADE"@,
        "DROP TABLE IF EXISTS ast_nodes CASCADE"@,
        "DROP TABLE IF EXISTS files CASCADE"@,
        "DROP TABLE IF EXISTS repositories CASCADE"@,
    ]
}

/// The statements that create the schema (see [`schema_statements`]).
pub fn init_schema_statements(dimension: u64) -> (res: Vec<String>)
    ensures
        strings(res@) == schema_statements(dimension as nat),
{
    let d = fmt_u64(dimension);
    let mut v: Vec<String> = Vec::new();
    v.push(String::from_str("CREATE EXTENSION IF NOT EXISTS vector"));
    v.push(String::from_str("CREATE TABLE IF NOT EXISTS repositories (
                    id SERIAL PRIMARY KEY,
                    path TEXT NOT NULL UNIQUE,
                    name TEXT NOT NULL,
                    indexed_at TIMESTAMP DEFAULT CURRENT_TIMESTAMP,
                    last_updated TIMESTAMP DEFAULT CURRENT_TIMESTAMP,
                    metadata JSONB DEFAULT '{}'
                )"));
    v.push(String::from_str("CREATE TABLE IF NOT EXISTS files (
                    id SERIAL PRIMARY KEY,
                    repository_id INTEGER REFERENCES repositories(id) ON DELETE CASCADE,
                    path TEXT NOT NULL,
                    language TEXT,
                    content TEXT,
                    hash TEXT NOT NULL,
                    indexed_at TIMESTAMP DEFAULT CURRENT_TIMESTAMP,
                    metadata JSONB DEFAULT '{}',
                    UNIQUE(repository_id, path)
                )"));
    v.push(String::from_str("CREATE TABLE IF NOT EXISTS ast_nodes (
                    id SERIAL PRIMARY KEY,
                    file_id INTEGER REFERENCES files(id) ON DELETE CASCADE,
                    parent_id INTEGER REFERENCES ast_nodes(id) ON DELETE CASCADE,
                    node_type TEXT NOT NULL,
                    text TEXT,
                    start_line INTEGER NOT NULL,
                    start_column INTEGER NOT NULL,
                    end_line INTEGER NOT NULL,
                    end_column INTEGER NOT NULL,
                    metadata JSONB DEFAULT '{}'
                )"));
    v.push(String::from_str("CREATE INDEX IF NOT EXISTS idx_ast_nodes_parent ON ast_nodes(parent_id)"));
    v.push(String::from_str("CREATE INDEX IF NOT EXISTS idx_ast_nodes_file ON ast_nodes(file_id)"));
    v.push(cat3("CREATE TABLE IF NOT EXISTS symbols (
                        id SERIAL PRIMARY KEY,
                        file_id INTEGER REFERENCES files(id) ON DELETE CASCADE,
                        ast_node_id INTEGER REFERENCES ast_nodes(id) ON DELETE CASCADE,
                        name TEXT NOT NULL,
                        kind TEXT NOT NULL,
                        signature TEXT,
                        docstring TEXT,
                        start_line INTEGER NOT NULL,
                        end_line INTEGER NOT NULL,
                        embedding vector(", d.as_str(), "),
                        metadata JSONB DEFAULT '{}'
                    )"));
    v.push(String::from_str("CREATE INDEX IF NOT EXISTS idx_symbols_embedding
                 ON symbols USING hnsw (embedding vector_cosine_ops)"));
    v.push(String::from_str("CREATE TABLE IF NOT EXISTS \"references\" (
                    id SERIAL PRIMARY KEY,
                    from_symbol_id INTEGER REFERENCES symbols(id) ON DELETE CASCADE,
                    to_symbol_id INTEGER REFERENCES symbols(id) ON DELETE CASCADE,
                    reference_type TEXT NOT NULL,
                    file_id INTEGER REFERENCES files(id) ON DELETE CASCADE,
                    line INTEGER NOT NULL,
                    \"column\" INTEGER NOT NULL,
                    metadata JSONB DEFAULT '{}',
                    UNIQUE(from_symbol_id, to_symbol_id, reference_type, line, \"column\")
                )"));
    v.push(String::from_str("CREATE INDEX IF NOT EXISTS idx_references_from ON \"references\"(from_symbol_id)"));
    v.push(String::from_str("CREATE INDEX IF NOT EXISTS idx_references_to ON \"references\"(to_symbol_id)"));
    v.push(cat3("CREATE TABLE IF NOT EXISTS code_chunks (
                        id SERIAL PRIMARY KEY,
                        file_id INTEGER REFERENCES files(id) ON DELETE CASCADE,
                        symbol_id INTEGER REFERENCES symbols(id) ON DELETE SET NULL,
                        text TEXT NOT NULL,
                        start_line INTEGER NOT NULL,
                        end_line INTEGER NOT NULL,
                        embedding vector(", d.as_str(), "),
                        metadata JSONB DEFAULT '{}'
                    )"));
    v.push(String::from_str("CREATE INDEX IF NOT EXISTS idx_code_chunks_embedding
                 ON code_chunks USING hnsw (embedding vector_cosine_ops)"));
    v.push(String::from_str("CREATE TABLE IF NOT EXISTS scheduled_tasks (
                    id SERIAL PRIMARY KEY,
                    repo_id INTEGER NOT NULL UNIQUE REFERENCES repositories(id) ON DELETE CASCADE,
                    interval_hours INTEGER NOT NULL CHECK (interval_hours > 0 AND interval_hours <= 8760),
                    next_run_at TIMESTAMPTZ NOT NULL,
                    last_run_at TIMESTAMPTZ,
                    status TEXT DEFAULT 'idle' CHECK (status IN ('idle', 'running', 'failed', 'paused', 'cancelled')),
                    version INTEGER DEFAULT 1 CHECK (version > 0),
                    retry_count INTEGER DEFAULT 0 CHECK (retry_count >= 0),
                    error_message TEXT,
                    created_at TIMESTAMPTZ DEFAULT CURRENT_TIMESTAMP
                )"));
    v.push(String::from_str("CREATE INDEX IF NOT EXISTS idx_scheduled_tasks_repo_id ON scheduled_tasks(repo_id)"));
    v.push(String::from_str("CREATE INDEX IF NOT EXISTS idx_scheduled_tasks_next_run ON scheduled_tasks(next_run_at) WHERE status = 'idle'"));
    v.push(String::from_str("CREATE INDEX IF NOT EXISTS idx_scheduled_tasks_status ON scheduled_tasks(status)"));
    v.push(String::from_str("CREATE TABLE IF NOT EXISTS knowledge_documents (
                    id SERIAL PRIMARY KEY,
                    repo_id INTEGER NOT NULL UNIQUE REFERENCES repositories(id) ON DELETE CASCADE,
                    content TEXT NOT NULL CHECK (content != ''),
                    generated_at TIMESTAMPTZ DEFAULT CURRENT_TIMESTAMP,
                    last_edited_at TIMESTAMPTZ,
                    version INTEGER DEFAULT 1 CHECK (version > 0)
                )"));
    v.push(String::from_str("CREATE INDEX IF NOT EXISTS idx_knowledge_documents_repo_id ON knowledge_documents(repo_id)"));
    assert(strings(v@) =~= schema_statements(dimension as nat));
    v
}

/// The statements that reset the schema: every table dropped, then the
/// schema created again.
pub fn reset_schema_statements(dimension: u64) -> (res: Vec<String>)
    ensures
        strings(res@) == drop_statements() + schema_statements(dimension as nat),
{
    let mut v: Vec<String> = Vec::new();
    v.push(String::from_str("DROP TABLE IF EXISTS knowledge_documents CASCADE"));
    v.push(String::from_str("DROP TABLE IF EXISTS scheduled_tasks CASCADE"));
    v.push(String::from_str("DROP TABLE IF EXISTS code_chunks CASCADE"));
    v.push(String::from_str("DROP TABLE IF EXISTS \"references\" CASCADE"));
    v.push(String::from_str("DROP TABLE IF EXISTS symbols CASCADE"));
    v.push(String::from_str("DROP TABLE IF EXISTS ast_nodes CASCADE"));
    v.push(String::from_str("DROP TABLE IF EXISTS files CASCADE"));
    v.push(String::from_str("DROP TABLE IF EXISTS repositories CASCADE"));
    assert(strings(v@) =~= drop_statements());
    let mut init = init_schema_statements(dimension);
    let ghost a = v@;
    let ghost b = init@;
    v.append(&mut init);
    assert(strings(v@) =~= strings(a) + strings(b));
    v
}

// ---------------------------------------------------------------------------
// Scheduling
// ---------------------------------------------------------------------------

/// The shortest interval between two runs of a task, in hours.
pub const MIN_INTERVAL_HOURS: i32 = 1;

/// The longest interval between two runs of a task, in hours (a year).
pub const MAX_INTERVAL_HOURS: i32 = 8760;

/// After this many failures in a row a task is given up.
pub const MAX_RETRIES: i32 = 5;

/// When a task that ran at `now` runs next: `interval_hours` later.
pub fn next_run_after(now: i64, interval_hours: i32) -> (t: i64)
    requires
        i64::MIN <= now + interval_hours * 3600 <= i64::MAX,
    ensures
        t == now + interval_hours * 3600,
{
    now + (interval_hours as i64) * 3600
}

/// What a failure does to a task.
#[derive(Debug, Clone, Copy, PartialEq, Eq)]
pub enum FailureOutcome {
    /// The task is tried again after this many minutes.
    Retry { backoff_minutes: i64 },
    /// The task failed `MAX_RETRIES` times in a row and is given up.
    GiveUp,
}

/// A task that had failed `retry_count` times in a row fails once more: it
/// has now failed one time more; after `MAX_RETRIES` failures it is given
/// up, else it is retried after 2^`retry_count` minutes (1, 2, 4, 8).
pub open spec fn failure_outcome(retry_count: int) -> FailureOutcome {
    if retry_count + 1 >= MAX_RETRIES {
        FailureOutcome::GiveUp
    } else {
        FailureOutcome::Retry { backoff_minutes: vstd::arithmetic::power2::pow2(retry_count as nat) as i64 }
    }
}

/// The new failure count of a task and what happens to it.
pub fn record_task_failure(retry_count: i32) -> (res: (i32, FailureOutcome))
    requires
        0 <= retry_count,
        retry_count < i32::MAX,
    ensures
        res.0 == retry_count + 1,
        res.1 == failure_outcome(retry_count as int),
{
    let new_count = retry_count + 1;
    if new_count >= MAX_RETRIES {
        return (new_count, FailureOutcome::GiveUp);
    }
    let mut backoff: i64 = 1;
    let mut k: i32 = 0;
    proof {
        vstd::arithmetic::power2::lemma2_to64();
    }
    while k < retry_count
        invariant
            0 <= k <= retry_count,
            retry_count < 4,
            backoff == vstd::arithmetic::power2::pow2(k as nat),
        decreases retry_count - k,
    {
        proof {
            vstd::arithmetic::power2::lemma2_to64();
            vstd::arithmetic::power2::lemma_pow2_unfold((k + 1) as nat);
        }
        backoff = backoff * 2;
        k = k + 1;
    }
    (new_count, FailureOutcome::Retry { backoff_minutes: backoff })
}

/// When a task that failed at `now` is retried: `backoff_minutes` later.
pub fn retry_at(now: i64, backoff_minutes: i64) -> (t: i64)
    requires
        i64::MIN <= backoff_minutes * 60 <= i64::MAX,
        i64::MIN <= now + backoff_minutes * 60 <= i64::MAX,
    ensures
        t == now + backoff_minutes * 60,
{
    now + backoff_minutes * 60
}

/// Every failure before the last one doubles the wait: when two failures in
/// a row are both retried, the second waits twice as long as the first.
pub proof fn law_backoff_doubles(retry_count: int)
    requires
        0 <= retry_count,
        retry_count + 2 < MAX_RETRIES,
    ensures
        failure_outcome(retry_count) is Retry,
        failure_outcome(retry_count + 1) is Retry,
        failure_outcome(retry_count + 1)->backoff_minutes == 2 * failure_outcome(
            retry_count,
        )->backoff_minutes,
{
    vstd::arithmetic::power2::lemma2_to64();
    vstd::arithmetic::power2::lemma_pow2_unfold((retry_count + 1) as nat);
}

/// A task that keeps failing is retried after its first `MAX_RETRIES - 1`
/// failures and given up at failure number `MAX_RETRIES`, never before.
pub proof fn law_gives_up_at_max_retries(retry_count: int)
    requires
        0 <= retry_count,
    ensures
        (failure_outcome(retry_count) is GiveUp) <==> retry_count + 1 >= MAX_RETRIES,
{
}

/// `s` begins with `p`.
pub open spec fn has_prefix(s: Seq<char>, p: Seq<char>) -> bool {
    p.len() <= s.len() && s.subrange(0, p.len() as int) == p
}

/// A statement that changes nothing when what it creates exists already:
/// `CREATE TABLE`, `CREATE INDEX` or `CREATE EXTENSION` with `IF NOT EXISTS`.
pub open spec fn guarded_statement(s: Seq<char>) -> bool {
    ||| has_prefix(s, "CREATE TABLE IF NOT EXISTS "@)
    ||| has_prefix(s, "CREATE INDEX IF NOT EXISTS "@)
    ||| has_prefix(s, "CREATE EXTENSION IF NOT EXISTS "@)
}

/// Creating the schema can be repeated: every statement that creates it is
/// guarded by `IF NOT EXISTS`, so running them on a database that holds the
/// schema already changes nothing.
pub proof fn law_schema_statements_are_guarded(dimension: nat)
    ensures
        forall|i: int|
            0 <= i < schema_statements(dimension).len() ==> #[trigger] guarded_statement(
                schema_statements(dimension)[i],
            ),
{
    let ss = schema_statements(dimension);
    assert(ss.len() == 19);
    assert(guarded_statement(ss[0])) by {
        reveal_strlit("CREATE EXTENSION IF NOT EXISTS ");
        reveal_strlit("CREATE EXTENSION IF NOT EXISTS vector");
        assert(ss[0].subrange(0, "CREATE EXTENSION IF NOT EXISTS "@.len() as int) =~= "CREATE EXTENSION IF NOT EXISTS "@);
    }
    assert(guarded_statement(ss[1])) by {
        reveal_strlit("CREATE TABLE IF NOT EXISTS ");
        reveal_strlit("CREATE TABLE IF NOT EXISTS repositories (
                    id SERIAL PRIMARY KEY,
                    path TEXT NOT NULL UNIQUE,
                    name TEXT NOT NULL,
                    indexed_at TIMESTAMP DEFAULT CURRENT_TIMESTAMP,
                    last_updated TIMESTAMP DEFAULT CURRENT_TIMESTAMP,
                    metadata JSONB DEFAULT '{}'
                )");
        assert(ss[1].subrange(0, "CREATE TABLE IF NOT EXISTS "@.len() as int) =~= "CREATE TABLE IF NOT EXISTS "@);
    }
    assert(guarded_statement(ss[2])) by {
        reveal_strlit("CREATE TABLE IF NOT EXISTS ");
        reveal_strlit("CREATE TABLE IF NOT EXISTS files (
                    id SERIAL PRIMARY KEY,
                    repository_id INTEGER REFERENCES repositories(id) ON DELETE CASCADE,
                    path TEXT NOT NULL,
                    language TEXT,
                    content TEXT,
                    hash TEXT NOT NULL,
                    indexed_at TIMESTAMP DEFAULT CURRENT_TIMESTAMP,
                    metadata JSONB DEFAULT '{}',
                    UNIQUE(repository_id, path)
                )");
        assert(ss[2].subrange(0, "CREATE TABLE IF NOT EXISTS "@.len() as int) =~= "CREATE TABLE IF NOT EXISTS "@);
    }
    assert(guarded_statement(ss[3])) by {
        reveal_strlit("CREATE TABLE IF NOT EXISTS ");
        reveal_strlit("CREATE TABLE IF NOT EXISTS ast_nodes (
                    id SERIAL PRIMARY KEY,
                    file_id INTEGER REFERENCES files(id) ON DELETE CASCADE,
                    parent_id INTEGER REFERENCES ast_nodes(id) ON DELETE CASCADE,
                    node_type TEXT NOT NULL,
                    text TEXT,
                    start_line INTEGER NOT NULL,
                    start_column INTEGER NOT NULL,
                    end_line INTEGER NOT NULL,
                    end_column INTEGER NOT NULL,
                    metadata JSONB DEFAULT '{}'
                )");
        assert(ss[3].subrange(0, "CREATE TABLE IF NOT EXISTS "@.len() as int) =~= "CREATE TABLE IF NOT EXISTS "@);
    }
    assert(guarded_statement(ss[4])) by {
        reveal_strlit("CREATE INDEX IF NOT EXISTS ");
        reveal_strlit("CREATE INDEX IF NOT EXISTS idx_ast_nodes_parent ON ast_nodes(parent_id)");
        assert(ss[4].subrange(0, "CREATE INDEX IF NOT EXISTS "@.len() as int) =~= "CREATE INDEX IF NOT EXISTS "@);
    }
    assert(guarded_statement(ss[5])) by {
        reveal_strlit("CREATE INDEX IF NOT EXISTS ");
        reveal_strlit("CREATE INDEX IF NOT EXISTS idx_ast_nodes_file ON ast_nodes(file_id)");
        assert(ss[5].subrange(0, "CREATE INDEX IF NOT EXISTS "@.len() as int) =~= "CREATE INDEX IF NOT EXISTS "@);
    }
    assert(guarded_statement(ss[6])) by {
        reveal_strlit("CREATE TABLE IF NOT EXISTS ");
        reveal_strlit("CREATE TABLE IF NOT EXISTS symbols (
                        id SERIAL PRIMARY KEY,
                        file_id INTEGER REFERENCES files(id) ON DELETE CASCADE,
                        ast_node_id INTEGER REFERENCES ast_nodes(id) ON DELETE CASCADE,
                        name TEXT NOT NULL,
                        kind TEXT NOT NULL,
                        signature TEXT,
                        docstring TEXT,
                        start_line INTEGER NOT NULL,
                        end_line INTEGER NOT NULL,
                        embedding vector(");
        assert(ss[6].subrange(0, "CREATE TABLE IF NOT EXISTS "@.len() as int) =~= "CREATE TABLE IF NOT EXISTS "@);
    }
    assert(guarded_statement(ss[7])) by {
        reveal_strlit("CREATE INDEX IF NOT EXISTS ");
        reveal_strlit("CREATE INDEX IF NOT EXISTS idx_symbols_embedding
                 ON symbols USING hnsw (embedding vector_cosine_ops)");
        assert(ss[7].subrange(0, "CREATE INDEX IF NOT EXISTS "@.len() as int) =~= "CREATE INDEX IF NOT EXISTS "@);
    }
    assert(guarded_statement(ss[8])) by {
        reveal_strlit("CREATE TABLE IF NOT EXISTS ");
        reveal_strlit("CREATE TABLE IF NOT EXISTS \"references\" (
                    id SERIAL PRIMARY KEY,
                    from_symbol_id INTEGER REFERENCES symbols(id) ON DELETE CASCADE,
                    to_symbol_id INTEGER REFERENCES symbols(id) ON DELETE CASCADE,
                    reference_type TEXT NOT NULL,
                    file_id INTEGER REFERENCES files(id) ON DELETE CASCADE,
                    line INTEGER NOT NULL,
                    \"column\" INTEGER NOT NULL,
                    metadata JSONB DEFAULT '{}',
                    UNIQUE(from_symbol_id, to_symbol_id, reference_type, line, \"column\")
                )");
        assert(ss[8].subrange(0, "CREATE TABLE IF NOT EXISTS "@.len() as int) =~= "CREATE TABLE IF NOT EXISTS "@);
    }
    assert(guarded_statement(ss[9])) by {
        reveal_strlit("CREATE INDEX IF NOT EXISTS ");
        reveal_strlit("CREATE INDEX IF NOT EXISTS idx_references_from ON \"references\"(from_symbol_id)");
        assert(ss[9].subrange(0, "CREATE INDEX IF NOT EXISTS "@.len() as int) =~= "CREATE INDEX IF NOT EXISTS "@);
    }
    assert(guarded_statement(ss[10])) by {
        reveal_strlit("CREATE INDEX IF NOT EXISTS ");
        reveal_strlit("CREATE INDEX IF NOT EXISTS idx_references_to ON \"references\"(to_symbol_id)");
        assert(ss[10].subrange(0, "CREATE INDEX IF NOT EXISTS "@.len() as int) =~= "CREATE INDEX IF NOT EXISTS "@);
    }
    assert(guarded_statement(ss[11])) by {
        reveal_strlit("CREATE TABLE IF NOT EXISTS ");
        reveal_strlit("CREATE TABLE IF NOT EXISTS code_chunks (
                        id SERIAL PRIMARY KEY,
                        file_id INTEGER REFERENCES files(id) ON DELETE CASCADE,
                        symbol_id INTEGER REFERENCES symbols(id) ON DELETE SET NULL,
                        text TEXT NOT NULL,
                        start_line INTEGER NOT NULL,
                        end_line INTEGER NOT NULL,
                        embedding vector(");
        assert(ss[11].subrange(0, "CREATE TABLE IF NOT EXISTS "@.len() as int) =~= "CREATE TABLE IF NOT EXISTS "@);
    }
    assert(guarded_statement(ss[12])) by {
        reveal_strlit("CREATE INDEX IF NOT EXISTS ");
        reveal_strlit("CREATE INDEX IF NOT EXISTS idx_code_chunks_embedding
                 ON code_chunks USING hnsw (embedding vector_cosine_ops)");
        assert(ss[12].subrange(0, "CREATE INDEX IF NOT EXISTS "@.len() as int) =~= "CREATE INDEX IF NOT EXISTS "@);
    }
    assert(guarded_statement(ss[13])) by {
        reveal_strlit("CREATE TABLE IF NOT EXISTS ");
        reveal_strlit("CREATE TABLE IF NOT EXISTS scheduled_tasks (
                    id SERIAL PRIMARY KEY,
                    repo_id INTEGER NOT NULL UNIQUE REFERENCES repositories(id) ON DELETE CASCADE,
                    interval_hours INTEGER NOT NULL CHECK (interval_hours > 0 AND interval_hours <= 8760),
                    next_run_at TIMESTAMPTZ NOT NULL,
                    last_run_at TIMESTAMPTZ,
                    status TEXT DEFAULT 'idle' CHECK (status IN ('idle', 'running', 'failed', 'paused', 'cancelled')),
                    version INTEGER DEFAULT 1 CHECK (version > 0),
                    retry_count INTEGER DEFAULT 0 CHECK (retry_count >= 0),
                    error_message TEXT,
                    created_at TIMESTAMPTZ DEFAULT CURRENT_TIMESTAMP
                )");
        assert(ss[13].subrange(0, "CREATE TABLE IF NOT EXISTS "@.len() as int) =~= "CREATE TABLE IF NOT EXISTS "@);
    }
    assert(guarded_statement(ss[14])) by {
        reveal_strlit("CREATE INDEX IF NOT EXISTS ");
        reveal_strlit("CREATE INDEX IF NOT EXISTS idx_scheduled_tasks_repo_id ON scheduled_tasks(repo_id)");
        assert(ss[14].subrange(0, "CREATE INDEX IF NOT EXISTS "@.len() as int) =~= "CREATE INDEX IF NOT EXISTS "@);
    }
    assert(guarded_statement(ss[15])) by {
        reveal_strlit("CREATE INDEX IF NOT EXISTS ");
        reveal_strlit("CREATE INDEX IF NOT EXISTS idx_scheduled_tasks_next_run ON scheduled_tasks(next_run_at) WHERE status = 'idle'");
        assert(ss[15].subrange(0, "CREATE INDEX IF NOT EXISTS "@.len() as int) =~= "CREATE INDEX IF NOT EXISTS "@);
    }
    assert(guarded_statement(ss[16])) by {
        reveal_strlit("CREATE INDEX IF NOT EXISTS ");
        reveal_strlit("CREATE INDEX IF NOT EXISTS idx_scheduled_tasks_status ON scheduled_tasks(status)");
        assert(ss[16].subrange(0, "CREATE INDEX IF NOT EXISTS "@.len() as int) =~= "CREATE INDEX IF NOT EXISTS "@);
    }
    assert(guarded_statement(ss[17])) by {
        reveal_strlit("CREATE TABLE IF NOT EXISTS ");
        reveal_strlit("CREATE TABLE IF NOT EXISTS knowledge_documents (
                    id SERIAL PRIMARY KEY,
                    repo_id INTEGER NOT NULL UNIQUE REFERENCES repositories(id) ON DELETE CASCADE,
                    content TEXT NOT NULL CHECK (content != ''),
                    generated_at TIMESTAMPTZ DEFAULT CURRENT_TIMESTAMP,
                    last_edited_at TIMESTAMPTZ,
                    version INTEGER DEFAULT 1 CHECK (version > 0)
                )");
        assert(ss[17].subrange(0, "CREATE TABLE IF NOT EXISTS "@.len() as int) =~= "CREATE TABLE IF NOT EXISTS "@);
    }
    assert(guarded_statement(ss[18])) by {
        reveal_strlit("CREATE INDEX IF NOT EXISTS ");
        reveal_strlit("CREATE INDEX IF NOT EXISTS idx_knowledge_documents_repo_id ON knowledge_documents(repo_id)");
        assert(ss[18].subrange(0, "CREATE INDEX IF NOT EXISTS "@.len() as int) =~= "CREATE INDEX IF NOT EXISTS "@);
    }
}

} // verus!
