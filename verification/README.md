# cudgel

A code indexing tool: it parses repositories with tree-sitter, stores their
symbols with embeddings in PostgreSQL/pgvector, and answers searches,
reference-graph queries and relationship questions.

The rules of the tool live in a library verified with Verus (`src/`); the
command line, the database statements, process control and floating-point
work live in an ordinary Rust program around it (`app/`).

## Layout

- `src/text.rs`, `src/paths.rs` — strings, numbers and paths, with their
  specifications.
- `src/error.rs` — the error type, its messages and the advice shown to users.
- `src/config.rs` — configuration values, their validation, XDG directories.
- `src/parser.rs` — language detection, tree-sitter parsing into a flat
  syntax tree, symbol extraction, content hashes.
- `src/indexer.rs` — include/exclude/language filters, file selection,
  indexing statistics, symbol preparation, git output.
- `src/database.rs` — records, schema statements, task scheduling and retry
  backoff.
- `src/graph.rs` — the reference-graph walk, as a state machine.
- `src/orchestrator.rs` — daemon decisions and the state machine of a
  scheduled task run.
- `src/kg/` — the knowledge graph model, row reading, relationship queries
  and schema.
- `src/embeddings/` — strategy selection, tokenization and hashed features.
- `src/llm/`, `src/deps/`, `src/services.rs` — prompt templates, dependency
  checks and service settings.
- `src/cli.rs` — argument checks and reports of the command line.
- `tests/` — tests of the library.
- `app/` — the `cudgel` program.
