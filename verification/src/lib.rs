//! Cudgel: the verified core of a code indexing tool.
pub mod text;
pub mod paths;
pub mod error;
pub mod kg;
pub mod config;
pub mod parser;
pub mod indexer;
pub mod database;
pub mod orchestrator;
pub mod llm;
pub mod deps;
pub mod embeddings;
pub mod cli;
pub mod graph;
pub mod services;
