[package]
name = "cudgel"
version = "0.1.0"
edition = "2021"
publish = false

[dependencies]
glob = "*"
regex = "*"
sha2 = "*"
xxhash-rust = { version = "*", features = ["xxh3"] }
tree-sitter = "*"
tree-sitter-python = "*"
tree-sitter-javascript = "*"
tree-sitter-typescript = "*"
tree-sitter-rust = "*"
tree-sitter-go = "*"
tree-sitter-c = "*"
tree-sitter-cpp = "*"
tree-sitter-java = "*"
tokio = { version = "1", features = ["full"] }
tokio-postgres = { version = "*", features = ["with-chrono-0_4", "with-serde_json-1"] }
deadpool-postgres = "*"
pgvector = { version = "*", features = ["postgres"] }
chrono = "*"
serde = { version = "1", features = ["derive"] }
serde_json = "1"
clap = { version = "4", features = ["derive"] }
colored = "*"
comfy-table = "*"
tracing = "*"
tracing-subscriber = { version = "*", features = ["env-filter"] }
nix = { version = "*", features = ["signal", "process"] }
ndarray = "*"
rand_chacha = "*"
strsim = "*"
indicatif = "*"
