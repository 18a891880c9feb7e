[package]
name = "rust_indexer"
version = "0.1.0"
edition = "2021"
publish = false

[dependencies]
tree-sitter = "0.20"
tree-sitter-rust = "0.20"
tree-sitter-javascript = "0.20"
tree-sitter-typescript = "0.20"
tree-sitter-go = "0.20"
tree-sitter-python = "0.20"
tree-sitter-java = "0.20"
tree-sitter-cpp = "0.20"
axum = "0.6"
tokio = { version = "1", features = ["macros", "rt-multi-thread", "net", "fs"] }
tower-http = { version = "0.4", features = ["cors"] }
serde = { version = "1", features = ["derive"] }
serde_json = "1"
tracing = "0.1"
tracing-subscriber = "0.3"
