[package]
name = "laralsp"
version = "0.1.0"
edition = "2021"
publish = false

[dependencies]
anyhow = "*"
lazy_static = "*"
serde = { version = "*", features = ["derive"] }
serde_json = "*"
tokio = { version = "*", features = ["full"] }
tower-lsp = "*"
tree-sitter = "*"
tree-sitter-php = "*"
