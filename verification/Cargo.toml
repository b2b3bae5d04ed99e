[package]
name = "hecto"
version = "0.1.0"
edition = "2021"
publish = false

[dependencies]
anyhow = "1"
lsp-types = "0.95"
serde = { version = "1", features = ["derive"] }
serde_json = "1"
termion = "2"
tree-sitter = "0.20"
tree-sitter-c = "0.20"
tree-sitter-cpp = "0.20"
tree-sitter-go = "0.20"
tree-sitter-highlight = "0.20"
tree-sitter-python = "0.20"
tree-sitter-rust = "0.20"
unicode-segmentation = "1"
