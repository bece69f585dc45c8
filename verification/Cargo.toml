[package]
name = "editor_core"
version = "0.1.0"
edition = "2021"
publish = false

[dependencies]
ropey = { version = "=1.6.1", default-features = false }
tree-sitter = "=0.20.10"
tree-sitter-rust = "=0.20.4"
