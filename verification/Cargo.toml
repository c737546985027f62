[package]
name = "fish_lsp"
version = "0.1.0"
edition = "2021"
publish = false

[dependencies]
anyhow = "=1.0.104"
clap = { version = "=4.6.7", features = ["derive"] }
regex-syntax = "*"
tokio = { version = "=1.53.2", features = ["full"] }
tower-lsp = "=0.20.0"
