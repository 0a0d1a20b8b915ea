[package]
name = "create_rust_app"
version = "0.1.0"
edition = "2021"
publish = false

[dependencies]
Inflector = "0.11"
toml = "0.5"
anyhow = "1"
console = "0.15"
dialoguer = "0.10"
rust-embed = "6"
