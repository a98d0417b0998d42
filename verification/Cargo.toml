[package]
name = "typy"
version = "0.1.0"
edition = "2021"
publish = false

[dependencies]
anyhow = "1"
crossterm = "*"
dirs = "*"
serde = { version = "1", features = ["derive"] }
toml = "*"
