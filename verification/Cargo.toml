[package]
name = "pjdfstest"
version = "0.1.0"
edition = "2021"
publish = false

[dependencies]
anyhow = "1"
figment = { version = "0.10", features = ["toml"] }
gumdrop = "0.8"
nix = { version = "*", features = ["fs", "user"] }
once_cell = "1"
serde = { version = "1", features = ["derive"] }
