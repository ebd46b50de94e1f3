[package]
name = "railway_export"
version = "0.1.0"
edition = "2021"
publish = false

[dependencies]
anyhow = "1"
clap = { version = "4", features = ["derive"] }
colored = "2"
is-terminal = "0.4"
serde = { version = "1", features = ["derive"] }
serde_json = "1"
toml = "0.8"
