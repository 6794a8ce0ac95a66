[package]
name = "landscape_settings"
version = "0.1.0"
edition = "2021"
publish = false

[dependencies]
anyhow = "1"
lazy_static = "1"
regex = "1"
reqwest = "0.11"
serde = { version = "1", features = ["derive"] }
serde_yaml = "0.9"
tracing = "0.1"
