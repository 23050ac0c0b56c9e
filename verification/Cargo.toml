[package]
name = "rusted_ruins"
version = "0.1.0"
edition = "2021"
publish = false

[dependencies]
anyhow = "=1.0.104"
fluent = "=0.17.0"
intl-memoizer = "=0.5.3"
lazy_static = "=1.5.1"
serde = { version = "=1.0.229", features = ["derive"] }
serde_json = "1"
unic-langid = "=0.9.6"
walkdir = "=2.5.0"
