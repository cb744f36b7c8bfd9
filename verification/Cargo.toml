[package]
name = "spotlight_windows"
version = "0.3.0"
edition = "2021"
publish = false

[dependencies]
anyhow = "1"
chrono = "0.4"
dirs = "5"
egui = "0.29"
fuzzy-matcher = "0.3"
global-hotkey = "0.6"
ignore = "0.4"
moka = { version = "0.12", features = ["sync"] }
notify = "6"
num_cpus = "1"
pdf-extract = "0.7"
serde = { version = "1", features = ["derive"] }
tantivy = "0.22"
tokio = { version = "1", features = ["full"] }
toml = "0.8"
tracing = "0.1"
tracing-subscriber = { version = "0.3", features = ["env-filter"] }
