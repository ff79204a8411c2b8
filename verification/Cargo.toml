[package]
name = "stats_exporter"
version = "0.1.0"
edition = "2021"
publish = false

[dependencies]
sysinfo = "0.30"
axum = "0.7"
tokio = { version = "1", features = ["full"] }
serde = { version = "1", features = ["derive"] }
serde_derive = "1"
serde_json = "1"
toml = "0.8"
