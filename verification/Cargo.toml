[package]
name = "network_dispatch"
version = "0.1.0"
edition = "2021"
publish = false

[dependencies]
lru = { version = "=0.18.5", default-features = false }
serde = { version = "*", features = ["derive"] }
serde_json = "*"
tokio = { version = "=1.53.2", features = ["rt", "time", "sync", "macros"] }
