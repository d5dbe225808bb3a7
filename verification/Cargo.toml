[package]
name = "omi_store"
version = "0.1.0"
edition = "2021"
publish = false

[dependencies]
chrono = { version = "0.4", features = ["serde"] }
ulid = "1"
serde = { version = "1", features = ["derive"] }
serde_json = "1"
rusqlite = { version = "0.31", features = ["bundled", "chrono"] }
tokio = { version = "1", features = ["sync"] }
async-trait = "0.1"
dirs = "5"
tracing = "0.1"
