[package]
name = "wal_control"
version = "0.1.0"
edition = "2021"
publish = false

[dependencies]
tokio = { version = "1", features = ["sync"] }
parking_lot = "0.12"
serde = { version = "1", features = ["derive"] }
serde_json = "1"
