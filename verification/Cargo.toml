[package]
name = "chorus"
version = "0.1.0"
edition = "2021"
publish = false

[dependencies]
chrono = { version = "=0.4.45", default-features = false, features = ["serde", "std"] }
serde = { version = "=1.0.229", features = ["derive"] }
serde_json = { version = "=1.0.154", features = ["raw_value"] }
serde_repr = "=0.1.21"
tokio-tungstenite = { version = "=0.20.1", default-features = false }
