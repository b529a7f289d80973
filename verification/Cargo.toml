[package]
name = "esplora_client"
version = "0.1.0"
edition = "2021"
publish = false

[dependencies]
bitcoin = { version = "0.32", default-features = false, features = ["std", "serde"] }
reqwest = { version = "0.12", default-features = false, features = ["json", "socks"] }
serde = { version = "1", features = ["derive"] }
serde_json = "1"
tokio = { version = "1", features = ["rt", "time"] }
tracing = "0.1"
