[package]
name = "overleaf_service"
version = "0.1.0"
edition = "2021"
publish = false

[dependencies]
serde = { version = "1", features = ["derive"] }
serde_json = "1"
base64 = "0.22"
tokio = { version = "1", features = ["rt", "time", "sync", "macros"] }
reqwest = { version = "0.12", default-features = false, features = ["rustls-tls"] }
tempfile = "3"
futures-util = "0.3"
async-trait = "0.1"
