[package]
name = "codex-dialects"
version = "0.1.0"
edition = "2021"
publish = false

[dependencies]
base64 = "=0.22.1"
bytes = "1"
chrono = { version = "=0.4.45", default-features = false, features = ["std", "clock"] }
futures = "0.3"
http = "=1.5.0"
serde = { version = "1", features = ["derive"] }
serde_json = { version = "=1.0.154", features = ["preserve_order"] }
thiserror = "2"
tokio = { version = "1", features = ["rt", "sync", "time", "macros"] }
tokio-util = "0.7"
tonic = { version = "0.14", default-features = false }
uuid = { version = "=1.29.0", features = ["v4", "v5"] }
