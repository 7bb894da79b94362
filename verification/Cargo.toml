[package]
name = "logscale_log"
version = "0.1.0"
edition = "2021"
publish = false

[dependencies]
log = { version = "0.4", features = ["kv"] }
reqwest = { version = "0.12", features = ["json"] }
serde = { version = "1", features = ["derive"] }
serde_json = "1"
structured-logger = "1"
thiserror = "1"
tokio = { version = "1", features = ["rt", "time"] }
