[package]
name = "kenja_tools"
version = "0.1.0"
edition = "2021"
publish = false

[dependencies]
serde_json = "1"
blake3 = { version = "1", features = ["pure"] }
hex = "0.4"
url = "2"
chrono = { version = "0.4", default-features = false, features = ["alloc", "std"] }
anyhow = "1"
clap = { version = "4", features = ["derive"] }
dotenvy = "0.15"
futures = "0.3"
mongodb = "3"
reqwest = { version = "0.12", default-features = false, features = ["rustls-tls", "stream"] }
serde = { version = "1", features = ["derive"] }
serde_repr = "0.1"
serde_with = "3"
tokio = { version = "1", features = ["full"] }
tracing = "0.1"
tracing-subscriber = "0.3"
