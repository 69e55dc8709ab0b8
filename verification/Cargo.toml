[package]
name = "download_manager"
version = "0.1.0"
edition = "2021"
publish = false

[dependencies]
anyhow = "1"
bytes = "1"
futures-core = "0.3"
futures-util = "0.3"
http = "1"
reqwest = { version = "0.12", default-features = false, features = ["stream", "rustls-tls"] }
thiserror = "2"
tokio = { version = "1", features = ["fs", "io-util", "macros", "rt-multi-thread", "sync", "time"] }
tokio-stream = { version = "0.1", features = ["sync"] }
tokio-util = { version = "0.7", features = ["rt", "time"] }
tracing = "0.1"
url = "2"
