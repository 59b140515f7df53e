[package]
name = "viperserver"
version = "0.1.0"
edition = "2021"
publish = false

[dependencies]
serde_json = "1"
url = "2"
reqwest = { version = "0.12", default-features = false, features = ["json", "stream"] }
tokio = { version = "1", features = ["process", "io-util", "sync", "rt", "rt-multi-thread", "macros"] }
tokio-stream = { version = "0.1", features = ["io-util"] }
tokio-util = { version = "0.7", features = ["io"] }
futures = "0.3"
thiserror = "1"
tempfile = "3"
itertools = "0.12"
