[package]
name = "rustbook"
version = "0.1.0"
edition = "2021"
publish = false

[dependencies]
rand = "0.9"
regex = "1"
heapless = "0.8"
reqwest = { version = "0.12", default-features = false }
tokio = { version = "1", features = ["rt-multi-thread", "time", "sync", "macros"] }
tokio-stream = { version = "0.1", features = ["time", "sync"] }
futures = "0.3"
anyhow = "1"
