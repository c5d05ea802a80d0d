[package]
name = "flowy_document"
version = "0.1.0"
edition = "2021"
publish = false

[dependencies]
dashmap = "6"
uuid = "1"
tokio = { version = "1", features = ["rt", "time", "sync"] }
tracing = "0.1"
