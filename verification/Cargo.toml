[package]
name = "pipeline"
version = "0.1.0"
edition = "2021"
publish = false

[dependencies]
futures = "0.3"
tokio = { version = "0.2", features = ["sync", "stream", "rt-core", "rt-threaded", "time"] }
