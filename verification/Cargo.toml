[package]
name = "delta_snapshot"
version = "0.1.0"
edition = "2021"
publish = false

[dependencies]
peak_alloc = "*"
serde = { version = "1", features = ["derive"] }
serde_json = "1"
tracing = "0.1"
url = "2"
