[package]
name = "grain_processor"
version = "0.1.0"
edition = "2021"
publish = false

[dependencies]
aus = "*"
biquad = "*"
glob = "*"
rusqlite = "*"
serde = { version = "1", features = ["derive"] }
serde_json = "1"
threadpool = "1"
