[package]
name = "file_triage"
version = "0.1.0"
edition = "2021"
publish = false

[dependencies]
walkdir = "2"
serde = { version = "1", features = ["derive"] }
serde_json = "1"

[dev-dependencies]
tempfile = "3"
