[package]
name = "repo_ingest"
version = "0.1.0"
edition = "2021"
publish = false

[dependencies]
base64 = "*"
serde_json = "*"
serde = { version = "*", features = ["derive"] }
isahc = "*"
walkdir = "*"
sysinfo = "*"
