[package]
name = "asl"
version = "0.1.0"
edition = "2021"
publish = false

[dependencies]
chrono = "=0.4.45"
itertools = "=0.15.0"
serde = { version = "=1.0.229", features = ["derive"] }
serde_json = { version = "=1.0.154", features = ["preserve_order"] }
serde_json_path = "=0.7.2"
serde_with = "=3.24.0"
thiserror = "=1.0.69"
