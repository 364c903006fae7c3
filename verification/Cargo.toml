[package]
name = "verbatim"
version = "0.1.0"
edition = "2021"
publish = false

[dependencies]
base64 = "0.22"
crossbeam-channel = "0.5"
serde = { version = "1", features = ["derive"] }
serde_json = "1"
