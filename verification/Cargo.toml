[package]
name = "dawn_stdlib"
version = "0.1.0"
edition = "2021"
publish = false

[dependencies]
base64 = "0.21"
hex = "0.4"
serde = { version = "1", features = ["derive"] }
serde_json = "1"
