[package]
name = "safenode"
version = "0.1.0"
edition = "2021"
publish = false

[dependencies]
blsttc = "*"
serde = { version = "1", features = ["derive"] }
serde_json = "1"
xor_name = "*"
