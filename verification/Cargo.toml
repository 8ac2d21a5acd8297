[package]
name = "ampd"
version = "0.1.0"
edition = "2021"
publish = false

[dependencies]
cosmrs = "*"
serde = { version = "*", features = ["derive"] }
serde_json = "*"
