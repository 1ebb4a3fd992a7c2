[package]
name = "copilot_rs"
version = "0.1.0"
edition = "2021"
publish = false

[dependencies]
serde = { version = "*", features = ["derive"] }
serde_json = "*"
typed-builder = "*"
reqwest = { version = "*", default-features = false, features = ["blocking", "json"] }
