[package]
name = "plausible_rs"
version = "0.1.0"
edition = "2021"
publish = false

[dependencies]
reqwest = { version = "*", default-features = false }
bytes = "*"

[dev-dependencies]
serde_json = "*"
