[package]
name = "latentdeck"
version = "0.1.0"
edition = "2021"
publish = false

[dependencies]
semver = "1"
uuid = "1"
serde = { version = "1", features = ["derive"] }
serde_json = "1"
