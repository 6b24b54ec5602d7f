[package]
name = "server_warden"
version = "0.1.0"
edition = "2021"
publish = false

[dependencies]
chrono = "0.4"
regex = "1"
reqwest = { version = "0.11", features = ["blocking", "json"] }
serde_json = "1"
