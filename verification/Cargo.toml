[package]
name = "pake_logs"
version = "0.1.0"
edition = "2021"
publish = false

[dependencies]
chrono = "*"
serde_json = "*"
zip = "*"
reqwest = { version = "*", default-features = false, features = ["blocking"] }
