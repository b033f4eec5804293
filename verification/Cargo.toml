[package]
name = "africastalking"
version = "0.1.0"
edition = "2021"
publish = false

[dependencies]
chrono = "*"
serde_urlencoded = "*"
serde = { version = "*", features = ["derive"] }
serde_json = "*"
reqwest = { version = "*", default-features = false, features = ["json"] }
tokio = { version = "*", features = ["time", "rt", "macros"] }
