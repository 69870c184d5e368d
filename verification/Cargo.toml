[package]
name = "democracy"
version = "0.1.0"
edition = "2021"
publish = false

[dependencies]
base64 = "0.21"
uuid = { version = "1", features = ["v4"] }
humantime = "2"
chrono = { version = "0.4", default-features = false, features = ["clock"] }
config = "0.13"
serde = { version = "1", features = ["derive"] }
tokio = { version = "1", features = ["rt", "time", "macros"] }
