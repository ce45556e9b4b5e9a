[package]
name = "uptime_monitor"
version = "0.1.0"
edition = "2021"
publish = false

[dependencies]
base64 = "0.13"
hmac-sha1 = "*"
chrono = "*"
dotenv = "*"
reqwest = { version = "*", default-features = false }
tokio = { version = "*", features = ["macros", "rt-multi-thread"] }
tokio-postgres = "*"

[dev-dependencies]
percent-encoding = "*"
