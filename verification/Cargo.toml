[package]
name = "rustmail"
version = "0.1.0"
edition = "2021"
publish = false

[dependencies]
regex = "1"
serenity = "0.12"
tokio = { version = "1", features = ["full"] }
chrono = "0.4"
uuid = { version = "1", features = ["v4"] }
serde = { version = "1", features = ["derive"] }
toml = "0.8"
