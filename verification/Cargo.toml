[package]
name = "weather_app"
version = "0.1.0"
edition = "2021"
publish = false

[dependencies]
cursive = "*"
reqwest = { version = "*", default-features = false, features = ["json"] }
serde = { version = "*", features = ["derive"] }
tokio = { version = "*", features = ["rt-multi-thread"] }
