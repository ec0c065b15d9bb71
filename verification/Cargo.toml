[package]
name = "alphascout-agent"
version = "0.2.0"
edition = "2021"
publish = false

[dependencies]
aomi-sdk = "0.1.20"
axum = "0.7"
chrono = "0.4"
dotenvy = "0.15"
ethers = { version = "2", default-features = false }
reqwest = { version = "0.12", features = ["json"] }
schemars = "*"
serde = { version = "1", features = ["derive"] }
serde_json = "1"
tokio = { version = "1", features = ["full"] }
