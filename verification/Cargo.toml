[package]
name = "ai_provider"
version = "0.1.0"
edition = "2021"
publish = false

[dependencies]
anyhow = "1"
serde = { version = "1", features = ["derive"] }
serde_json = "1"
bincode = "1"
uuid = { version = "1", features = ["v4"] }
hex = "0.4"
url = "2"
http-auth-basic = "0.3"
web3 = { version = "0.19", default-features = false, features = ["signing"] }
alloy-sol-types = "0.7"
