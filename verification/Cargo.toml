[package]
name = "client_auth"
version = "0.1.0"
edition = "2021"
publish = false

[dependencies]
rand = "0.8"
rust-crypto = "*"
base64 = "*"
url = "2"
uuid = { version = "1", features = ["v4"] }
serde = { version = "1", features = ["derive"] }
serde_json = "1"
reqwest = { version = "0.12", default-features = false, features = ["blocking", "json"] }
