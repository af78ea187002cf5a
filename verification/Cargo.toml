[package]
name = "voicedesk"
version = "0.1.0"
edition = "2021"
publish = false

[dependencies]
base64 = "*"
keyring = "*"
reqwest = { version = "*", default-features = false, features = ["blocking"] }
serde = { version = "*", features = ["derive"] }
serde_json = "*"
