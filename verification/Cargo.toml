[package]
name = "key_vaulter"
version = "0.1.0"
edition = "2021"
publish = false

[dependencies]
keyring = "=3.6.3"
serde = { version = "=1.0.229", features = ["derive"] }
serde_json = { version = "=1.0.154", features = ["preserve_order"] }
