[package]
name = "account_kernel"
version = "0.1.0"
edition = "2021"
publish = false

[dependencies]
argon2 = "*"
base64 = "*"
chacha20poly1305 = "*"
rand = "*"
serde = { version = "*", features = ["derive"] }
serde_json = "*"
totp-lite = "*"
