[package]
name = "bridgex"
version = "0.1.0"
edition = "2021"
publish = false

[dependencies]
base64 = "*"
chrono = "*"
hkdf = "0.12"
image = "*"
qrcode = "*"
rand = "0.8"
sha2 = "0.10"
uuid = { version = "1", features = ["v4"] }
x25519-dalek = { version = "2", features = ["static_secrets"] }
