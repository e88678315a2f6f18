[package]
name = "piv_p256"
version = "0.1.0"
edition = "2021"
publish = false

[dependencies]
age-core = "*"
base64 = "0.13"
p256 = { version = "0.13", features = ["ecdh"] }
rand = "0.8"
