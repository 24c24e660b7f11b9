[package]
name = "crabby_auth"
version = "0.1.0"
edition = "2021"
publish = false

[dependencies]
argon2 = "*"
pasetors = { version = "*", features = ["paserk"] }
chrono = "*"
uuid = { version = "*", features = ["v4"] }
hmac = "*"
sha2 = "*"
