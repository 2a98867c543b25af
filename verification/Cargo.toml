[package]
name = "core_auth"
version = "0.1.0"
edition = "2021"
publish = false

[dependencies]
argon2 = "=0.6.0"
chrono = { version = "=0.4.45", default-features = false, features = ["clock"] }
hmac = "=0.12.1"
jwt = "=0.16.0"
rand = "=0.10.3"
sha2 = "=0.10.9"
