[package]
name = "aes_hal"
version = "0.1.0"
edition = "2021"
publish = false

[dependencies]
aes = "=0.8.4"
ghash = "=0.5.1"
embedded-hal = { version = "=0.2.7", features = ["unproven"] }
