[package]
name = "firmware_rs"
version = "0.1.0"
edition = "2021"
publish = false

[dependencies]
embedded-hal = "=1.0.0"
embedded-hal-async = "=1.0.0"
embassy-time = { version = "=0.5.1", features = ["std"] }
embedded-can = "=0.4.1"
embassy-sync = "*"
