[package]
name = "mocktopus"
version = "0.1.0"
edition = "2021"
publish = false

[dependencies]
syn = { version = "0.11", features = ["full"] }
quote = "0.3"
