[package]
name = "unaligned"
version = "0.1.0"
edition = "2021"
publish = false

[dependencies]
scopeguard = { version = "1.2", default-features = false }
