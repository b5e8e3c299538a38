[package]
name = "fixed_buffer"
version = "0.3.2"
edition = "2021"
publish = false

[dependencies]
tokio = { version = "1", features = ["io-util", "rt", "macros"] }
