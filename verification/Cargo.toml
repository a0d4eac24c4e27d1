[package]
name = "session_driver"
version = "0.1.0"
edition = "2021"
publish = false

[dependencies]
tonic = { version = "*", default-features = false }
tokio = { version = "*", features = ["rt", "rt-multi-thread", "macros", "time"] }
anyhow = "*"
