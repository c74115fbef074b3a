[package]
name = "tokio-serial-pacing"
version = "0.1.0"
edition = "2021"
publish = false

[dependencies]
pin-project-lite = "0.2"
tokio = { version = "1", features = ["time", "io-util"] }
tokio-serial = { version = "5", default-features = false }
