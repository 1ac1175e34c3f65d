[package]
name = "simmer"
version = "0.1.0"
edition = "2021"
publish = false

[dependencies]
tokio = { version = "*", features = ["sync", "rt", "rt-multi-thread", "macros"] }
futures = "*"
lazy_static = "*"
tracing = "*"
