[package]
name = "lifecycle_core"
version = "0.1.0"
edition = "2021"
publish = false

[dependencies]
time = "*"
dirs = "*"
tracing = "*"
tracing-appender = "*"
tracing-subscriber = { version = "*", features = ["env-filter"] }
