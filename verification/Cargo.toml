[package]
name = "timestamp_kernels"
version = "0.1.0"
edition = "2021"
publish = false

[dependencies]
arrow = "*"
chrono = "*"
chrono-tz = "*"
datafusion-common = { version = "*", default-features = false }
datafusion-expr = "*"
