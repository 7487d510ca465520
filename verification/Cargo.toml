[package]
name = "temporal_kernels"
version = "0.1.0"
edition = "2021"
publish = false

[dependencies]
chrono = { version = "0.4", default-features = false, features = ["std"] }
chrono-tz = { version = "*", default-features = false, features = ["std"] }
