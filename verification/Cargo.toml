[package]
name = "worker_core"
version = "0.1.0"
edition = "2021"
publish = false

[dependencies]
prost = "*"
tokio = { version = "*", default-features = false, features = ["sync", "rt"] }
