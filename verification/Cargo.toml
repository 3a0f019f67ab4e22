[package]
name = "metrics"
version = "0.1.0"
edition = "2021"
publish = false

[dependencies]
prometheus = { version = "*", features = ["process"] }
hyper = "0.10"
anyhow = "*"
