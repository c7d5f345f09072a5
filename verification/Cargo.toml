[package]
name = "natpmp"
version = "0.5.0"
edition = "2021"
publish = false

[dependencies]
async-std = "1"
async-trait = "0.1"
tokio = { version = "1", features = ["net"] }
