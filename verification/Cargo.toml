[package]
name = "anland"
version = "0.1.0"
edition = "2021"
publish = false

[dependencies]
smithay = { version = "=0.7.0", default-features = false }
rustix = { version = "=1.1.6", features = ["time"] }
