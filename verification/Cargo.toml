[package]
name = "probe_rs"
version = "0.1.0"
edition = "2021"
publish = false

[dependencies]
rusb = { version = "*", features = ["vendored"] }
serialport = { version = "*", default-features = false }
