[package]
name = "myscontroller_rs"
version = "0.1.0"
edition = "2021"
publish = false

[dependencies]
hex = "*"
crc16 = "*"
crossbeam-channel = "*"
serde = { version = "*", features = ["derive"] }
toml = "*"
serialport = { version = "*", default-features = false }
