[package]
name = "gbcart"
version = "0.1.0"
edition = "2021"
publish = false

[dependencies]
clap = "4"
serialport = { version = "4", default-features = false }

[dev-dependencies]
crc16 = "0.4"
