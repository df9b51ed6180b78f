[package]
name = "audio_engine"
version = "0.1.0"
edition = "2021"
publish = false

[dependencies]
cpal = "*"
crossbeam-channel = "*"
once_cell = "*"
parking_lot = "*"
uuid = { version = "*", features = ["v4"] }
