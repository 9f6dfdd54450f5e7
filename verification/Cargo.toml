[package]
name = "cvm-rs"
version = "0.1.0"
edition = "2021"
publish = false

[dependencies]
ffmpeg-next = "*"
napi = { version = "2", features = ["napi4"] }
napi-derive = "2"
rayon = "1"
