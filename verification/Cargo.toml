[package]
name = "clip_codec"
version = "0.1.0"
edition = "2021"
publish = false

[dependencies]
midi2 = { version = "=0.6.2", features = ["utility"] }
