[package]
name = "audio_mixer"
version = "0.1.0"
edition = "2021"
publish = false

[dependencies]
cpal = "0.15"
tokio = { version = "1", features = ["sync"] }
