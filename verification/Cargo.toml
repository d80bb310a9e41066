[package]
name = "audir"
version = "0.1.0"
edition = "2021"
publish = false

[dependencies]
audio_thread_priority = { version = "*", default-features = false }
