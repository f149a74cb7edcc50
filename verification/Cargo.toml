[package]
name = "capture_media"
version = "0.1.0"
edition = "2021"
publish = false

[dependencies]
crossbeam-channel = "=0.5.17"
futures-lite = "=1.13.0"
log = "=0.4.34"
ndarray = "=0.15.6"
video-rs = { version = "0.8", features = ["ndarray"] }
