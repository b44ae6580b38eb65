[package]
name = "dmxvideo"
version = "0.1.0"
edition = "2021"
publish = false

[dependencies]
artnet_protocol = "*"
crossbeam-channel = "0.5"
serde = { version = "1", features = ["derive"] }
serde_json = "1"
