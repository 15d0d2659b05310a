[package]
name = "packet_capture"
version = "0.1.0"
edition = "2021"
publish = false

[dependencies]
pnet = "=0.35.0"
serde = { version = "1", features = ["derive"] }
