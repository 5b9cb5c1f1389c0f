[package]
name = "cognivox"
version = "0.1.0"
edition = "2021"
publish = false

[dependencies]
serde = { version = "=1.0.229", features = ["derive"] }
serde_json = "=1.0.151"
reqwest = { version = "=0.13.5", default-features = false, features = ["blocking", "json"] }
crossbeam-channel = "=0.5.17"
whisper-rs = "=0.16.0"
hf-hub = { version = "=1.0.0", features = ["blocking"] }
