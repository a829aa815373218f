[package]
name = "voechoal"
version = "0.1.0"
edition = "2021"
publish = false

[dependencies]
anyhow = "1"
cpal = "0.15"
cuid2 = "0.1"
hound = "3.5"
rodio = "0.20"
serde = { version = "1", features = ["derive"] }
serde_json = "1"
thiserror = "1"
whisper-rs = "0.13"
