[package]
name = "tts_qwen3_tts"
version = "0.1.0"
edition = "2021"
publish = false

[dependencies]
serde = { version = "=1.0.229", features = ["derive"] }
serde_json = "=1.0.154"
rustfft = "=6.4.1"
num-complex = "=0.4.6"
tracing = "=0.1.44"
