[package]
name = "corner"
version = "0.1.0"
edition = "2021"
publish = false

[dependencies]
regex = "=1.13.1"
dirs = "=5.0.1"
serde = { version = "=1.0.229", features = ["derive"] }
serde_json = "=1.0.154"
tokio = { version = "=1.54.1", features = ["full"] }
reqwest = { version = "=0.12.28", features = ["json", "stream"] }
futures-util = "=0.3.34"
cpal = "=0.15.3"
whisper-rs = "=0.10.0"
base64 = "=0.21.7"
mime_guess = "=2.0.5"
anyhow = "1"
dotenv = "0.15"
uuid = { version = "1", features = ["v4"] }
image = { version = "0.24", default-features = false, features = ["png", "jpeg"] }
