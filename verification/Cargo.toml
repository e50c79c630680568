[package]
name = "video_receiver"
version = "0.1.0"
edition = "2021"
publish = false

[dependencies]
anyhow = "1"
clap = { version = "4", features = ["derive"] }
ffmpeg-next = "*"
serde = { version = "1", features = ["derive"] }
tungstenite = "*"
