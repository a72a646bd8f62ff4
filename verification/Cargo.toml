[package]
name = "flac_music"
version = "0.2.0"
edition = "2021"
publish = false

[dependencies]
druid = { version = "0.7", features = ["im"] }
ffmpeg-next = "*"
im = "15"
rodio = "0.14"
