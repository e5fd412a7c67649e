[package]
name = "kircast_audio"
version = "0.1.0"
edition = "2021"
publish = false

[dependencies]
crossbeam = "*"
cpal = "*"
ffmpeg-next = "*"
