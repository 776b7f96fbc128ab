[package]
name = "exifmv"
version = "0.1.0"
edition = "2021"
publish = false

[dependencies]
anyhow = "*"
clap = "*"
kamadak-exif = "*"
log = "*"
simplelog = "*"
tokio = { version = "*", features = ["rt-multi-thread", "macros"] }
trash = "*"
walkdir = "*"
