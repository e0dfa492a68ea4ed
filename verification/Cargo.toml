[package]
name = "webcam_fx"
version = "0.1.0"
edition = "2021"
publish = false

[dependencies]
anyhow = "*"
clap = { version = "*", features = ["derive"] }
image = { version = "*", default-features = false }
nokhwa = { version = "*", features = ["input-v4l"] }
ort = { version = "=2.0.0-rc.13", default-features = false, features = ["load-dynamic"] }
tracing = "*"
tracing-subscriber = "*"
v4l = "*"
