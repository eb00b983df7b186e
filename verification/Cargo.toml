[package]
name = "niri_gesture_inspector"
version = "0.1.0"
edition = "2021"
publish = false

[dependencies]
anyhow = "1"
async-channel = "2"
gtk4 = "*"
niri-ipc = "*"
