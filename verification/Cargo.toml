[package]
name = "piksell"
version = "0.1.0"
edition = "2021"
publish = false

[dependencies]
anyhow = "=1.0.104"
raw-window-handle = "=0.5.2"
wgpu = "0.17"
