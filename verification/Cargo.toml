[package]
name = "kaleidux"
version = "0.1.0"
edition = "2021"
publish = false

[dependencies]
regex = "=1.13.1"
naga = { version = "=23.1.0", features = ["glsl-in", "wgsl-out"] }
rand = "=0.8.8"
wgpu = "=23.0.1"
bytemuck = { version = "=1.25.2", features = ["derive"] }
parking_lot = "=0.12.5"
tracing = "=0.1.44"
anyhow = "=1.0.104"
serde = { version = "=1.0.229", features = ["derive"] }
toml = "=0.8.23"
dirs = "=5.0.1"
image = "=0.25.10"
x11rb = { version = "0.13", features = ["allow-unsafe-code", "dl-libxcb", "randr"] }
raw-window-handle = "0.6"
futures = "0.3"
tracing-subscriber = { version = "0.3", features = ["env-filter"] }
humantime-serde = "1"
