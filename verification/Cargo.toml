[package]
name = "rusty_mapper"
version = "0.1.0"
edition = "2021"
publish = false

[dependencies]
anyhow = "1"
chrono = "0.4"
cpal = "*"
dirs = "*"
glam = "*"
image = { version = "0.25", default-features = false, features = ["png", "jpeg"] }
log = "0.4"
serde = { version = "1", features = ["derive"] }
serde_json = "1"
toml = "*"
wgpu = "25"
