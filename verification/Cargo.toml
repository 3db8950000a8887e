[package]
name = "platformer_core"
version = "0.1.0"
edition = "2021"
publish = false

[dependencies]
image = { version = "=0.24.9", default-features = false, features = ["png"] }
serde = { version = "=1.0.229", features = ["derive"] }
toml = "=0.5.11"
thiserror = "=1.0.69"
rust-embed = "=6.8.1"
anyhow = "=1.0.104"
once_cell = "=1.21.4"
bevy = { version = "0.8", default-features = false, features = ["bevy_asset", "bevy_winit", "render", "png", "x11"] }
bevy_framepace = "0.6"
