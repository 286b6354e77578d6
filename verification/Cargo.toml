[package]
name = "vinox_common"
version = "0.1.0"
edition = "2021"
publish = false

[dependencies]
bevy = { version = "=0.10.1", default-features = false, features = ["bevy_asset", "bevy_render"] }
bevy_tweening = { version = "0.7", default-features = false }
directories = "=5.0.1"
ron = "=0.8.1"
serde = { version = "=1.0.229", features = ["derive"] }
tokio = { version = "=1.54.1", default-features = false, features = ["sync"] }
walkdir = "=2.5.0"
