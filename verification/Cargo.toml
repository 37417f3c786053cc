[package]
name = "beat_hopper"
version = "0.1.0"
edition = "2021"
publish = false

[dependencies]
rand = "=0.7.3"
serde = { version = "1", features = ["derive"] }
amethyst = { version = "=0.15.3", default-features = false, features = ["animation", "audio", "renderer", "empty", "tiles"] }
