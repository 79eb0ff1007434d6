[package]
name = "hunter_game"
version = "0.1.0"
edition = "2021"
publish = false

[dependencies]
rand = "0.8"
serde_json = "1"
bevy = { version = "0.5", default-features = false, features = ["render"] }
