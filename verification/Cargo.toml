[package]
name = "haunted"
version = "0.1.0"
edition = "2021"
publish = false

[dependencies]
bevy = { version = "=0.20.1", default-features = false }
bevy_rapier3d = { version = "=0.37.0", default-features = false }
log = "*"
