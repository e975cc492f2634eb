[package]
name = "collider_render"
version = "0.1.0"
edition = "2021"
publish = false

[dependencies]
bevy = { version = "=0.5.0", default-features = false, features = ["render"] }
num-derive = { version = "=0.3.3", features = ["full-syntax"] }
rapier2d = "=0.4.2"
rapier3d = "=0.4.2"
