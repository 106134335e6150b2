[package]
name = "fps_core"
version = "0.1.0"
edition = "2021"
publish = false

[dependencies]
bevy = { version = "0.14", default-features = false, features = ["bevy_asset", "bevy_scene"] }
bevy_rapier3d = { version = "0.27", default-features = false, features = ["dim3"] }
