[package]
name = "fixed_framestep"
version = "0.1.0"
edition = "2021"
publish = false

[dependencies]
bevy_ecs = { version = "0.9", default-features = false }
bevy_utils = { version = "0.9", default-features = false }
bevy_app = { version = "0.9", default-features = false }
